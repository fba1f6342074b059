//! A batching and caching data loader for a GraphQL server, verified with
//! Verus, and the small part of the server's type model that stands around
//! it.
//!
//! The loader collects the point lookups of many callers, merges them into
//! one call of a batch function, caches what comes back and answers every
//! caller from the one result. It is a state machine: it never waits, sleeps
//! or reads a clock. A driver calls its steps, keeps the timer and wakes the
//! callers.
//!
//! - [`loader`]: configuration, cache, counters, queue, batch execution, the
//!   loader itself, and what holds across its steps.
//! - [`schema`]: the types of a schema, type references, schema versions.
//! - [`diagnostics`]: source locations and the errors of reading a document.
//! - [`text`]: string literals: escape sequences and block strings.
//! - [`query`]: query documents.
//! - [`services`]: the validators and the executor, which chooses the
//!   operation of a document.
//! - [`server`]: the server's handle and its parts.

use vstd::prelude::*;

pub mod diagnostics;
pub mod loader;
pub mod query;
pub mod schema;
pub mod server;
pub mod services;
pub mod text;

verus! {

/// Version of the GraphQL specification that the type model follows.
pub const GRAPHQL_SPEC_VERSION: &'static str = "October 2021";

} // verus!
