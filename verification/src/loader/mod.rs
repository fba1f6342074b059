//! The loader and its parts.
//!
//! - [`config`]: the options of a loader.
//! - [`cache`]: loaded values with their expiry.
//! - [`metrics`]: counters of requests, hits, misses and batches.
//! - [`queue`]: the requests that wait, and the rule that flushes them.
//! - [`executor`]: the distinct keys of a batch and the answers to its
//!   requests.
//! - [`facade`]: the loader, step by step.
//! - [`guarantees`]: what holds across several steps.

pub mod cache;
pub mod config;
pub mod executor;
pub mod facade;
pub mod guarantees;
pub mod metrics;
pub mod queue;
