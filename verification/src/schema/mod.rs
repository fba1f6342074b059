//! The GraphQL type model: scalars, enums, unions, the types that refer to
//! each other, references to types, and schema versions.

pub mod definitions;
pub mod graph;
pub mod introspection;
pub mod reference;
pub mod types;
pub mod version;
