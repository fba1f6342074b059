//! Definitions as a schema document states them, before they are resolved
//! against each other.

use vstd::prelude::*;

verus! {

/// The definition of a scalar type.
#[derive(Debug, Clone, PartialEq)]
pub struct ScalarTypeDefinition {
    /// The scalar's name.
    pub name: String,
    /// What the scalar is for.
    pub description: Option<String>,
    /// Whether GraphQL builds the scalar in.
    pub is_builtin: bool,
}

/// The definition of a union type.
#[derive(Debug, Clone, PartialEq)]
pub struct UnionTypeDefinition {
    /// The union's name.
    pub name: String,
    /// What the union is for.
    pub description: Option<String>,
    /// The names of the member types.
    pub types: Vec<String>,
}

/// The definition of one value of an enum type.
#[derive(Debug, Clone, PartialEq)]
pub struct EnumValueDefinition {
    /// The value's name.
    pub name: String,
    /// What the value stands for.
    pub description: Option<String>,
    /// Why the value should no longer be used, if it should not.
    pub deprecation_reason: Option<String>,
}

/// The `schema { ... }` block of a document: the root type of each kind of
/// operation.
#[derive(Debug, Clone)]
pub struct SchemaDefinition {
    /// What the schema is for.
    pub description: Option<String>,
    /// The root type of queries.
    pub query_type: String,
    /// The root type of mutations, if the schema has any.
    pub mutation_type: Option<String>,
    /// The root type of subscriptions, if the schema has any.
    pub subscription_type: Option<String>,
    /// The names of the directives on the block.
    pub directives: Vec<String>,
}

} // verus!
