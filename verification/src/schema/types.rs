//! Scalars, unions, enums and the places where a directive may stand.

use vstd::prelude::*;

verus! {

/// A scalar type: one of the five that GraphQL builds in, or a custom one
/// known by its name.
#[derive(Debug, Clone, PartialEq, Eq)]
pub enum ScalarType {
    /// Signed 32-bit integer.
    Int,
    /// Double-precision number.
    Float,
    /// Text.
    String,
    /// `true` or `false`.
    Boolean,
    /// An opaque identifier.
    ID,
    /// A scalar that the schema defines itself.
    Custom(String),
}

impl ScalarType {
    /// The scalar's name as it is written in a schema.
    pub open spec fn spec_name(&self) -> Seq<char> {
        match self {
            ScalarType::Int => "Int"@,
            ScalarType::Float => "Float"@,
            ScalarType::String => "String"@,
            ScalarType::Boolean => "Boolean"@,
            ScalarType::ID => "ID"@,
            ScalarType::Custom(name) => name@,
        }
    }

    /// The scalar's name as it is written in a schema.
    #[must_use]
    pub fn name(&self) -> (name: &str)
        ensures
            name@ == self.spec_name(),
    {
        match self {
            ScalarType::Int => "Int",
            ScalarType::Float => "Float",
            ScalarType::String => "String",
            ScalarType::Boolean => "Boolean",
            ScalarType::ID => "ID",
            ScalarType::Custom(name) => name.as_str(),
        }
    }

    /// Tells whether the scalar is one that GraphQL builds in.
    #[must_use]
    pub fn is_builtin(&self) -> (builtin: bool)
        ensures
            builtin == !(self is Custom),
    {
        match self {
            ScalarType::Custom(_) => false,
            _ => true,
        }
    }
}

/// A union of object types.
#[derive(Debug, Clone, PartialEq)]
pub struct UnionType {
    /// The union's name.
    pub name: String,
    /// What the union is for.
    pub description: Option<String>,
    /// The names of the member types.
    pub types: Vec<String>,
}

/// One value of an enum type.
#[derive(Debug, Clone, PartialEq, Eq)]
pub struct EnumValue {
    /// What the value stands for.
    pub description: Option<String>,
    /// Why the value should no longer be used, if it should not.
    pub deprecation_reason: Option<String>,
}

/// An enum type.
#[derive(Debug, Clone, PartialEq)]
pub struct EnumType {
    /// The enum's name.
    pub name: String,
    /// What the enum is for.
    pub description: Option<String>,
    /// The enum's values, each under its name; no name stands twice.
    pub values: Vec<(String, EnumValue)>,
}

/// A place where a directive may stand.
#[derive(Debug, Clone, Copy, PartialEq, Eq, Structural)]
pub enum DirectiveLocation {
    /// On a query operation.
    Query,
    /// On a mutation operation.
    Mutation,
    /// On a subscription operation.
    Subscription,
    /// On a field selection.
    Field,
    /// On a fragment definition.
    FragmentDefinition,
    /// On a fragment spread.
    FragmentSpread,
    /// On an inline fragment.
    InlineFragment,
    /// On a variable definition.
    VariableDefinition,
    /// On the schema definition.
    Schema,
    /// On a scalar type.
    Scalar,
    /// On an object type.
    Object,
    /// On a field definition.
    FieldDefinition,
    /// On an argument definition.
    ArgumentDefinition,
    /// On an interface type.
    Interface,
    /// On a union type.
    Union,
    /// On an enum type.
    Enum,
    /// On an enum value.
    EnumValue,
    /// On an input object type.
    InputObject,
    /// On an input field definition.
    InputFieldDefinition,
}

impl DirectiveLocation {
    /// The place's name, as it is written in the list above.
    pub open spec fn spec_name(&self) -> Seq<char> {
        match self {
            DirectiveLocation::Query => "Query"@,
            DirectiveLocation::Mutation => "Mutation"@,
            DirectiveLocation::Subscription => "Subscription"@,
            DirectiveLocation::Field => "Field"@,
            DirectiveLocation::FragmentDefinition => "FragmentDefinition"@,
            DirectiveLocation::FragmentSpread => "FragmentSpread"@,
            DirectiveLocation::InlineFragment => "InlineFragment"@,
            DirectiveLocation::VariableDefinition => "VariableDefinition"@,
            DirectiveLocation::Schema => "Schema"@,
            DirectiveLocation::Scalar => "Scalar"@,
            DirectiveLocation::Object => "Object"@,
            DirectiveLocation::FieldDefinition => "FieldDefinition"@,
            DirectiveLocation::ArgumentDefinition => "ArgumentDefinition"@,
            DirectiveLocation::Interface => "Interface"@,
            DirectiveLocation::Union => "Union"@,
            DirectiveLocation::Enum => "Enum"@,
            DirectiveLocation::EnumValue => "EnumValue"@,
            DirectiveLocation::InputObject => "InputObject"@,
            DirectiveLocation::InputFieldDefinition => "InputFieldDefinition"@,
        }
    }

    /// The place's name.
    pub fn name(&self) -> (name: &'static str)
        ensures
            name@ == self.spec_name(),
    {
        match self {
            DirectiveLocation::Query => "Query",
            DirectiveLocation::Mutation => "Mutation",
            DirectiveLocation::Subscription => "Subscription",
            DirectiveLocation::Field => "Field",
            DirectiveLocation::FragmentDefinition => "FragmentDefinition",
            DirectiveLocation::FragmentSpread => "FragmentSpread",
            DirectiveLocation::InlineFragment => "InlineFragment",
            DirectiveLocation::VariableDefinition => "VariableDefinition",
            DirectiveLocation::Schema => "Schema",
            DirectiveLocation::Scalar => "Scalar",
            DirectiveLocation::Object => "Object",
            DirectiveLocation::FieldDefinition => "FieldDefinition",
            DirectiveLocation::ArgumentDefinition => "ArgumentDefinition",
            DirectiveLocation::Interface => "Interface",
            DirectiveLocation::Union => "Union",
            DirectiveLocation::Enum => "Enum",
            DirectiveLocation::EnumValue => "EnumValue",
            DirectiveLocation::InputObject => "InputObject",
            DirectiveLocation::InputFieldDefinition => "InputFieldDefinition",
        }
    }
}

} // verus!
