//! The types of a schema as they refer to each other: objects, interfaces
//! and input objects with their fields, and the list and non-null wrappers.
//! Fields and arguments are kept as lists of named entries, in the order in
//! which they were given.

use crate::schema::types::{DirectiveLocation, EnumType, ScalarType, UnionType};
use crate::text::chars::push_all;
use std::collections::HashMap;
use vstd::prelude::*;

verus! {

/// A value as a schema or a query writes it.
#[derive(Debug, PartialEq)]
pub enum Value {
    /// `null`.
    Null,
    /// A whole number.
    Int(i64),
    /// A number with a fraction, held as the bits of its IEEE 754
    /// double-precision form.
    Float(u64),
    /// Text.
    String(String),
    /// `true` or `false`.
    Boolean(bool),
    /// The name of an enum value.
    Enum(String),
    /// A list of values.
    List(Vec<Value>),
    /// Values by field name.
    Object(HashMap<String, Value>),
    /// A reference to a variable.
    Variable(String),
}

/// An input field or an argument.
#[derive(Debug, PartialEq)]
pub struct InputFieldDefinition {
    /// The field's name.
    pub name: String,
    /// What the field is for.
    pub description: Option<String>,
    /// The field's type.
    pub field_type: GraphQLType,
    /// The value the field has where none is given.
    pub default_value: Option<Value>,
}

/// A field of an object or an interface.
#[derive(Debug, PartialEq)]
pub struct FieldDefinition {
    /// The field's name.
    pub name: String,
    /// What the field is for.
    pub description: Option<String>,
    /// The field's type.
    pub field_type: GraphQLType,
    /// The field's arguments, each under its name; no name stands twice.
    pub arguments: Vec<(String, InputFieldDefinition)>,
    /// Why the field should no longer be used, if it should not.
    pub deprecation_reason: Option<String>,
}

/// An object type.
#[derive(Debug, PartialEq)]
pub struct ObjectType {
    /// The type's name.
    pub name: String,
    /// What the type is for.
    pub description: Option<String>,
    /// The type's fields, each under its name; no name stands twice.
    pub fields: Vec<(String, FieldDefinition)>,
    /// The names of the interfaces that the type implements.
    pub interfaces: Vec<String>,
}

/// An interface type.
#[derive(Debug, PartialEq)]
pub struct InterfaceType {
    /// The type's name.
    pub name: String,
    /// What the type is for.
    pub description: Option<String>,
    /// The type's fields, each under its name; no name stands twice.
    pub fields: Vec<(String, FieldDefinition)>,
}

/// An input object type.
#[derive(Debug, PartialEq)]
pub struct InputObjectType {
    /// The type's name.
    pub name: String,
    /// What the type is for.
    pub description: Option<String>,
    /// The type's fields, each under its name; no name stands twice.
    pub fields: Vec<(String, InputFieldDefinition)>,
}

/// The definition of a directive.
#[derive(Debug, PartialEq)]
pub struct DirectiveDefinition {
    /// The directive's name.
    pub name: String,
    /// What the directive is for.
    pub description: Option<String>,
    /// The places where the directive may stand.
    pub locations: Vec<DirectiveLocation>,
    /// The directive's arguments, each under its name; no name stands
    /// twice.
    pub arguments: Vec<(String, InputFieldDefinition)>,
    /// Whether the directive may stand more than once in one place.
    pub is_repeatable: bool,
}

/// A type of a schema: a named type, or a list or non-null wrapper around a
/// type.
#[derive(Debug, PartialEq)]
pub enum GraphQLType {
    /// A scalar.
    Scalar(ScalarType),
    /// An object.
    Object(ObjectType),
    /// An interface.
    Interface(InterfaceType),
    /// A union.
    Union(UnionType),
    /// An enum.
    Enum(EnumType),
    /// An input object.
    InputObject(InputObjectType),
    /// A list of the inner type.
    List(Box<GraphQLType>),
    /// The inner type without `null`.
    NonNull(Box<GraphQLType>),
}

impl GraphQLType {
    /// The type under all list and non-null wrappers.
    pub open spec fn spec_inner_type(&self) -> GraphQLType
        decreases self,
    {
        match self {
            GraphQLType::List(inner) => inner.spec_inner_type(),
            GraphQLType::NonNull(inner) => inner.spec_inner_type(),
            _ => *self,
        }
    }

    /// The name of a type that is no wrapper.
    pub open spec fn own_name(&self) -> Option<Seq<char>> {
        match self {
            GraphQLType::Scalar(scalar) => Some(scalar.spec_name()),
            GraphQLType::Object(object) => Some(object.name@),
            GraphQLType::Interface(interface) => Some(interface.name@),
            GraphQLType::Union(union_type) => Some(union_type.name@),
            GraphQLType::Enum(enum_type) => Some(enum_type.name@),
            GraphQLType::InputObject(input) => Some(input.name@),
            GraphQLType::List(_) => None,
            GraphQLType::NonNull(_) => None,
        }
    }

    /// Whether values of the type can be given as input: scalars, enums and
    /// input objects, and wrappers around them.
    pub open spec fn spec_is_input_type(&self) -> bool {
        let inner = self.spec_inner_type();
        inner is Scalar || inner is Enum || inner is InputObject
    }

    /// Whether values of the type can be given as output: every type but
    /// input objects and wrappers around them.
    pub open spec fn spec_is_output_type(&self) -> bool {
        !(self.spec_inner_type() is InputObject)
    }

    /// The type as a schema writes it: the name, `[` and `]` around a list's
    /// inner type, `!` after a non-null type's inner type.
    pub open spec fn written(&self) -> Seq<char>
        decreases self,
    {
        match self {
            GraphQLType::List(inner) => seq!['['] + inner.written() + seq![']'],
            GraphQLType::NonNull(inner) => inner.written() + seq!['!'],
            _ => self.own_name().unwrap(),
        }
    }

    /// The innermost type is no wrapper, and its own innermost type.
    pub proof fn lemma_inner_type_is_named(&self)
        ensures
            !(self.spec_inner_type() is List),
            !(self.spec_inner_type() is NonNull),
            self.spec_inner_type().spec_inner_type() == self.spec_inner_type(),
            self.spec_inner_type().own_name() is Some,
        decreases self,
    {
        match self {
            GraphQLType::List(inner) => inner.lemma_inner_type_is_named(),
            GraphQLType::NonNull(inner) => inner.lemma_inner_type_is_named(),
            _ => {},
        }
    }

    /// Tells whether the type admits `null`: every type does but a non-null
    /// wrapper.
    #[must_use]
    pub fn is_nullable(&self) -> (nullable: bool)
        ensures
            nullable == !(*self is NonNull),
    {
        match self {
            GraphQLType::NonNull(_) => false,
            _ => true,
        }
    }

    /// The type under all list and non-null wrappers.
    #[must_use]
    pub fn inner_type(&self) -> (inner: &GraphQLType)
        ensures
            *inner == self.spec_inner_type(),
        decreases self,
    {
        match self {
            GraphQLType::List(inner) => inner.inner_type(),
            GraphQLType::NonNull(inner) => inner.inner_type(),
            _ => self,
        }
    }

    /// The name of the innermost type.
    #[must_use]
    pub fn name(&self) -> (name: Option<&str>)
        ensures
            name matches Some(text) && Some(text@) == self.spec_inner_type().own_name(),
    {
        proof {
            self.lemma_inner_type_is_named();
        }
        match self.inner_type() {
            GraphQLType::Scalar(scalar) => Some(scalar.name()),
            GraphQLType::Object(object) => Some(object.name.as_str()),
            GraphQLType::Interface(interface) => Some(interface.name.as_str()),
            GraphQLType::Union(union_type) => Some(union_type.name.as_str()),
            GraphQLType::Enum(enum_type) => Some(enum_type.name.as_str()),
            GraphQLType::InputObject(input) => Some(input.name.as_str()),
            _ => None,
        }
    }

    /// Tells whether the innermost type is an object, an interface or a
    /// union.
    #[must_use]
    pub fn is_composite(&self) -> (composite: bool)
        ensures
            composite == (self.spec_inner_type() is Object || self.spec_inner_type() is Interface
                || self.spec_inner_type() is Union),
    {
        match self.inner_type() {
            GraphQLType::Object(_) => true,
            GraphQLType::Interface(_) => true,
            GraphQLType::Union(_) => true,
            _ => false,
        }
    }

    /// Tells whether the innermost type is a scalar or an enum.
    #[must_use]
    pub fn is_leaf(&self) -> (leaf: bool)
        ensures
            leaf == (self.spec_inner_type() is Scalar || self.spec_inner_type() is Enum),
    {
        match self.inner_type() {
            GraphQLType::Scalar(_) => true,
            GraphQLType::Enum(_) => true,
            _ => false,
        }
    }

    /// Tells whether values of the type can be given as input.
    #[must_use]
    pub fn is_input_type(&self) -> (input: bool)
        ensures
            input == self.spec_is_input_type(),
        decreases self,
    {
        match self {
            GraphQLType::List(inner) => inner.is_input_type(),
            GraphQLType::NonNull(inner) => inner.is_input_type(),
            GraphQLType::Scalar(_) => true,
            GraphQLType::Enum(_) => true,
            GraphQLType::InputObject(_) => true,
            _ => false,
        }
    }

    /// Tells whether values of the type can be given as output.
    #[must_use]
    pub fn is_output_type(&self) -> (output: bool)
        ensures
            output == self.spec_is_output_type(),
        decreases self,
    {
        match self {
            GraphQLType::List(inner) => inner.is_output_type(),
            GraphQLType::NonNull(inner) => inner.is_output_type(),
            GraphQLType::InputObject(_) => false,
            _ => true,
        }
    }

    /// Appends the type, as a schema writes it, to `text`.
    fn write_to(&self, text: &mut String)
        ensures
            final(text)@ == old(text)@ + self.written(),
        decreases self,
    {
        let ghost before = text@;
        match self {
            GraphQLType::Scalar(scalar) => push_all(text, scalar.name()),
            GraphQLType::Object(object) => push_all(text, object.name.as_str()),
            GraphQLType::Interface(interface) => push_all(text, interface.name.as_str()),
            GraphQLType::Union(union_type) => push_all(text, union_type.name.as_str()),
            GraphQLType::Enum(enum_type) => push_all(text, enum_type.name.as_str()),
            GraphQLType::InputObject(input) => push_all(text, input.name.as_str()),
            GraphQLType::List(inner) => {
                text.push('[');
                inner.write_to(text);
                text.push(']');
                assert(text@ =~= before + (seq!['['] + inner.written() + seq![']']));
            },
            GraphQLType::NonNull(inner) => {
                inner.write_to(text);
                text.push('!');
                assert(text@ =~= before + (inner.written() + seq!['!']));
            },
        }
    }

    /// The type as a schema writes it.
    pub fn to_string(&self) -> (text: String)
        ensures
            text@ == self.written(),
    {
        let mut text = String::new();
        self.write_to(&mut text);
        assert(Seq::<char>::empty() + self.written() =~= self.written());
        text
    }
}

} // verus!
