//! Query documents: operations and fragments with their selections, as a
//! parser hands them on.

use std::collections::HashMap;
use vstd::prelude::*;

verus! {

/// A reference to a type as a query writes it, for the type of a variable.
#[derive(Debug, PartialEq)]
pub enum TypeRef {
    /// A type by its name.
    Named(String),
    /// A list of the inner type.
    List(Box<TypeRef>),
    /// The inner type without `null`.
    NonNull(Box<TypeRef>),
}

impl Clone for TypeRef {
    fn clone(&self) -> (copy: Self)
        ensures
            copy == *self,
        decreases self,
    {
        match self {
            TypeRef::Named(name) => TypeRef::Named(name.clone()),
            TypeRef::List(inner) => TypeRef::List(Box::new((**inner).clone())),
            TypeRef::NonNull(inner) => TypeRef::NonNull(Box::new((**inner).clone())),
        }
    }
}

/// The kind of an operation.
#[derive(Debug, Clone, Copy, PartialEq, Eq, Structural)]
pub enum OperationType {
    /// Reads data.
    Query,
    /// Changes data.
    Mutation,
    /// Follows data as it changes.
    Subscription,
}

/// A value as a query writes it.
#[derive(Debug, PartialEq)]
pub enum Value {
    /// A reference to a variable.
    Variable(String),
    /// A whole number.
    Int(i32),
    /// A number with a fraction, held as the bits of its IEEE 754
    /// double-precision form.
    Float(u64),
    /// Text.
    String(String),
    /// `true` or `false`.
    Boolean(bool),
    /// `null`.
    Null,
    /// The name of an enum value.
    Enum(String),
    /// A list of values.
    List(Vec<Value>),
    /// Values by field name.
    Object(HashMap<String, Value>),
}

/// An argument of a field or a directive.
#[derive(Debug, PartialEq)]
pub struct Argument {
    /// The argument's name.
    pub name: String,
    /// The argument's value.
    pub value: Value,
}

/// A directive where it is applied.
#[derive(Debug, PartialEq)]
pub struct Directive {
    /// The directive's name.
    pub name: String,
    /// The arguments given to it.
    pub arguments: Vec<Argument>,
}

/// A variable that an operation declares.
#[derive(Debug, PartialEq)]
pub struct VariableDefinition {
    /// The variable's name.
    pub variable: String,
    /// The variable's type.
    pub type_: TypeRef,
    /// The value the variable has where none is given.
    pub default_value: Option<Value>,
    /// The directives on the variable.
    pub directives: Vec<Directive>,
}

/// The selections between one pair of braces.
#[derive(Debug, PartialEq)]
pub struct SelectionSet {
    /// The selections, in the order written.
    pub selections: Vec<Selection>,
}

/// One selection.
#[derive(Debug, PartialEq)]
pub enum Selection {
    /// A field.
    Field(Field),
    /// A fragment written in place.
    InlineFragment(InlineFragment),
    /// A fragment referred to by name.
    FragmentSpread(FragmentSpread),
}

/// The selection of a field.
#[derive(Debug, PartialEq)]
pub struct Field {
    /// The name under which the field is to appear in the response.
    pub alias: Option<String>,
    /// The field's name.
    pub name: String,
    /// The arguments given to the field.
    pub arguments: Vec<Argument>,
    /// The directives on the field.
    pub directives: Vec<Directive>,
    /// What is selected of the field's value.
    pub selection_set: Option<SelectionSet>,
}

/// A fragment written in place.
#[derive(Debug, PartialEq)]
pub struct InlineFragment {
    /// The type to which the fragment applies.
    pub type_condition: Option<String>,
    /// The directives on the fragment.
    pub directives: Vec<Directive>,
    /// What the fragment selects.
    pub selection_set: SelectionSet,
}

/// A reference to a named fragment.
#[derive(Debug, PartialEq)]
pub struct FragmentSpread {
    /// The fragment's name.
    pub name: String,
    /// The directives on the reference.
    pub directives: Vec<Directive>,
}

/// The definition of a named fragment.
#[derive(Debug, PartialEq)]
pub struct FragmentDefinition {
    /// The fragment's name.
    pub name: String,
    /// The type to which the fragment applies.
    pub type_condition: String,
    /// The directives on the fragment.
    pub directives: Vec<Directive>,
    /// What the fragment selects.
    pub selection_set: SelectionSet,
}

/// The definition of an operation.
#[derive(Debug, PartialEq)]
pub struct OperationDefinition {
    /// The kind of the operation.
    pub operation_type: OperationType,
    /// The operation's name, if it has one.
    pub name: Option<String>,
    /// The variables the operation declares.
    pub variable_definitions: Vec<VariableDefinition>,
    /// The directives on the operation.
    pub directives: Vec<Directive>,
    /// What the operation selects.
    pub selection_set: SelectionSet,
}

/// One definition of a document.
#[derive(Debug, PartialEq)]
pub enum Definition {
    /// An operation.
    Operation(OperationDefinition),
    /// A named fragment.
    Fragment(FragmentDefinition),
}

/// A query document.
#[derive(Debug, PartialEq)]
pub struct Document {
    /// The definitions, in the order written.
    pub definitions: Vec<Definition>,
}

/// The operations among `definitions`, in their order.
pub open spec fn operations(definitions: Seq<Definition>) -> Seq<OperationDefinition>
    decreases definitions.len(),
{
    if definitions.len() == 0 {
        Seq::empty()
    } else {
        let before = operations(definitions.drop_last());
        match definitions.last() {
            Definition::Operation(operation) => before.push(operation),
            Definition::Fragment(_) => before,
        }
    }
}

/// Whether `operation` has the name `name`.
pub open spec fn is_named(operation: OperationDefinition, name: Seq<char>) -> bool {
    operation.name matches Some(n) && n@ == name
}

/// The place of the first of `operations`, from place `from` on, that has
/// the name `name`.
pub open spec fn first_named(
    operations: Seq<OperationDefinition>,
    name: Seq<char>,
    from: int,
) -> Option<int>
    decreases operations.len() - from,
{
    if from < 0 || from >= operations.len() {
        None
    } else if is_named(operations[from], name) {
        Some(from)
    } else {
        first_named(operations, name, from + 1)
    }
}

} // verus!
