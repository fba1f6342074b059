//! Where in a document something went wrong, and what went wrong while a
//! document was read.

use vstd::prelude::*;
use vstd::std_specs::convert::FromSpecImpl;

verus! {

/// A place in a document, counted from one.
#[derive(Debug, Clone, Copy, PartialEq, Eq, Structural)]
pub struct SourceLocation {
    /// The line.
    pub line: u32,
    /// The column within the line.
    pub column: u32,
}

/// One step of the path from the root of a response to a value in it.
#[derive(Debug, Clone, PartialEq)]
pub enum PathSegment {
    /// Into the field of this name.
    Field(String),
    /// Into the list item at this index.
    Index(u32),
}

/// What went wrong while a document was split into tokens.
#[derive(Debug, Clone, PartialEq)]
pub enum LexError {
    /// A token other than the expected one was found.
    UnexpectedToken {
        /// What was expected.
        expected: String,
        /// What was found.
        found: String,
        /// Where in the input.
        position: usize,
    },
    /// The input ended where a token was expected.
    UnexpectedEof {
        /// What was expected.
        expected: String,
    },
    /// The input holds something that is no token.
    InvalidToken {
        /// Where in the input.
        position: usize,
    },
}

/// What went wrong while a schema document was parsed.
#[derive(Debug, Clone, PartialEq)]
pub enum ParseError {
    /// The document could not be split into tokens.
    LexError(LexError),
    /// A token other than the expected one was found.
    UnexpectedToken {
        /// What was expected.
        expected: String,
        /// What was found.
        found: String,
        /// Where in the input.
        position: usize,
    },
    /// The input ended where a token was expected.
    UnexpectedEof {
        /// What was expected.
        expected: String,
    },
    /// The tokens do not form a definition.
    InvalidSyntax {
        /// Where in the input.
        position: usize,
        /// What is wrong there.
        message: String,
    },
    /// A name is defined twice.
    DuplicateDefinition {
        /// The name.
        name: String,
    },
    /// A type is referred to that cannot be.
    InvalidTypeReference {
        /// The type's name.
        target: String,
    },
}

impl From<LexError> for ParseError {
    fn from(error: LexError) -> (wrapped: ParseError) {
        ParseError::LexError(error)
    }
}

impl FromSpecImpl<LexError> for ParseError {
    open spec fn obeys_from_spec() -> bool {
        true
    }

    open spec fn from_spec(error: LexError) -> ParseError {
        ParseError::LexError(error)
    }
}

/// What went wrong while a query document was parsed.
#[derive(Debug, Clone, PartialEq)]
pub enum QueryParseError {
    /// A token other than the expected one was found.
    UnexpectedToken {
        /// What was expected.
        expected: String,
        /// What was found.
        found: String,
        /// Where in the input.
        position: usize,
    },
    /// The input ended where a token was expected.
    UnexpectedEof {
        /// What was expected.
        expected: String,
    },
    /// The tokens do not form a query.
    InvalidSyntax {
        /// Where in the input.
        position: usize,
        /// What is wrong there.
        message: String,
    },
}

/// What is wrong with a schema.
#[derive(Debug, Clone, PartialEq)]
pub enum SchemaError {
    /// A type is named that the schema does not define.
    TypeNotFound(String),
    /// The schema names no query root type.
    QueryTypeRequired,
    /// A root type is not an object type.
    InvalidRootType(String),
    /// A type refers to itself in a way that cannot be resolved.
    CircularReference(String),
    /// A type does not implement an interface as it claims.
    InvalidInterfaceImplementation {
        /// The interface.
        interface: String,
        /// The type that claims to implement it.
        implementor: String,
        /// What is missing or wrong.
        reason: String,
    },
    /// A union has a member that it cannot have.
    InvalidUnionMember {
        /// The union.
        union: String,
        /// The member.
        member: String,
        /// Why it cannot be one.
        reason: String,
    },
    /// A field has a type that it cannot have.
    InvalidFieldType {
        /// The type that holds the field.
        parent_type: String,
        /// The field.
        field: String,
        /// Why the field's type is refused.
        reason: String,
    },
    /// An argument has a type that it cannot have.
    InvalidArgumentType {
        /// The type that holds the field.
        parent_type: String,
        /// The field.
        field: String,
        /// The argument.
        argument: String,
        /// Why the argument's type is refused.
        reason: String,
    },
    /// A directive is used that the schema does not define.
    DirectiveNotFound(String),
    /// A type is defined twice.
    DuplicateType(String),
    /// A directive is defined twice.
    DuplicateDirective(String),
}

} // verus!
