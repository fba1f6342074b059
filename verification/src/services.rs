//! The services of a server: the validators and the executor.

use crate::query::{first_named, is_named, operations, Definition, Document, OperationDefinition};
use crate::text::chars::push_all;
use vstd::prelude::*;

verus! {

/// Validates schemas.
#[derive(Debug, Clone, Copy, PartialEq, Eq, Structural)]
pub struct SchemaValidator;

impl SchemaValidator {
    /// A schema validator.
    #[must_use]
    pub fn new() -> (validator: Self)
        ensures
            validator == SchemaValidator,
    {
        SchemaValidator
    }
}

impl Default for SchemaValidator {
    fn default() -> (validator: Self)
        ensures
            validator == SchemaValidator,
    {
        SchemaValidator::new()
    }
}

/// Validates queries against a schema.
#[derive(Debug, Clone, Copy, PartialEq, Eq, Structural)]
pub struct QueryValidator;

impl QueryValidator {
    /// A query validator.
    #[must_use]
    pub fn new() -> (validator: Self)
        ensures
            validator == QueryValidator,
    {
        QueryValidator
    }
}

impl Default for QueryValidator {
    fn default() -> (validator: Self)
        ensures
            validator == QueryValidator,
    {
        QueryValidator::new()
    }
}

/// Why no operation of a document could be chosen.
#[derive(Debug, PartialEq)]
pub enum OperationError {
    /// The document holds no operation.
    NoOperations,
    /// The document holds several operations and no name was given.
    NameRequired,
    /// The document holds several operations, none with the name given.
    NotFound(String),
}

impl OperationError {
    /// The message that the error is reported with.
    pub open spec fn spec_message(&self) -> Seq<char> {
        match self {
            OperationError::NoOperations => "No operations found in document"@,
            OperationError::NameRequired =>
                "Must provide operation name when document contains multiple operations"@,
            OperationError::NotFound(name) => "Operation '"@ + name@ + "' not found"@,
        }
    }

    /// The message that the error is reported with.
    pub fn message(&self) -> (message: String)
        ensures
            message@ == self.spec_message(),
    {
        let mut message = String::new();
        match self {
            OperationError::NoOperations => {
                push_all(&mut message, "No operations found in document");
            },
            OperationError::NameRequired => {
                push_all(
                    &mut message,
                    "Must provide operation name when document contains multiple operations",
                );
            },
            OperationError::NotFound(name) => {
                push_all(&mut message, "Operation '");
                push_all(&mut message, name.as_str());
                push_all(&mut message, "' not found");
            },
        }
        assert(message@ =~= self.spec_message());
        message
    }
}

/// Executes queries.
#[derive(Debug, Clone, Copy, PartialEq, Eq, Structural)]
pub struct QueryExecutor;

impl QueryExecutor {
    /// A query executor.
    #[must_use]
    pub fn new() -> (executor: Self)
        ensures
            executor == QueryExecutor,
    {
        QueryExecutor
    }

    /// Chooses the operation of `document` to execute. A document with one
    /// operation has that one executed, whatever name is given. Of several
    /// operations the first with the name given is chosen. It is an error
    /// if the document holds no operation, if it holds several and no name
    /// is given, or if none of several has the name given.
    pub fn find_operation<'a>(&self, document: &'a Document, operation_name: Option<&str>) -> (found:
        Result<&'a OperationDefinition, OperationError>)
        ensures
            ({
                let all = operations(document.definitions@);
                match found {
                    Ok(operation) => if all.len() == 1 {
                        *operation == all[0]
                    } else {
                        &&& all.len() > 1
                        &&& operation_name matches Some(name)
                        &&& first_named(all, name@, 0) matches Some(i)
                        &&& *operation == all[i]
                    },
                    Err(OperationError::NoOperations) => all.len() == 0,
                    Err(OperationError::NameRequired) => all.len() > 1 && operation_name is None,
                    Err(OperationError::NotFound(name)) => {
                        &&& all.len() > 1
                        &&& operation_name matches Some(asked)
                        &&& name@ == asked@
                        &&& first_named(all, asked@, 0) is None
                    },
                }
            }),
    {
        let ghost all = operations(document.definitions@);
        let mut found: Vec<&'a OperationDefinition> = Vec::new();
        let mut i: usize = 0;
        while i < document.definitions.len()
            invariant
                0 <= i <= document.definitions.len(),
                found.len() == operations(document.definitions@.take(i as int)).len(),
                forall|j: int|
                    0 <= j < found.len() ==> *(#[trigger] found@[j]) == operations(
                        document.definitions@.take(i as int),
                    )[j],
            decreases document.definitions.len() - i,
        {
            proof {
                let upto = document.definitions@.take(i + 1);
                assert(upto.drop_last() =~= document.definitions@.take(i as int));
                assert(upto.last() == document.definitions@[i as int]);
            }
            match &document.definitions[i] {
                Definition::Operation(operation) => {
                    found.push(operation);
                },
                Definition::Fragment(_) => {},
            }
            i += 1;
        }
        proof {
            assert(document.definitions@.take(i as int) =~= document.definitions@);
        }
        if found.len() == 0 {
            return Err(OperationError::NoOperations);
        }
        if found.len() == 1 {
            return Ok(found[0]);
        }
        match operation_name {
            None => Err(OperationError::NameRequired),
            Some(name) => {
                let asked = name.to_owned();
                let mut k: usize = 0;
                while k < found.len()
                    invariant
                        0 <= k <= found.len(),
                        asked@ == name@,
                        operation_name == Some(name),
                        all == operations(document.definitions@),
                        found.len() == all.len(),
                        all.len() > 1,
                        forall|j: int| 0 <= j < found.len() ==> *(#[trigger] found@[j]) == all[j],
                        first_named(all, name@, 0) == first_named(all, name@, k as int),
                    decreases found.len() - k,
                {
                    let operation = found[k];
                    let is_it = match &operation.name {
                        Some(n) => *n == asked,
                        None => false,
                    };
                    assert(is_it == is_named(all[k as int], name@));
                    if is_it {
                        assert(first_named(all, name@, k as int) == Some(k as int));
                        return Ok(operation);
                    }
                    k += 1;
                }
                Err(OperationError::NotFound(asked))
            },
        }
    }
}

impl Default for QueryExecutor {
    fn default() -> (executor: Self)
        ensures
            executor == QueryExecutor,
    {
        QueryExecutor::new()
    }
}

} // verus!
