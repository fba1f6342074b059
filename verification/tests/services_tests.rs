use graphql_rs::query::{
    Definition, Document, Field, FragmentDefinition, OperationDefinition, OperationType, Selection,
    SelectionSet,
};
use graphql_rs::server::{GraphQLHandler, HttpServer, PersistenceLayer, RestHandler};
use graphql_rs::services::{OperationError, QueryExecutor, QueryValidator, SchemaValidator};

fn selecting(field: &str) -> SelectionSet {
    SelectionSet {
        selections: vec![Selection::Field(Field {
            alias: None,
            name: field.to_string(),
            arguments: vec![],
            directives: vec![],
            selection_set: None,
        })],
    }
}

fn operation(kind: OperationType, name: Option<&str>, field: &str) -> Definition {
    Definition::Operation(OperationDefinition {
        operation_type: kind,
        name: name.map(|n| n.to_string()),
        variable_definitions: vec![],
        directives: vec![],
        selection_set: selecting(field),
    })
}

fn fragment(name: &str) -> Definition {
    Definition::Fragment(FragmentDefinition {
        name: name.to_string(),
        type_condition: "User".to_string(),
        directives: vec![],
        selection_set: selecting("id"),
    })
}

fn first_field(operation: &OperationDefinition) -> &str {
    match &operation.selection_set.selections[0] {
        Selection::Field(field) => &field.name,
        _ => panic!("a field is selected"),
    }
}

#[test]
fn document_without_operations_has_none_to_execute() {
    let executor = QueryExecutor::new();
    let empty = Document { definitions: vec![] };
    assert_eq!(executor.find_operation(&empty, None), Err(OperationError::NoOperations));
    let fragments = Document { definitions: vec![fragment("a"), fragment("b")] };
    assert_eq!(executor.find_operation(&fragments, Some("a")), Err(OperationError::NoOperations));
    assert_eq!(OperationError::NoOperations.message(), "No operations found in document");
}

#[test]
fn single_operation_is_chosen_whatever_the_name() {
    let executor = QueryExecutor::new();
    let document = Document {
        definitions: vec![fragment("f"), operation(OperationType::Query, Some("GetUser"), "user")],
    };
    assert_eq!(first_field(executor.find_operation(&document, None).unwrap()), "user");
    assert_eq!(first_field(executor.find_operation(&document, Some("GetUser")).unwrap()), "user");
    assert_eq!(first_field(executor.find_operation(&document, Some("Other")).unwrap()), "user");
    let anonymous = Document { definitions: vec![operation(OperationType::Query, None, "me")] };
    assert_eq!(first_field(executor.find_operation(&anonymous, Some("x")).unwrap()), "me");
}

#[test]
fn several_operations_need_a_name() {
    let executor = QueryExecutor::default();
    let document = Document {
        definitions: vec![
            operation(OperationType::Query, Some("A"), "a"),
            fragment("A"),
            operation(OperationType::Mutation, Some("B"), "b"),
            operation(OperationType::Query, None, "anonymous"),
            operation(OperationType::Subscription, Some("B"), "second b"),
        ],
    };
    assert_eq!(executor.find_operation(&document, None), Err(OperationError::NameRequired));
    assert_eq!(first_field(executor.find_operation(&document, Some("A")).unwrap()), "a");
    // Of two operations with one name the first is chosen.
    let b = executor.find_operation(&document, Some("B")).unwrap();
    assert_eq!(first_field(b), "b");
    assert_eq!(b.operation_type, OperationType::Mutation);
    assert_eq!(
        executor.find_operation(&document, Some("C")),
        Err(OperationError::NotFound("C".to_string()))
    );
    assert_eq!(
        executor.find_operation(&document, Some("")),
        Err(OperationError::NotFound(String::new()))
    );
    assert_eq!(
        OperationError::NameRequired.message(),
        "Must provide operation name when document contains multiple operations"
    );
    assert_eq!(
        OperationError::NotFound("GetUser".to_string()).message(),
        "Operation 'GetUser' not found"
    );
}

#[test]
fn services_and_server_parts_are_made() {
    assert_eq!(SchemaValidator::new(), SchemaValidator::default());
    assert_eq!(QueryValidator::new(), QueryValidator::default());
    assert_eq!(QueryExecutor::new(), QueryExecutor::default());
    assert_eq!(HttpServer::new(), HttpServer::default());
    assert_eq!(PersistenceLayer::new(), PersistenceLayer::default());
    assert_eq!(GraphQLHandler::new(), GraphQLHandler::default());
    assert_eq!(RestHandler::new(), RestHandler::default());
}
