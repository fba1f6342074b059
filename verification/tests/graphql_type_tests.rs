use graphql_rs::schema::graph::{GraphQLType, InputObjectType, InterfaceType, ObjectType};
use graphql_rs::schema::types::{EnumType, ScalarType, UnionType};

fn user_object() -> GraphQLType {
    GraphQLType::Object(ObjectType {
        name: "User".to_string(),
        description: None,
        fields: Vec::new(),
        interfaces: vec![],
    })
}

fn user_input() -> GraphQLType {
    GraphQLType::InputObject(InputObjectType {
        name: "UserInput".to_string(),
        description: None,
        fields: Vec::new(),
    })
}

fn list_of(inner: GraphQLType) -> GraphQLType {
    GraphQLType::List(Box::new(inner))
}

fn non_null(inner: GraphQLType) -> GraphQLType {
    GraphQLType::NonNull(Box::new(inner))
}

#[test]
fn graphql_type_nullable() {
    let nullable_int = GraphQLType::Scalar(ScalarType::Int);
    let non_null_int = GraphQLType::NonNull(Box::new(GraphQLType::Scalar(ScalarType::Int)));

    assert!(nullable_int.is_nullable());
    assert!(!non_null_int.is_nullable());
}

#[test]
fn graphql_type_inner_type() {
    let base_type = GraphQLType::Scalar(ScalarType::String);
    let list_type = GraphQLType::List(Box::new(GraphQLType::Scalar(ScalarType::String)));
    let non_null_list = GraphQLType::NonNull(Box::new(list_type));

    assert_eq!(non_null_list.inner_type(), &base_type);
}

#[test]
fn graphql_type_is_leaf() {
    let scalar = GraphQLType::Scalar(ScalarType::Int);
    let enum_type = GraphQLType::Enum(EnumType {
        name: "Color".to_string(),
        description: None,
        values: Vec::new(),
    });
    let object = GraphQLType::Object(ObjectType {
        name: "User".to_string(),
        description: None,
        fields: Vec::new(),
        interfaces: vec![],
    });

    assert!(scalar.is_leaf());
    assert!(enum_type.is_leaf());
    assert!(!object.is_leaf());
}

#[test]
fn graphql_type_is_input_output() {
    let scalar = GraphQLType::Scalar(ScalarType::String);
    let object = GraphQLType::Object(ObjectType {
        name: "User".to_string(),
        description: None,
        fields: Vec::new(),
        interfaces: vec![],
    });
    let input_object = GraphQLType::InputObject(InputObjectType {
        name: "UserInput".to_string(),
        description: None,
        fields: Vec::new(),
    });

    assert!(scalar.is_input_type());
    assert!(scalar.is_output_type());

    assert!(!object.is_input_type());
    assert!(object.is_output_type());

    assert!(input_object.is_input_type());
    assert!(!input_object.is_output_type());
}

#[test]
fn graphql_type_display() {
    let scalar = GraphQLType::Scalar(ScalarType::String);
    let list = GraphQLType::List(Box::new(GraphQLType::Scalar(ScalarType::String)));
    let non_null_list = GraphQLType::NonNull(Box::new(list));

    assert_eq!(scalar.to_string(), "String");
    assert_eq!(non_null_list.to_string(), "[String]!");
}

#[test]
fn graphql_type_written_forms() {
    assert_eq!(user_object().to_string(), "User");
    assert_eq!(non_null(user_object()).to_string(), "User!");
    assert_eq!(list_of(non_null(user_object())).to_string(), "[User!]");
    assert_eq!(non_null(list_of(non_null(user_object()))).to_string(), "[User!]!");
    assert_eq!(list_of(list_of(user_input())).to_string(), "[[UserInput]]");
    assert_eq!(
        GraphQLType::Scalar(ScalarType::Custom("DateTime".to_string())).to_string(),
        "DateTime"
    );
}

#[test]
fn graphql_type_name_is_that_of_the_innermost_type() {
    assert_eq!(user_object().name(), Some("User"));
    assert_eq!(non_null(list_of(non_null(user_object()))).name(), Some("User"));
    assert_eq!(list_of(GraphQLType::Scalar(ScalarType::ID)).name(), Some("ID"));
    let interface = GraphQLType::Interface(InterfaceType {
        name: "Node".to_string(),
        description: Some("Anything with an id".to_string()),
        fields: Vec::new(),
    });
    assert_eq!(interface.name(), Some("Node"));
    let union_type = GraphQLType::Union(UnionType {
        name: "SearchResult".to_string(),
        description: None,
        types: vec!["User".to_string(), "Post".to_string()],
    });
    assert_eq!(non_null(union_type).name(), Some("SearchResult"));
}

#[test]
fn graphql_type_inner_type_of_a_named_type_is_itself() {
    let user = user_object();
    assert_eq!(user.inner_type(), &user_object());
    let wrapped = list_of(list_of(non_null(user_input())));
    assert_eq!(wrapped.inner_type(), &user_input());
}

#[test]
fn graphql_type_composite_and_leaf_look_through_wrappers() {
    assert!(user_object().is_composite());
    assert!(non_null(list_of(user_object())).is_composite());
    assert!(!user_input().is_composite());
    assert!(!GraphQLType::Scalar(ScalarType::Int).is_composite());
    assert!(list_of(GraphQLType::Scalar(ScalarType::Int)).is_leaf());
    assert!(!list_of(user_object()).is_leaf());
    assert!(!user_input().is_leaf());
}

#[test]
fn graphql_type_input_and_output_look_through_wrappers() {
    assert!(non_null(list_of(user_input())).is_input_type());
    assert!(!non_null(list_of(user_input())).is_output_type());
    assert!(!list_of(user_object()).is_input_type());
    assert!(list_of(user_object()).is_output_type());
    // Only the outermost wrapper decides whether `null` is admitted.
    assert!(list_of(non_null(user_object())).is_nullable());
    assert!(!non_null(list_of(user_object())).is_nullable());
}
