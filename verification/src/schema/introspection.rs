//! What a schema tells about itself: each type, field and directive in the
//! plain form in which it is reported.

use crate::schema::graph::{DirectiveDefinition, FieldDefinition, GraphQLType};
use vstd::prelude::*;

verus! {

/// The text of an optional string.
pub open spec fn opt_text(text: Option<String>) -> Option<Seq<char>> {
    match text {
        Some(t) => Some(t@),
        None => None,
    }
}

/// The texts of a list of strings.
pub open spec fn texts(list: Seq<String>) -> Seq<Seq<char>> {
    list.map_values(|t: String| t@)
}

/// The names of a list of named entries, in the list's order.
pub open spec fn names_of<T>(entries: Seq<(String, T)>) -> Seq<Seq<char>> {
    entries.map_values(|e: (String, T)| e.0@)
}

/// A copy of an optional string.
fn copy_opt(text: &Option<String>) -> (copy: Option<String>)
    ensures
        opt_text(copy) == opt_text(*text),
{
    match text {
        Some(t) => Some(t.clone()),
        None => None,
    }
}

/// A copy of a list of strings.
fn copy_texts(list: &Vec<String>) -> (copy: Vec<String>)
    ensures
        texts(copy@) == texts(list@),
{
    let mut copy: Vec<String> = Vec::new();
    let mut i: usize = 0;
    while i < list.len()
        invariant
            0 <= i <= list.len(),
            texts(copy@) == texts(list@.take(i as int)),
        decreases list.len() - i,
    {
        let ghost before = copy@;
        let item = list[i].clone();
        copy.push(item);
        assert(texts(before) == texts(list@.take(i as int)));
        assert(texts(copy@) =~= texts(before).push(item@));
        assert(texts(list@.take(i + 1)) =~= texts(list@.take(i as int)).push(list@[i as int]@));
        i += 1;
    }
    assert(list@.take(i as int) =~= list@);
    copy
}

/// The names of a list of named entries.
fn entry_names<T>(entries: &Vec<(String, T)>) -> (names: Vec<String>)
    ensures
        texts(names@) == names_of(entries@),
{
    let mut names: Vec<String> = Vec::new();
    let mut i: usize = 0;
    while i < entries.len()
        invariant
            0 <= i <= entries.len(),
            texts(names@) == names_of(entries@.take(i as int)),
        decreases entries.len() - i,
    {
        let ghost before = names@;
        let name = entries[i].0.clone();
        names.push(name);
        assert(texts(before) == names_of(entries@.take(i as int)));
        assert(texts(names@) =~= texts(before).push(name@));
        assert(names_of(entries@.take(i + 1)) =~= names_of(entries@.take(i as int)).push(
            entries@[i as int].0@,
        ));
        i += 1;
    }
    assert(entries@.take(i as int) =~= entries@);
    names
}

/// A field as a schema reports it.
#[derive(Debug, Clone)]
pub struct FieldInfo {
    /// The field's name.
    pub name: String,
    /// The field's type as a schema writes it.
    pub written_type: String,
    /// What the field is for.
    pub description: Option<String>,
    /// Whether the field should no longer be used.
    pub is_deprecated: bool,
    /// Why the field should no longer be used, if it should not.
    pub deprecation_reason: Option<String>,
    /// The names of the field's arguments.
    pub arguments: Vec<String>,
}

impl FieldInfo {
    /// `self` reports the field `field` under the name `name`: the type as
    /// it is written, the description, the deprecation and the names of the
    /// arguments in their order.
    pub open spec fn reports(&self, name: Seq<char>, field: FieldDefinition) -> bool {
        &&& self.name@ == name
        &&& self.written_type@ == field.field_type.written()
        &&& opt_text(self.description) == opt_text(field.description)
        &&& self.is_deprecated == (field.deprecation_reason is Some)
        &&& opt_text(self.deprecation_reason) == opt_text(field.deprecation_reason)
        &&& texts(self.arguments@) == names_of(field.arguments@)
    }

    /// Reports a field under a name.
    pub fn from_field_definition(name: &str, field: &FieldDefinition) -> (info: Self)
        ensures
            info.reports(name@, *field),
    {
        FieldInfo {
            name: name.to_owned(),
            written_type: field.field_type.to_string(),
            description: copy_opt(&field.description),
            is_deprecated: field.deprecation_reason.is_some(),
            deprecation_reason: copy_opt(&field.deprecation_reason),
            arguments: entry_names(&field.arguments),
        }
    }
}

/// The fields of a type as they are reported: one report per field, in the
/// fields' order, each under the name that the field stands under.
pub open spec fn reports_fields(infos: Seq<FieldInfo>, fields: Seq<(String, FieldDefinition)>) -> bool {
    &&& infos.len() == fields.len()
    &&& forall|i: int|
        0 <= i < fields.len() ==> (#[trigger] infos[i]).reports(fields[i].0@, fields[i].1)
}

/// Reports the fields of a type.
fn field_infos(fields: &Vec<(String, FieldDefinition)>) -> (infos: Vec<FieldInfo>)
    ensures
        reports_fields(infos@, fields@),
{
    let mut infos: Vec<FieldInfo> = Vec::new();
    let mut i: usize = 0;
    while i < fields.len()
        invariant
            0 <= i <= fields.len(),
            infos.len() == i,
            forall|j: int| 0 <= j < i ==> (#[trigger] infos@[j]).reports(fields@[j].0@, fields@[j].1),
        decreases fields.len() - i,
    {
        let info = FieldInfo::from_field_definition(fields[i].0.as_str(), &fields[i].1);
        infos.push(info);
        i += 1;
    }
    infos
}

/// A type as a schema reports it.
#[derive(Debug, Clone)]
pub struct TypeInfo {
    /// The type's name.
    pub name: String,
    /// The type's kind: `SCALAR`, `OBJECT`, `INTERFACE`, `UNION`, `ENUM`,
    /// `INPUT_OBJECT`, `LIST` or `NON_NULL`.
    pub kind: String,
    /// What the type is for.
    pub description: Option<String>,
    /// The fields of an object or an interface.
    pub fields: Option<Vec<FieldInfo>>,
    /// The names of the members of a union.
    pub possible_types: Option<Vec<String>>,
    /// The names of the values of an enum.
    pub enum_values: Option<Vec<String>>,
    /// The names of the fields of an input object.
    pub input_fields: Option<Vec<String>>,
}

/// The kind under which a type is reported.
pub open spec fn kind_of(graph_type: GraphQLType) -> Seq<char> {
    match graph_type {
        GraphQLType::Scalar(_) => "SCALAR"@,
        GraphQLType::Object(_) => "OBJECT"@,
        GraphQLType::Interface(_) => "INTERFACE"@,
        GraphQLType::Union(_) => "UNION"@,
        GraphQLType::Enum(_) => "ENUM"@,
        GraphQLType::InputObject(_) => "INPUT_OBJECT"@,
        GraphQLType::List(_) => "LIST"@,
        GraphQLType::NonNull(_) => "NON_NULL"@,
    }
}

impl TypeInfo {
    /// `self` reports the type `graph_type` under the name `name`: its kind
    /// and description, and of the four lists the one that the kind has: the
    /// fields of an object or an interface, the members of a union, the
    /// values of an enum, the fields of an input object. A scalar and a
    /// wrapper have no description and none of the lists.
    pub open spec fn reports(&self, name: Seq<char>, graph_type: GraphQLType) -> bool {
        &&& self.name@ == name
        &&& self.kind@ == kind_of(graph_type)
        &&& opt_text(self.description) == match graph_type {
            GraphQLType::Object(object) => opt_text(object.description),
            GraphQLType::Interface(interface) => opt_text(interface.description),
            GraphQLType::Union(union_type) => opt_text(union_type.description),
            GraphQLType::Enum(enum_type) => opt_text(enum_type.description),
            GraphQLType::InputObject(input) => opt_text(input.description),
            _ => None,
        }
        &&& match graph_type {
            GraphQLType::Object(object) => self.fields matches Some(infos) && reports_fields(
                infos@,
                object.fields@,
            ),
            GraphQLType::Interface(interface) => self.fields matches Some(infos)
                && reports_fields(infos@, interface.fields@),
            _ => self.fields is None,
        }
        &&& match graph_type {
            GraphQLType::Union(union_type) => self.possible_types matches Some(members) && texts(
                members@,
            ) == texts(union_type.types@),
            _ => self.possible_types is None,
        }
        &&& match graph_type {
            GraphQLType::Enum(enum_type) => self.enum_values matches Some(values) && texts(
                values@,
            ) == names_of(enum_type.values@),
            _ => self.enum_values is None,
        }
        &&& match graph_type {
            GraphQLType::InputObject(input) => self.input_fields matches Some(fields) && texts(
                fields@,
            ) == names_of(input.fields@),
            _ => self.input_fields is None,
        }
    }

    /// Reports a type under a name.
    pub fn from_graphql_type(name: &str, type_def: &GraphQLType) -> (info: Self)
        ensures
            info.reports(name@, *type_def),
    {
        match type_def {
            GraphQLType::Scalar(_) => TypeInfo {
                name: name.to_owned(),
                kind: "SCALAR".to_owned(),
                description: None,
                fields: None,
                possible_types: None,
                enum_values: None,
                input_fields: None,
            },
            GraphQLType::Object(object) => TypeInfo {
                name: name.to_owned(),
                kind: "OBJECT".to_owned(),
                description: copy_opt(&object.description),
                fields: Some(field_infos(&object.fields)),
                possible_types: None,
                enum_values: None,
                input_fields: None,
            },
            GraphQLType::Interface(interface) => TypeInfo {
                name: name.to_owned(),
                kind: "INTERFACE".to_owned(),
                description: copy_opt(&interface.description),
                fields: Some(field_infos(&interface.fields)),
                possible_types: None,
                enum_values: None,
                input_fields: None,
            },
            GraphQLType::Union(union_type) => TypeInfo {
                name: name.to_owned(),
                kind: "UNION".to_owned(),
                description: copy_opt(&union_type.description),
                fields: None,
                possible_types: Some(copy_texts(&union_type.types)),
                enum_values: None,
                input_fields: None,
            },
            GraphQLType::Enum(enum_type) => TypeInfo {
                name: name.to_owned(),
                kind: "ENUM".to_owned(),
                description: copy_opt(&enum_type.description),
                fields: None,
                possible_types: None,
                enum_values: Some(entry_names(&enum_type.values)),
                input_fields: None,
            },
            GraphQLType::InputObject(input) => TypeInfo {
                name: name.to_owned(),
                kind: "INPUT_OBJECT".to_owned(),
                description: copy_opt(&input.description),
                fields: None,
                possible_types: None,
                enum_values: None,
                input_fields: Some(entry_names(&input.fields)),
            },
            GraphQLType::List(_) => TypeInfo {
                name: name.to_owned(),
                kind: "LIST".to_owned(),
                description: None,
                fields: None,
                possible_types: None,
                enum_values: None,
                input_fields: None,
            },
            GraphQLType::NonNull(_) => TypeInfo {
                name: name.to_owned(),
                kind: "NON_NULL".to_owned(),
                description: None,
                fields: None,
                possible_types: None,
                enum_values: None,
                input_fields: None,
            },
        }
    }
}

/// A directive as a schema reports it.
#[derive(Debug, Clone)]
pub struct DirectiveInfo {
    /// The directive's name.
    pub name: String,
    /// What the directive is for.
    pub description: Option<String>,
    /// The names of the places where the directive may stand.
    pub locations: Vec<String>,
    /// The names of the directive's arguments.
    pub arguments: Vec<String>,
    /// Whether the directive may stand more than once in one place.
    pub is_repeatable: bool,
}

impl DirectiveInfo {
    /// `self` reports the directive `directive` under the name `name`: the
    /// description, the names of its places and of its arguments in their
    /// order, and whether it is repeatable.
    pub open spec fn reports(&self, name: Seq<char>, directive: DirectiveDefinition) -> bool {
        &&& self.name@ == name
        &&& opt_text(self.description) == opt_text(directive.description)
        &&& self.locations.len() == directive.locations.len()
        &&& forall|i: int|
            0 <= i < directive.locations.len() ==> (#[trigger] self.locations[i])@
                == directive.locations[i].spec_name()
        &&& texts(self.arguments@) == names_of(directive.arguments@)
        &&& self.is_repeatable == directive.is_repeatable
    }

    /// Reports a directive under a name.
    pub fn from_directive(name: &str, directive: &DirectiveDefinition) -> (info: Self)
        ensures
            info.reports(name@, *directive),
    {
        let mut locations: Vec<String> = Vec::new();
        let mut i: usize = 0;
        while i < directive.locations.len()
            invariant
                0 <= i <= directive.locations.len(),
                locations.len() == i,
                forall|j: int|
                    0 <= j < i ==> (#[trigger] locations[j])@
                        == directive.locations[j].spec_name(),
            decreases directive.locations.len() - i,
        {
            locations.push(directive.locations[i].name().to_owned());
            i += 1;
        }
        DirectiveInfo {
            name: name.to_owned(),
            description: copy_opt(&directive.description),
            locations,
            arguments: entry_names(&directive.arguments),
            is_repeatable: directive.is_repeatable,
        }
    }
}

} // verus!
