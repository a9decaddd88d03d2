use sqlx_crud_schema::model::{last_id_annotation, parse_external_id, resolve_id_field};
use sqlx_crud_schema::{DbType, FieldDescriptor, ModelDescriptor, ModelError};

fn user_account_fields() -> Vec<FieldDescriptor> {
    vec![
        FieldDescriptor::new("id", "i64", true),
        FieldDescriptor::new("email", "String", false),
        FieldDescriptor::new("active", "bool", false),
    ]
}

fn plain(names: &[&str]) -> Vec<FieldDescriptor> {
    names.iter().map(|n| FieldDescriptor::new(n, "String", false)).collect()
}

#[test]
fn field_descriptor_holds_what_it_was_given() {
    let f = FieldDescriptor::new("email", "String", true);
    assert_eq!(f.name, "email");
    assert_eq!(f.ty, "String");
    assert!(f.is_id_candidate);
    let g = f.clone();
    assert_eq!(g.name, "email");
    assert_eq!(g.ty, "String");
    assert!(g.is_id_candidate);
}

#[test]
fn descriptor_of_user_account() {
    let m = ModelDescriptor::new("UserAccount", user_account_fields(), None, None).unwrap();
    assert_eq!(m.record_name(), "UserAccount");
    assert_eq!(m.table_name(), "user_account");
    assert_eq!(m.dialect(), DbType::Sqlite);
    assert!(!m.external_id());
    assert_eq!(m.id_index(), 0);
    assert_eq!(m.id_column(), "id");
    assert_eq!(m.id_type(), "i64");
    assert_eq!(m.id_field().name, "id");
    assert_eq!(m.fields().len(), 3);
    assert_eq!(m.fields()[1].name, "email");
    assert_eq!(m.fields()[2].ty, "bool");
}

#[test]
fn descriptor_with_given_table_name() {
    let m = ModelDescriptor::with_table_name(
        "UserAccount",
        "accounts".to_string(),
        user_account_fields(),
        Some("Postgres"),
        Some("true"),
    )
    .unwrap();
    assert_eq!(m.record_name(), "UserAccount");
    assert_eq!(m.table_name(), "accounts");
    assert_eq!(m.dialect(), DbType::Postgres);
    assert!(m.external_id());
    assert_eq!(m.quote_ident("x"), "\"x\"");
}

#[test]
fn empty_field_list_is_rejected() {
    let r = ModelDescriptor::new("Empty", Vec::new(), None, None);
    assert_eq!(r.err(), Some(ModelError::NoFields));
    let r = ModelDescriptor::new("Empty", Vec::new(), Some("MySql"), Some("true"));
    assert_eq!(r.err(), Some(ModelError::NoFields));
}

#[test]
fn unknown_dialect_is_rejected() {
    let r = ModelDescriptor::new("UserAccount", user_account_fields(), Some("Oracle"), None);
    assert_eq!(r.err(), Some(ModelError::UnknownDialect));
}

#[test]
fn unknown_dialect_is_reported_before_empty_field_list() {
    let r = ModelDescriptor::new("Empty", Vec::new(), Some("Oracle"), None);
    assert_eq!(r.err(), Some(ModelError::UnknownDialect));
}

#[test]
fn every_dialect_tag_is_accepted() {
    for (tag, dialect) in [
        ("Any", DbType::Any),
        ("MsSql", DbType::MsSql),
        ("MySql", DbType::MySql),
        ("Postgres", DbType::Postgres),
        ("Sqlite", DbType::Sqlite),
    ] {
        let m = ModelDescriptor::new("T", plain(&["a"]), Some(tag), None).unwrap();
        assert_eq!(m.dialect(), dialect);
    }
}

#[test]
fn first_field_is_the_id_without_annotation() {
    let m = ModelDescriptor::new("T", plain(&["a", "b", "c"]), None, None).unwrap();
    assert_eq!(m.id_index(), 0);
    assert_eq!(m.id_column(), "a");
}

#[test]
fn annotated_field_is_the_id() {
    let fields = vec![
        FieldDescriptor::new("a", "String", false),
        FieldDescriptor::new("b", "u32", true),
        FieldDescriptor::new("c", "String", false),
    ];
    let m = ModelDescriptor::new("T", fields, None, None).unwrap();
    assert_eq!(m.id_index(), 1);
    assert_eq!(m.id_column(), "b");
    assert_eq!(m.id_type(), "u32");
}

#[test]
fn last_annotated_field_wins() {
    let fields = vec![
        FieldDescriptor::new("a", "String", true),
        FieldDescriptor::new("b", "u32", false),
        FieldDescriptor::new("c", "u64", true),
        FieldDescriptor::new("d", "String", false),
    ];
    assert_eq!(last_id_annotation(&fields), Some(2));
    let m = ModelDescriptor::new("T", fields, None, None).unwrap();
    assert_eq!(m.id_index(), 2);
    assert_eq!(m.id_column(), "c");
}

#[test]
fn record_with_one_field() {
    let m = ModelDescriptor::new("Tag", plain(&["label"]), None, None).unwrap();
    assert_eq!(m.id_index(), 0);
    assert_eq!(m.id_column(), "label");
    assert_eq!(m.fields().len(), 1);
}

#[test]
fn last_id_annotation_finds_none_without_annotation() {
    assert_eq!(last_id_annotation(&plain(&["a", "b"])), None);
    assert_eq!(last_id_annotation(&Vec::new()), None);
}

#[test]
fn resolve_id_field_prefers_the_annotation() {
    let fields = plain(&["a", "b", "c"]);
    assert_eq!(resolve_id_field(&fields, None), 0);
    assert_eq!(resolve_id_field(&fields, Some(0)), 0);
    assert_eq!(resolve_id_field(&fields, Some(2)), 2);
}

#[test]
fn external_id_flag_is_a_textual_boolean() {
    assert!(parse_external_id(Some("true")));
    assert!(!parse_external_id(Some("false")));
    assert!(!parse_external_id(None));
}

#[test]
fn unreadable_external_id_flag_means_false() {
    assert!(!parse_external_id(Some("yes")));
    assert!(!parse_external_id(Some("1")));
    assert!(!parse_external_id(Some("TRUE")));
    assert!(!parse_external_id(Some("True")));
    assert!(!parse_external_id(Some(" true")));
    assert!(!parse_external_id(Some("")));
}

#[test]
fn external_id_flag_reaches_the_descriptor() {
    let on = ModelDescriptor::new("T", plain(&["a"]), None, Some("true")).unwrap();
    assert!(on.external_id());
    let off = ModelDescriptor::new("T", plain(&["a"]), None, Some("false")).unwrap();
    assert!(!off.external_id());
    let bad = ModelDescriptor::new("T", plain(&["a"]), None, Some("maybe")).unwrap();
    assert!(!bad.external_id());
}
