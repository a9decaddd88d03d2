use sqlx_crud_schema::{build_metadata, build_sql_queries, FieldDescriptor, ModelDescriptor};

fn account_descriptor(dialect: Option<&str>, external_id: Option<&str>) -> ModelDescriptor {
    let fields = vec![
        FieldDescriptor::new("id", "i64", true),
        FieldDescriptor::new("email", "String", false),
        FieldDescriptor::new("active", "bool", false),
    ];
    ModelDescriptor::new("UserAccount", fields, dialect, external_id).unwrap()
}

#[test]
fn metadata_of_user_account() {
    let meta = build_metadata(&account_descriptor(Some("Sqlite"), Some("false")));
    assert_eq!(meta.table_name(), "user_account");
    assert_eq!(meta.id_column(), "id");
    assert_eq!(meta.columns(), &vec!["id", "email", "active"]);
    assert_eq!(
        meta.select_sql(),
        "SELECT \"user_account\".\"id\", \"user_account\".\"email\", \"user_account\".\"active\" FROM \"user_account\""
    );
    assert_eq!(
        meta.select_by_id_sql(),
        "SELECT \"user_account\".\"id\", \"user_account\".\"email\", \"user_account\".\"active\" FROM \"user_account\" WHERE \"user_account\".\"id\" = ? LIMIT 1"
    );
    assert_eq!(
        meta.insert_sql(),
        "INSERT INTO \"user_account\" (\"email\", \"active\") VALUES (?, ?) RETURNING \"user_account\".\"id\", \"user_account\".\"email\", \"user_account\".\"active\""
    );
    assert_eq!(
        meta.update_by_id_sql(),
        "UPDATE \"user_account\" SET \"email\" = ?, \"active\" = ? WHERE \"user_account\".\"id\" = ? RETURNING \"user_account\".\"id\", \"user_account\".\"email\", \"user_account\".\"active\""
    );
    assert_eq!(
        meta.delete_by_id_sql(),
        "DELETE FROM \"user_account\" WHERE \"user_account\".\"id\" = ?"
    );
}

#[test]
fn metadata_names_are_not_quoted() {
    let meta = build_metadata(&account_descriptor(Some("MySql"), None));
    assert_eq!(meta.table_name(), "user_account");
    assert_eq!(meta.id_column(), "id");
    assert_eq!(meta.columns(), &vec!["id", "email", "active"]);
}

#[test]
fn metadata_holds_the_generated_statements() {
    let m = account_descriptor(Some("Postgres"), Some("true"));
    let meta = build_metadata(&m);
    let queries = build_sql_queries(&m);
    assert_eq!(meta.select_sql(), queries.select_sql);
    assert_eq!(meta.select_by_id_sql(), queries.select_by_id_sql);
    assert_eq!(meta.insert_sql(), queries.insert_sql);
    assert_eq!(meta.update_by_id_sql(), queries.update_by_id_sql);
    assert_eq!(meta.delete_by_id_sql(), queries.delete_by_id_sql);
}

#[test]
fn metadata_names_the_annotated_id_column() {
    let fields = vec![
        FieldDescriptor::new("name", "String", false),
        FieldDescriptor::new("code", "u32", true),
    ];
    let m = ModelDescriptor::new("Part", fields, None, None).unwrap();
    let meta = build_metadata(&m);
    assert_eq!(meta.id_column(), "code");
    assert_eq!(meta.columns(), &vec!["name", "code"]);
    assert_eq!(m.column_names(), vec!["name", "code"]);
}

#[test]
fn generating_metadata_twice_gives_identical_text() {
    let first = build_metadata(&account_descriptor(Some("MySql"), Some("true")));
    let second = build_metadata(&account_descriptor(Some("MySql"), Some("true")));
    assert_eq!(first.table_name().as_bytes(), second.table_name().as_bytes());
    assert_eq!(first.id_column().as_bytes(), second.id_column().as_bytes());
    assert_eq!(first.columns(), second.columns());
    assert_eq!(first.select_sql().as_bytes(), second.select_sql().as_bytes());
    assert_eq!(first.select_by_id_sql().as_bytes(), second.select_by_id_sql().as_bytes());
    assert_eq!(first.insert_sql().as_bytes(), second.insert_sql().as_bytes());
    assert_eq!(first.update_by_id_sql().as_bytes(), second.update_by_id_sql().as_bytes());
    assert_eq!(first.delete_by_id_sql().as_bytes(), second.delete_by_id_sql().as_bytes());
}

#[test]
fn generating_from_one_descriptor_twice_gives_identical_text() {
    let m = account_descriptor(None, None);
    let first = build_metadata(&m);
    let second = build_metadata(&m);
    assert_eq!(first.insert_sql(), second.insert_sql());
    assert_eq!(first.update_by_id_sql(), second.update_by_id_sql());
    assert_eq!(first.columns(), second.columns());
}
