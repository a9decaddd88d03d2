use sqlx_crud_schema::naming::{schema_name, table_name, with_schema_suffix};

#[test]
fn table_name_is_snake_case() {
    assert_eq!(table_name("UserAccount"), "user_account");
}

#[test]
fn table_name_is_not_made_plural() {
    assert_eq!(table_name("User"), "user");
    assert_eq!(table_name("Category"), "category");
}

#[test]
fn table_name_of_acronym_and_digits() {
    assert_eq!(table_name("HTTPFooBar"), "http_foo_bar");
    assert_eq!(table_name("fooBar3"), "foo_bar_3");
}

#[test]
fn table_name_of_snake_case_name_is_unchanged() {
    assert_eq!(table_name("user_account"), "user_account");
}

#[test]
fn table_name_of_empty_name() {
    assert_eq!(table_name(""), "");
}

#[test]
fn schema_name_is_screaming_snake_case_with_suffix() {
    assert_eq!(schema_name("UserAccount"), "USER_ACCOUNT_SCHEMA");
    assert_eq!(schema_name("User"), "USER_SCHEMA");
}

#[test]
fn schema_suffix_is_appended_to_any_name() {
    assert_eq!(with_schema_suffix("USER".to_string()), "USER_SCHEMA");
    assert_eq!(with_schema_suffix(String::new()), "_SCHEMA");
}
