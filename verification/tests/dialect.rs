use sqlx_crud_schema::{DbType, ModelError};

#[test]
fn double_quotes_for_every_dialect_but_mysql() {
    assert_eq!(DbType::Any.quote_ident("user"), "\"user\"");
    assert_eq!(DbType::MsSql.quote_ident("user"), "\"user\"");
    assert_eq!(DbType::Postgres.quote_ident("user"), "\"user\"");
    assert_eq!(DbType::Sqlite.quote_ident("user"), "\"user\"");
}

#[test]
fn back_ticks_for_mysql() {
    assert_eq!(DbType::MySql.quote_ident("user"), "`user`");
}

#[test]
fn quote_ident_of_empty_identifier() {
    assert_eq!(DbType::Sqlite.quote_ident(""), "\"\"");
    assert_eq!(DbType::MySql.quote_ident(""), "``");
}

#[test]
fn quote_ident_does_not_escape_embedded_quotes() {
    assert_eq!(DbType::Sqlite.quote_ident("a\"b"), "\"a\"b\"");
    assert_eq!(DbType::MySql.quote_ident("a`b"), "`a`b`");
}

#[test]
fn quote_ident_keeps_non_ascii_identifiers() {
    assert_eq!(DbType::Postgres.quote_ident("größe"), "\"größe\"");
}

#[test]
fn every_tag_names_its_dialect() {
    assert_eq!(DbType::from_tag("Any"), Ok(DbType::Any));
    assert_eq!(DbType::from_tag("MsSql"), Ok(DbType::MsSql));
    assert_eq!(DbType::from_tag("MySql"), Ok(DbType::MySql));
    assert_eq!(DbType::from_tag("Postgres"), Ok(DbType::Postgres));
    assert_eq!(DbType::from_tag("Sqlite"), Ok(DbType::Sqlite));
}

#[test]
fn unknown_tags_are_rejected() {
    assert_eq!(DbType::from_tag("Oracle"), Err(ModelError::UnknownDialect));
    assert_eq!(DbType::from_tag(""), Err(ModelError::UnknownDialect));
    assert_eq!(DbType::from_tag("sqlite"), Err(ModelError::UnknownDialect));
    assert_eq!(DbType::from_tag("MYSQL"), Err(ModelError::UnknownDialect));
    assert_eq!(DbType::from_tag(" Sqlite"), Err(ModelError::UnknownDialect));
    assert_eq!(DbType::from_tag("Sqlite "), Err(ModelError::UnknownDialect));
}

#[test]
fn missing_annotation_means_sqlite() {
    assert_eq!(DbType::from_annotation(None), Ok(DbType::Sqlite));
    assert_eq!(DbType::default(), DbType::Sqlite);
}

#[test]
fn annotation_is_read_as_a_tag() {
    assert_eq!(DbType::from_annotation(Some("Postgres")), Ok(DbType::Postgres));
    assert_eq!(DbType::from_annotation(Some("MySql")), Ok(DbType::MySql));
    assert_eq!(DbType::from_annotation(Some("Db2")), Err(ModelError::UnknownDialect));
}

#[test]
fn driver_names() {
    assert_eq!(DbType::Any.driver(), "Any");
    assert_eq!(DbType::MsSql.driver(), "Mssql");
    assert_eq!(DbType::MySql.driver(), "MySql");
    assert_eq!(DbType::Postgres.driver(), "Postgres");
    assert_eq!(DbType::Sqlite.driver(), "Sqlite");
}

#[test]
fn error_messages() {
    assert_eq!(
        ModelError::NoFields.message(),
        "a record type must declare at least one field"
    );
    assert_eq!(ModelError::UnknownDialect.message(), "unknown database dialect");
}
