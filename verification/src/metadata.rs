//! The generated metadata of a record type: what calling code reads.

use crate::model::{field_views, ModelDescriptor, ModelView};
use crate::sql::build_sql_queries;
use crate::text::texts;
use vstd::prelude::*;
use vstd::string::*;

verus! {

/// The names and statements generated for one record type. It is built
/// once and only read afterwards.
#[derive(Debug)]
pub struct GeneratedMetadata {
    table_name: String,
    id_column: String,
    columns: Vec<String>,
    select_sql: String,
    select_by_id_sql: String,
    insert_sql: String,
    update_by_id_sql: String,
    delete_by_id_sql: String,
}

/// What a `GeneratedMetadata` holds, as mathematical values.
pub struct MetadataView {
    /// The table's name, without quotes.
    pub table_name: Seq<char>,
    /// The identity column's name, without quotes.
    pub id_column: Seq<char>,
    /// The names of all columns in declaration order, without quotes.
    pub columns: Seq<Seq<char>>,
    pub select_sql: Seq<char>,
    pub select_by_id_sql: Seq<char>,
    pub insert_sql: Seq<char>,
    pub update_by_id_sql: Seq<char>,
    pub delete_by_id_sql: Seq<char>,
}

impl View for GeneratedMetadata {
    type V = MetadataView;

    closed spec fn view(&self) -> MetadataView {
        MetadataView {
            table_name: self.table_name@,
            id_column: self.id_column@,
            columns: texts(self.columns@),
            select_sql: self.select_sql@,
            select_by_id_sql: self.select_by_id_sql@,
            insert_sql: self.insert_sql@,
            update_by_id_sql: self.update_by_id_sql@,
            delete_by_id_sql: self.delete_by_id_sql@,
        }
    }
}

impl GeneratedMetadata {
    /// The table's name, without quotes.
    pub fn table_name(&self) -> (name: &str)
        ensures
            name@ == self@.table_name,
    {
        self.table_name.as_str()
    }

    /// The identity column's name, without quotes.
    pub fn id_column(&self) -> (name: &str)
        ensures
            name@ == self@.id_column,
    {
        self.id_column.as_str()
    }

    /// The names of all columns in declaration order, without quotes.
    pub fn columns(&self) -> (names: &Vec<String>)
        ensures
            texts(names@) == self@.columns,
    {
        &self.columns
    }

    /// The statement that selects all records.
    pub fn select_sql(&self) -> (text: &str)
        ensures
            text@ == self@.select_sql,
    {
        self.select_sql.as_str()
    }

    /// The statement that selects one record by its id.
    pub fn select_by_id_sql(&self) -> (text: &str)
        ensures
            text@ == self@.select_by_id_sql,
    {
        self.select_by_id_sql.as_str()
    }

    /// The statement that inserts a record and returns it.
    pub fn insert_sql(&self) -> (text: &str)
        ensures
            text@ == self@.insert_sql,
    {
        self.insert_sql.as_str()
    }

    /// The statement that updates one record by its id and returns it.
    pub fn update_by_id_sql(&self) -> (text: &str)
        ensures
            text@ == self@.update_by_id_sql,
    {
        self.update_by_id_sql.as_str()
    }

    /// The statement that deletes one record by its id.
    pub fn delete_by_id_sql(&self) -> (text: &str)
        ensures
            text@ == self@.delete_by_id_sql,
    {
        self.delete_by_id_sql.as_str()
    }
}

impl ModelView {
    /// The names of all columns in declaration order, without quotes.
    pub open spec fn column_names(self) -> Seq<Seq<char>> {
        Seq::new(self.fields.len(), |i: int| self.fields[i].name)
    }

    /// The metadata of a record type.
    pub open spec fn metadata(self) -> MetadataView {
        MetadataView {
            table_name: self.table_name,
            id_column: self.id_column(),
            columns: self.column_names(),
            select_sql: self.select_sql(),
            select_by_id_sql: self.select_by_id_sql(),
            insert_sql: self.insert_sql(),
            update_by_id_sql: self.update_by_id_sql(),
            delete_by_id_sql: self.delete_by_id_sql(),
        }
    }
}

impl ModelDescriptor {
    /// The names of all columns in declaration order, without quotes.
    pub fn column_names(&self) -> (names: Vec<String>)
        ensures
            texts(names@) == self@.column_names(),
    {
        let fields = self.fields();
        let mut names: Vec<String> = Vec::new();
        let mut i: usize = 0;
        while i < fields.len()
            invariant
                i <= fields.len(),
                field_views(fields@) == self@.fields,
                names@.len() == i,
                forall|k: int| 0 <= k < i ==> names@[k]@ == self@.fields[k].name,
            decreases fields.len() - i,
        {
            proof {
                assert(field_views(fields@)[i as int] == fields[i as int]@);
            }
            names.push(fields[i].name.clone());
            i += 1;
        }
        proof {
            assert(texts(names@) =~= self@.column_names());
        }
        names
    }
}

/// Generates the metadata of a record type: its table name, the name of its
/// identity column, the names of its columns and its five statements.
pub fn build_metadata(model: &ModelDescriptor) -> (metadata: GeneratedMetadata)
    ensures
        metadata@ == model@.metadata(),
{
    let queries = build_sql_queries(model);
    GeneratedMetadata {
        table_name: String::from_str(model.table_name()),
        id_column: String::from_str(model.id_column()),
        columns: model.column_names(),
        select_sql: queries.select_sql,
        select_by_id_sql: queries.select_by_id_sql,
        insert_sql: queries.insert_sql,
        update_by_id_sql: queries.update_by_id_sql,
        delete_by_id_sql: queries.delete_by_id_sql,
    }
}

} // verus!
