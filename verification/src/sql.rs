//! The SQL generator: the five statements of a record type.
//!
//! Every identifier is quoted for the descriptor's dialect. Values are
//! never written into a statement: each stands as the placeholder `?`.

use crate::binding::positions_of;
use crate::model::{field_views, ModelDescriptor, ModelView};
use crate::text::{join, join_texts, texts};
use vstd::prelude::*;
use vstd::string::*;

verus! {

/// `count` placeholders, separated by commas.
pub open spec fn placeholder_list(count: int) -> Seq<char> {
    join(Seq::new(count as nat, |k: int| "?"@), ", "@)
}

/// The text of a select of all records.
pub open spec fn select_text(column_list: Seq<char>, table: Seq<char>) -> Seq<char> {
    "SELECT "@ + column_list + " FROM "@ + table
}

/// The text of a select of one record by its id.
pub open spec fn select_by_id_text(
    column_list: Seq<char>,
    table: Seq<char>,
    id_column: Seq<char>,
) -> Seq<char> {
    "SELECT "@ + column_list + " FROM "@ + table + " WHERE "@ + id_column + " = ? LIMIT 1"@
}

/// The text of an insert that returns the new record.
pub open spec fn insert_text(
    table: Seq<char>,
    insert_column_list: Seq<char>,
    placeholders: Seq<char>,
    column_list: Seq<char>,
) -> Seq<char> {
    "INSERT INTO "@ + table + " ("@ + insert_column_list + ") VALUES ("@ + placeholders
        + ") RETURNING "@ + column_list
}

/// The text of an update of one record by its id that returns the record.
pub open spec fn update_by_id_text(
    table: Seq<char>,
    update_set_list: Seq<char>,
    id_column: Seq<char>,
    column_list: Seq<char>,
) -> Seq<char> {
    "UPDATE "@ + table + " SET "@ + update_set_list + " WHERE "@ + id_column
        + " = ? RETURNING "@ + column_list
}

/// The text of a delete of one record by its id.
pub open spec fn delete_by_id_text(table: Seq<char>, id_column: Seq<char>) -> Seq<char> {
    "DELETE FROM "@ + table + " WHERE "@ + id_column + " = ?"@
}

impl ModelView {
    /// The table's name, quoted.
    pub open spec fn quoted_table(self) -> Seq<char> {
        self.dialect.quoted(self.table_name)
    }

    /// The name of the column at a position, quoted.
    pub open spec fn quoted_column(self, position: int) -> Seq<char> {
        self.dialect.quoted(self.fields[position].name)
    }

    /// The name of the column at a position, quoted and qualified with the
    /// quoted table name.
    pub open spec fn qualified_column(self, position: int) -> Seq<char> {
        self.quoted_table() + "."@ + self.quoted_column(position)
    }

    /// The identity column, quoted and qualified.
    pub open spec fn qualified_id(self) -> Seq<char> {
        self.qualified_column(self.id_index)
    }

    /// The qualified name of every column, in declaration order.
    pub open spec fn column_items(self) -> Seq<Seq<char>> {
        Seq::new(self.fields.len(), |i: int| self.qualified_column(i))
    }

    /// The qualified names of all columns, separated by commas.
    pub open spec fn column_list(self) -> Seq<char> {
        join(self.column_items(), ", "@)
    }

    /// The positions of the fields that an insert names: all of them when
    /// identity values are supplied by the caller, otherwise all but the
    /// identity field.
    pub open spec fn insert_positions(self) -> Seq<int> {
        if self.external_id {
            self.all_positions()
        } else {
            self.other_positions()
        }
    }

    /// The quoted name of every column that an insert names.
    pub open spec fn insert_column_items(self) -> Seq<Seq<char>> {
        self.insert_positions().map_values(|p: int| self.quoted_column(p))
    }

    /// The quoted names of the columns that an insert names, separated by
    /// commas.
    pub open spec fn insert_column_list(self) -> Seq<char> {
        join(self.insert_column_items(), ", "@)
    }

    /// The number of placeholders of an insert.
    pub open spec fn insert_placeholder_count(self) -> int {
        if self.external_id {
            self.fields.len() as int
        } else {
            self.fields.len() - 1
        }
    }

    /// One assignment `column = ?` for every column but the identity
    /// column, in declaration order.
    pub open spec fn update_set_items(self) -> Seq<Seq<char>> {
        self.other_positions().map_values(|p: int| self.quoted_column(p) + " = ?"@)
    }

    /// The assignments of an update, separated by commas.
    pub open spec fn update_set_list(self) -> Seq<char> {
        join(self.update_set_items(), ", "@)
    }

    /// `SELECT {column_list} FROM {table}`
    pub open spec fn select_sql(self) -> Seq<char> {
        select_text(self.column_list(), self.quoted_table())
    }

    /// `SELECT {column_list} FROM {table} WHERE {id} = ? LIMIT 1`
    pub open spec fn select_by_id_sql(self) -> Seq<char> {
        select_by_id_text(self.column_list(), self.quoted_table(), self.qualified_id())
    }

    /// `INSERT INTO {table} ({insert_column_list}) VALUES ({placeholders})
    /// RETURNING {column_list}`
    pub open spec fn insert_sql(self) -> Seq<char> {
        insert_text(
            self.quoted_table(),
            self.insert_column_list(),
            placeholder_list(self.insert_placeholder_count()),
            self.column_list(),
        )
    }

    /// `UPDATE {table} SET {update_set_list} WHERE {id} = ? RETURNING
    /// {column_list}`
    pub open spec fn update_by_id_sql(self) -> Seq<char> {
        update_by_id_text(
            self.quoted_table(),
            self.update_set_list(),
            self.qualified_id(),
            self.column_list(),
        )
    }

    /// `DELETE FROM {table} WHERE {id} = ?`
    pub open spec fn delete_by_id_sql(self) -> Seq<char> {
        delete_by_id_text(self.quoted_table(), self.qualified_id())
    }

    /// The five statements of a record type.
    pub open spec fn sql_queries(self) -> SqlQueriesView {
        SqlQueriesView {
            select_sql: self.select_sql(),
            select_by_id_sql: self.select_by_id_sql(),
            insert_sql: self.insert_sql(),
            update_by_id_sql: self.update_by_id_sql(),
            delete_by_id_sql: self.delete_by_id_sql(),
        }
    }
}

/// The five statements of a record type.
#[derive(Debug)]
pub struct SqlQueries {
    pub select_sql: String,
    pub select_by_id_sql: String,
    pub insert_sql: String,
    pub update_by_id_sql: String,
    pub delete_by_id_sql: String,
}

/// The text of the five statements.
pub struct SqlQueriesView {
    pub select_sql: Seq<char>,
    pub select_by_id_sql: Seq<char>,
    pub insert_sql: Seq<char>,
    pub update_by_id_sql: Seq<char>,
    pub delete_by_id_sql: Seq<char>,
}

impl View for SqlQueries {
    type V = SqlQueriesView;

    open spec fn view(&self) -> SqlQueriesView {
        SqlQueriesView {
            select_sql: self.select_sql@,
            select_by_id_sql: self.select_by_id_sql@,
            insert_sql: self.insert_sql@,
            update_by_id_sql: self.update_by_id_sql@,
            delete_by_id_sql: self.delete_by_id_sql@,
        }
    }
}

/// Writes `count` placeholders, separated by commas.
pub fn placeholders(count: usize) -> (text: String)
    ensures
        text@ == placeholder_list(count as int),
{
    let mut items: Vec<String> = Vec::new();
    let mut i: usize = 0;
    while i < count
        invariant
            i <= count,
            items@.len() == i,
            forall|k: int| 0 <= k < i ==> items@[k]@ == "?"@,
        decreases count - i,
    {
        items.push(String::from_str("?"));
        i += 1;
    }
    proof {
        assert(texts(items@) =~= Seq::new(count as nat, |k: int| "?"@));
    }
    join_texts(&items, ", ")
}

/// Writes a select of all records from its parts.
pub fn format_select(column_list: &str, table: &str) -> (text: String)
    ensures
        text@ == select_text(column_list@, table@),
{
    let mut text = String::from_str("SELECT ");
    text.append(column_list);
    text.append(" FROM ");
    text.append(table);
    text
}

/// Writes a select of one record by its id from its parts.
pub fn format_select_by_id(column_list: &str, table: &str, id_column: &str) -> (text: String)
    ensures
        text@ == select_by_id_text(column_list@, table@, id_column@),
{
    let mut text = String::from_str("SELECT ");
    text.append(column_list);
    text.append(" FROM ");
    text.append(table);
    text.append(" WHERE ");
    text.append(id_column);
    text.append(" = ? LIMIT 1");
    text
}

/// Writes an insert from its parts.
pub fn format_insert(
    table: &str,
    insert_column_list: &str,
    placeholders: &str,
    column_list: &str,
) -> (text: String)
    ensures
        text@ == insert_text(table@, insert_column_list@, placeholders@, column_list@),
{
    let mut text = String::from_str("INSERT INTO ");
    text.append(table);
    text.append(" (");
    text.append(insert_column_list);
    text.append(") VALUES (");
    text.append(placeholders);
    text.append(") RETURNING ");
    text.append(column_list);
    text
}

/// Writes an update by id from its parts.
pub fn format_update_by_id(
    table: &str,
    update_set_list: &str,
    id_column: &str,
    column_list: &str,
) -> (text: String)
    ensures
        text@ == update_by_id_text(table@, update_set_list@, id_column@, column_list@),
{
    let mut text = String::from_str("UPDATE ");
    text.append(table);
    text.append(" SET ");
    text.append(update_set_list);
    text.append(" WHERE ");
    text.append(id_column);
    text.append(" = ? RETURNING ");
    text.append(column_list);
    text
}

/// Writes a delete by id from its parts.
pub fn format_delete_by_id(table: &str, id_column: &str) -> (text: String)
    ensures
        text@ == delete_by_id_text(table@, id_column@),
{
    let mut text = String::from_str("DELETE FROM ");
    text.append(table);
    text.append(" WHERE ");
    text.append(id_column);
    text.append(" = ?");
    text
}

impl ModelDescriptor {
    /// The table's name, quoted.
    pub fn quoted_table(&self) -> (text: String)
        ensures
            text@ == self@.quoted_table(),
    {
        self.quote_ident(self.table_name())
    }

    /// The identity column, quoted and qualified with the table's name.
    pub fn qualified_id(&self) -> (text: String)
        ensures
            text@ == self@.qualified_id(),
    {
        let mut text = self.quoted_table();
        text.append(".");
        let column = self.quote_ident(self.id_column());
        text.append(column.as_str());
        text
    }

    /// The qualified name of every column, in declaration order.
    pub fn column_items(&self) -> (items: Vec<String>)
        ensures
            texts(items@) == self@.column_items(),
    {
        let fields = self.fields();
        let table = self.quoted_table();
        let mut items: Vec<String> = Vec::new();
        let mut i: usize = 0;
        while i < fields.len()
            invariant
                i <= fields.len(),
                field_views(fields@) == self@.fields,
                table@ == self@.quoted_table(),
                items@.len() == i,
                forall|k: int| 0 <= k < i ==> items@[k]@ == self@.qualified_column(k),
            decreases fields.len() - i,
        {
            let mut item = table.clone();
            item.append(".");
            let column = self.quote_ident(fields[i].name.as_str());
            item.append(column.as_str());
            proof {
                assert(field_views(fields@)[i as int] == fields[i as int]@);
            }
            items.push(item);
            i += 1;
        }
        proof {
            assert(texts(items@) =~= self@.column_items());
        }
        items
    }

    /// The qualified names of all columns, separated by commas.
    pub fn column_list(&self) -> (text: String)
        ensures
            text@ == self@.column_list(),
    {
        let items = self.column_items();
        join_texts(&items, ", ")
    }

    /// The positions of the fields that an insert names.
    pub fn insert_positions(&self) -> (positions: Vec<usize>)
        ensures
            positions_of(positions@) == self@.insert_positions(),
    {
        if self.external_id() {
            self.all_positions()
        } else {
            self.other_positions()
        }
    }

    /// The quoted name of every column that an insert names.
    pub fn insert_column_items(&self) -> (items: Vec<String>)
        ensures
            texts(items@) == self@.insert_column_items(),
    {
        let fields = self.fields();
        let positions = self.insert_positions();
        let mut items: Vec<String> = Vec::new();
        let mut i: usize = 0;
        while i < positions.len()
            invariant
                i <= positions.len(),
                field_views(fields@) == self@.fields,
                self@.wf(),
                positions_of(positions@) == self@.insert_positions(),
                items@.len() == i,
                forall|k: int|
                    0 <= k < i ==> items@[k]@ == self@.quoted_column(self@.insert_positions()[k]),
            decreases positions.len() - i,
        {
            let p = positions[i];
            proof {
                assert(positions_of(positions@).len() == positions@.len());
                assert(positions_of(positions@)[i as int] == p);
                assert(field_views(fields@).len() == fields@.len());
                assert(0 <= p < fields@.len());
                assert(field_views(fields@)[p as int] == fields[p as int]@);
            }
            items.push(self.quote_ident(fields[p].name.as_str()));
            i += 1;
        }
        proof {
            assert(positions_of(positions@).len() == positions@.len());
            assert(texts(items@) =~= self@.insert_column_items());
        }
        items
    }

    /// The quoted names of the columns that an insert names, separated by
    /// commas.
    pub fn insert_column_list(&self) -> (text: String)
        ensures
            text@ == self@.insert_column_list(),
    {
        let items = self.insert_column_items();
        join_texts(&items, ", ")
    }

    /// The number of placeholders of an insert: one for every field, less
    /// one for the identity field unless identity values are supplied by
    /// the caller.
    pub fn insert_placeholder_count(&self) -> (count: usize)
        ensures
            count as int == self@.insert_placeholder_count(),
    {
        let fields = self.fields();
        if self.external_id() {
            fields.len()
        } else {
            fields.len() - 1
        }
    }

    /// One assignment `column = ?` for every column but the identity
    /// column, in declaration order.
    pub fn update_set_items(&self) -> (items: Vec<String>)
        ensures
            texts(items@) == self@.update_set_items(),
    {
        let fields = self.fields();
        let positions = self.other_positions();
        let mut items: Vec<String> = Vec::new();
        let mut i: usize = 0;
        while i < positions.len()
            invariant
                i <= positions.len(),
                field_views(fields@) == self@.fields,
                self@.wf(),
                positions_of(positions@) == self@.other_positions(),
                items@.len() == i,
                forall|k: int|
                    0 <= k < i ==> items@[k]@ == self@.quoted_column(self@.other_positions()[k])
                        + " = ?"@,
            decreases positions.len() - i,
        {
            let p = positions[i];
            proof {
                assert(positions_of(positions@).len() == positions@.len());
                assert(positions_of(positions@)[i as int] == p);
                assert(field_views(fields@).len() == fields@.len());
                assert(0 <= p < fields@.len());
                assert(field_views(fields@)[p as int] == fields[p as int]@);
            }
            let mut item = self.quote_ident(fields[p].name.as_str());
            item.append(" = ?");
            items.push(item);
            i += 1;
        }
        proof {
            assert(positions_of(positions@).len() == positions@.len());
            assert(texts(items@) =~= self@.update_set_items());
        }
        items
    }

    /// The assignments of an update, separated by commas.
    pub fn update_set_list(&self) -> (text: String)
        ensures
            text@ == self@.update_set_list(),
    {
        let items = self.update_set_items();
        join_texts(&items, ", ")
    }

    /// The statement that selects all records.
    pub fn select_sql(&self) -> (text: String)
        ensures
            text@ == self@.select_sql(),
    {
        format_select(self.column_list().as_str(), self.quoted_table().as_str())
    }

    /// The statement that selects one record by its id.
    pub fn select_by_id_sql(&self) -> (text: String)
        ensures
            text@ == self@.select_by_id_sql(),
    {
        format_select_by_id(
            self.column_list().as_str(),
            self.quoted_table().as_str(),
            self.qualified_id().as_str(),
        )
    }

    /// The statement that inserts a record and returns it.
    pub fn insert_sql(&self) -> (text: String)
        ensures
            text@ == self@.insert_sql(),
    {
        format_insert(
            self.quoted_table().as_str(),
            self.insert_column_list().as_str(),
            placeholders(self.insert_placeholder_count()).as_str(),
            self.column_list().as_str(),
        )
    }

    /// The statement that updates one record by its id and returns it.
    pub fn update_by_id_sql(&self) -> (text: String)
        ensures
            text@ == self@.update_by_id_sql(),
    {
        format_update_by_id(
            self.quoted_table().as_str(),
            self.update_set_list().as_str(),
            self.qualified_id().as_str(),
            self.column_list().as_str(),
        )
    }

    /// The statement that deletes one record by its id.
    pub fn delete_by_id_sql(&self) -> (text: String)
        ensures
            text@ == self@.delete_by_id_sql(),
    {
        format_delete_by_id(self.quoted_table().as_str(), self.qualified_id().as_str())
    }
}

/// Generates the five statements of a record type. The table name, the
/// identity column and the column list are computed once and shared by the
/// statements.
pub fn build_sql_queries(model: &ModelDescriptor) -> (queries: SqlQueries)
    ensures
        queries@ == model@.sql_queries(),
{
    let table = model.quoted_table();
    let id_column = model.qualified_id();
    let insert_binds = placeholders(model.insert_placeholder_count());
    let update_binds = model.update_set_list();
    let insert_column_list = model.insert_column_list();
    let column_list = model.column_list();
    SqlQueries {
        select_sql: format_select(column_list.as_str(), table.as_str()),
        select_by_id_sql: format_select_by_id(
            column_list.as_str(),
            table.as_str(),
            id_column.as_str(),
        ),
        insert_sql: format_insert(
            table.as_str(),
            insert_column_list.as_str(),
            insert_binds.as_str(),
            column_list.as_str(),
        ),
        update_by_id_sql: format_update_by_id(
            table.as_str(),
            update_binds.as_str(),
            id_column.as_str(),
            column_list.as_str(),
        ),
        delete_by_id_sql: format_delete_by_id(table.as_str(), id_column.as_str()),
    }
}

} // verus!
