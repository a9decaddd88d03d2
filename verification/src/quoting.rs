//! Dialects differ in their quote characters and in nothing else.
//!
//! The statements of one record type in two dialects are the same text but
//! for the quote characters: replacing every quote character of the first
//! dialect by that of the second turns each statement of the first into the
//! statement of the second. This holds as long as no name contains the
//! first dialect's quote character, which is never escaped.

use crate::dialect::DbType;
use crate::model::ModelView;
use crate::sql::{
    delete_by_id_text, insert_text, placeholder_list, select_by_id_text, select_text,
    update_by_id_text,
};
use crate::text::join;
use vstd::prelude::*;

verus! {

/// Identifiers are wrapped in back-ticks for MySQL and in double quotes for
/// every other dialect. The identifier itself stands unchanged between the
/// two quote characters.
pub proof fn lemma_quoting(d: DbType, ident: Seq<char>)
    ensures
        d == DbType::MySql ==> d.quoted(ident) == seq!['`'] + ident + seq!['`'],
        d != DbType::MySql ==> d.quoted(ident) == seq!['"'] + ident + seq!['"'],
        d.quoted(ident).len() == ident.len() + 2,
        d.quoted(ident).first() == d.quote_char(),
        d.quoted(ident).last() == d.quote_char(),
        d.quoted(ident).subrange(1, ident.len() as int + 1) == ident,
{
    assert(d.quoted(ident).subrange(1, ident.len() as int + 1) =~= ident);
}

/// The statements depend on the dialect through its quote character alone:
/// two descriptors that differ only in dialects with the same quote
/// character have the same statements.
pub proof fn lemma_statements_follow_quote_char(a: ModelView, b: ModelView)
    requires
        a.wf(),
        a.fields == b.fields,
        a.id_index == b.id_index,
        a.external_id == b.external_id,
        a.table_name == b.table_name,
        a.dialect.quote_char() == b.dialect.quote_char(),
    ensures
        a.sql_queries() == b.sql_queries(),
{
    assert(a.quoted_table() == b.quoted_table());
    assert(a.column_items() =~= b.column_items());
    assert(a.other_positions() =~= b.other_positions());
    assert(a.all_positions() =~= b.all_positions());
    assert(a.insert_column_items() =~= b.insert_column_items());
    assert(a.update_set_items() =~= b.update_set_items());
}

/// The text with every character `from` replaced by `to`.
pub open spec fn requoted(text: Seq<char>, from: char, to: char) -> Seq<char> {
    Seq::new(
        text.len(),
        |i: int|
            if text[i] == from {
                to
            } else {
                text[i]
            },
    )
}

/// Whether a character occurs nowhere in a text.
pub open spec fn free_of(text: Seq<char>, c: char) -> bool {
    forall|i: int| 0 <= i < text.len() ==> text[i] != c
}

/// Whether a character occurs in no name of a descriptor: neither in the
/// table's name nor in a field's.
pub open spec fn names_free_of(m: ModelView, c: char) -> bool {
    &&& free_of(m.table_name, c)
    &&& forall|i: int| 0 <= i < m.fields.len() ==> free_of(#[trigger] m.fields[i].name, c)
}

/// Whether a character is a quote character of some dialect.
pub open spec fn is_quote(c: char) -> bool {
    c == '"' || c == '`'
}

proof fn lemma_requoted_add(x: Seq<char>, y: Seq<char>, from: char, to: char)
    ensures
        requoted(x + y, from, to) == requoted(x, from, to) + requoted(y, from, to),
{
    assert(requoted(x + y, from, to) =~= requoted(x, from, to) + requoted(y, from, to));
}

proof fn lemma_requoted_free(x: Seq<char>, from: char, to: char)
    requires
        free_of(x, from),
    ensures
        requoted(x, from, to) == x,
{
    assert(requoted(x, from, to) =~= x);
}

proof fn lemma_requoted_quoted(a: DbType, b: DbType, name: Seq<char>)
    requires
        free_of(name, a.quote_char()),
    ensures
        requoted(a.quoted(name), a.quote_char(), b.quote_char()) == b.quoted(name),
{
    assert(requoted(a.quoted(name), a.quote_char(), b.quote_char()) =~= b.quoted(name));
}

proof fn lemma_requoted_join(items: Seq<Seq<char>>, separator: Seq<char>, from: char, to: char)
    ensures
        requoted(join(items, separator), from, to) == join(
            Seq::new(items.len(), |i: int| requoted(items[i], from, to)),
            requoted(separator, from, to),
        ),
    decreases items.len(),
{
    let mapped = Seq::new(items.len(), |i: int| requoted(items[i], from, to));
    if items.len() == 0 {
        assert(requoted(Seq::<char>::empty(), from, to) =~= Seq::<char>::empty());
    } else if items.len() == 1 {
    } else {
        let front = items.drop_last();
        lemma_requoted_join(front, separator, from, to);
        assert(mapped.drop_last() =~= Seq::new(front.len(), |i: int| requoted(front[i], from, to)));
        lemma_requoted_add(join(front, separator), separator, from, to);
        lemma_requoted_add(join(front, separator) + separator, items.last(), from, to);
    }
}

/// No quote character occurs in the fixed parts of the statements.
proof fn lemma_fixed_text_has_no_quotes(c: char)
    requires
        is_quote(c),
    ensures
        free_of("SELECT "@, c),
        free_of(" FROM "@, c),
        free_of(" WHERE "@, c),
        free_of(" = ? LIMIT 1"@, c),
        free_of("INSERT INTO "@, c),
        free_of(" ("@, c),
        free_of(") VALUES ("@, c),
        free_of(") RETURNING "@, c),
        free_of("UPDATE "@, c),
        free_of(" SET "@, c),
        free_of(" = ? RETURNING "@, c),
        free_of("DELETE FROM "@, c),
        free_of(" = ?"@, c),
        free_of("."@, c),
        free_of(", "@, c),
        free_of("?"@, c),
{
    reveal_strlit("SELECT ");
    reveal_strlit(" FROM ");
    reveal_strlit(" WHERE ");
    reveal_strlit(" = ? LIMIT 1");
    reveal_strlit("INSERT INTO ");
    reveal_strlit(" (");
    reveal_strlit(") VALUES (");
    reveal_strlit(") RETURNING ");
    reveal_strlit("UPDATE ");
    reveal_strlit(" SET ");
    reveal_strlit(" = ? RETURNING ");
    reveal_strlit("DELETE FROM ");
    reveal_strlit(" = ?");
    reveal_strlit(".");
    reveal_strlit(", ");
    reveal_strlit("?");
}

/// Replacing quote characters in a statement is the same as replacing
/// them in the parts that the statement is written from.
proof fn lemma_requoted_statements(
    table: Seq<char>,
    id_column: Seq<char>,
    column_list: Seq<char>,
    insert_column_list: Seq<char>,
    placeholders: Seq<char>,
    update_set_list: Seq<char>,
    from: char,
    to: char,
)
    requires
        is_quote(from),
    ensures
        requoted(select_text(column_list, table), from, to) == select_text(
            requoted(column_list, from, to),
            requoted(table, from, to),
        ),
        requoted(select_by_id_text(column_list, table, id_column), from, to) == select_by_id_text(
            requoted(column_list, from, to),
            requoted(table, from, to),
            requoted(id_column, from, to),
        ),
        requoted(insert_text(table, insert_column_list, placeholders, column_list), from, to)
            == insert_text(
            requoted(table, from, to),
            requoted(insert_column_list, from, to),
            requoted(placeholders, from, to),
            requoted(column_list, from, to),
        ),
        requoted(update_by_id_text(table, update_set_list, id_column, column_list), from, to)
            == update_by_id_text(
            requoted(table, from, to),
            requoted(update_set_list, from, to),
            requoted(id_column, from, to),
            requoted(column_list, from, to),
        ),
        requoted(delete_by_id_text(table, id_column), from, to) == delete_by_id_text(
            requoted(table, from, to),
            requoted(id_column, from, to),
        ),
{
    lemma_fixed_text_has_no_quotes(from);
    assert(requoted(select_text(column_list, table), from, to) =~= select_text(
        requoted(column_list, from, to),
        requoted(table, from, to),
    ));
    assert(requoted(select_by_id_text(column_list, table, id_column), from, to)
        =~= select_by_id_text(
        requoted(column_list, from, to),
        requoted(table, from, to),
        requoted(id_column, from, to),
    ));
    assert(requoted(insert_text(table, insert_column_list, placeholders, column_list), from, to)
        =~= insert_text(
        requoted(table, from, to),
        requoted(insert_column_list, from, to),
        requoted(placeholders, from, to),
        requoted(column_list, from, to),
    ));
    assert(requoted(update_by_id_text(table, update_set_list, id_column, column_list), from, to)
        =~= update_by_id_text(
        requoted(table, from, to),
        requoted(update_set_list, from, to),
        requoted(id_column, from, to),
        requoted(column_list, from, to),
    ));
    assert(requoted(delete_by_id_text(table, id_column), from, to) =~= delete_by_id_text(
        requoted(table, from, to),
        requoted(id_column, from, to),
    ));
}

/// Replacing the quote characters in the parts of one dialect's statements
/// gives the parts of the other dialect's statements.
proof fn lemma_requoted_parts(a: ModelView, b: ModelView)
    requires
        a.wf(),
        b == (ModelView { dialect: b.dialect, ..a }),
        names_free_of(a, a.dialect.quote_char()),
    ensures
        requoted(a.quoted_table(), a.dialect.quote_char(), b.dialect.quote_char())
            == b.quoted_table(),
        requoted(a.qualified_id(), a.dialect.quote_char(), b.dialect.quote_char())
            == b.qualified_id(),
        requoted(a.column_list(), a.dialect.quote_char(), b.dialect.quote_char())
            == b.column_list(),
        requoted(a.insert_column_list(), a.dialect.quote_char(), b.dialect.quote_char())
            == b.insert_column_list(),
        requoted(a.update_set_list(), a.dialect.quote_char(), b.dialect.quote_char())
            == b.update_set_list(),
        requoted(
            placeholder_list(a.insert_placeholder_count()),
            a.dialect.quote_char(),
            b.dialect.quote_char(),
        ) == placeholder_list(b.insert_placeholder_count()),
{
    let from = a.dialect.quote_char();
    let to = b.dialect.quote_char();
    lemma_fixed_text_has_no_quotes(from);
    lemma_requoted_free("."@, from, to);
    lemma_requoted_free(", "@, from, to);
    lemma_requoted_free(" = ?"@, from, to);
    lemma_requoted_free("?"@, from, to);
    lemma_requoted_quoted(a.dialect, b.dialect, a.table_name);
    assert forall|p: int| 0 <= p < a.fields.len() implies requoted(
        #[trigger] a.quoted_column(p),
        from,
        to,
    ) == b.quoted_column(p) && requoted(a.qualified_column(p), from, to) == b.qualified_column(
        p,
    ) && requoted(a.quoted_column(p) + " = ?"@, from, to) == b.quoted_column(p) + " = ?"@ by {
        assert(free_of(a.fields[p].name, from));
        lemma_requoted_quoted(a.dialect, b.dialect, a.fields[p].name);
        lemma_requoted_add(a.quoted_table(), "."@, from, to);
        lemma_requoted_add(a.quoted_table() + "."@, a.quoted_column(p), from, to);
        lemma_requoted_add(a.quoted_column(p), " = ?"@, from, to);
    }
    assert(requoted(a.qualified_id(), from, to) == b.qualified_id()) by {
        assert(requoted(a.quoted_column(a.id_index), from, to) == b.quoted_column(a.id_index));
    }

    lemma_requoted_join(a.column_items(), ", "@, from, to);
    assert(Seq::new(a.column_items().len(), |i: int| requoted(a.column_items()[i], from, to))
        =~= b.column_items()) by {
        assert forall|i: int| 0 <= i < a.fields.len() implies requoted(
            a.column_items()[i],
            from,
            to,
        ) == b.column_items()[i] by {
            assert(requoted(a.quoted_column(i), from, to) == b.quoted_column(i));
        }
    }

    assert(a.all_positions() =~= b.all_positions());
    assert(a.other_positions() =~= b.other_positions());
    lemma_requoted_join(a.insert_column_items(), ", "@, from, to);
    assert(Seq::new(
        a.insert_column_items().len(),
        |i: int| requoted(a.insert_column_items()[i], from, to),
    ) =~= b.insert_column_items()) by {
        assert forall|i: int| 0 <= i < a.insert_positions().len() implies requoted(
            a.insert_column_items()[i],
            from,
            to,
        ) == b.insert_column_items()[i] by {
            let p = a.insert_positions()[i];
            assert(0 <= p < a.fields.len());
            assert(requoted(a.quoted_column(p), from, to) == b.quoted_column(p));
        }
    }

    lemma_requoted_join(a.update_set_items(), ", "@, from, to);
    assert(Seq::new(
        a.update_set_items().len(),
        |i: int| requoted(a.update_set_items()[i], from, to),
    ) =~= b.update_set_items()) by {
        assert forall|i: int| 0 <= i < a.other_positions().len() implies requoted(
            a.update_set_items()[i],
            from,
            to,
        ) == b.update_set_items()[i] by {
            let p = a.other_positions()[i];
            assert(0 <= p < a.fields.len());
            assert(requoted(a.quoted_column(p), from, to) == b.quoted_column(p));
        }
    }

    let marks = Seq::new(a.insert_placeholder_count() as nat, |k: int| "?"@);
    lemma_requoted_join(marks, ", "@, from, to);
    assert(Seq::new(marks.len(), |i: int| requoted(marks[i], from, to)) =~= marks);
}

/// The statements of one record type in two dialects differ in their quote
/// characters alone: with every quote character of the one dialect
/// replaced by that of the other, each statement of the one is the
/// statement of the other. No name may contain the quote character that is
/// replaced.
pub proof fn lemma_dialects_differ_in_quotes_alone(a: ModelView, b: ModelView)
    requires
        a.wf(),
        b == (ModelView { dialect: b.dialect, ..a }),
        names_free_of(a, a.dialect.quote_char()),
    ensures
        b.select_sql() == requoted(
            a.select_sql(),
            a.dialect.quote_char(),
            b.dialect.quote_char(),
        ),
        b.select_by_id_sql() == requoted(
            a.select_by_id_sql(),
            a.dialect.quote_char(),
            b.dialect.quote_char(),
        ),
        b.insert_sql() == requoted(
            a.insert_sql(),
            a.dialect.quote_char(),
            b.dialect.quote_char(),
        ),
        b.update_by_id_sql() == requoted(
            a.update_by_id_sql(),
            a.dialect.quote_char(),
            b.dialect.quote_char(),
        ),
        b.delete_by_id_sql() == requoted(
            a.delete_by_id_sql(),
            a.dialect.quote_char(),
            b.dialect.quote_char(),
        ),
{
    lemma_requoted_parts(a, b);
    lemma_requoted_statements(
        a.quoted_table(),
        a.qualified_id(),
        a.column_list(),
        a.insert_column_list(),
        placeholder_list(a.insert_placeholder_count()),
        a.update_set_list(),
        a.dialect.quote_char(),
        b.dialect.quote_char(),
    );
}

} // verus!
