//! Statements and binding orders in lock-step.
//!
//! A statement is sent with one value for each of its placeholders. The
//! number of placeholders in the text of each statement is therefore held
//! against the length of its binding order.

use crate::model::ModelView;
use crate::quoting::{free_of, names_free_of};
use crate::sql::{
    delete_by_id_text, insert_text, placeholder_list, select_by_id_text, select_text,
    update_by_id_text,
};
use crate::text::join;
use vstd::prelude::*;

verus! {

/// How often a character occurs in a text.
pub open spec fn count_of(text: Seq<char>, c: char) -> nat
    decreases text.len(),
{
    if text.len() == 0 {
        0
    } else {
        count_of(text.drop_last(), c) + if text.last() == c {
            1nat
        } else {
            0nat
        }
    }
}

proof fn lemma_count_add(x: Seq<char>, y: Seq<char>, c: char)
    ensures
        count_of(x + y, c) == count_of(x, c) + count_of(y, c),
    decreases y.len(),
{
    if y.len() == 0 {
        assert(x + y =~= x);
    } else {
        lemma_count_add(x, y.drop_last(), c);
        assert((x + y).drop_last() =~= x + y.drop_last());
        assert((x + y).last() == y.last());
    }
}

proof fn lemma_count_free(x: Seq<char>, c: char)
    requires
        free_of(x, c),
    ensures
        count_of(x, c) == 0,
    decreases x.len(),
{
    if x.len() > 0 {
        lemma_count_free(x.drop_last(), c);
    }
}

proof fn lemma_count_join(items: Seq<Seq<char>>, separator: Seq<char>, c: char, each: nat)
    requires
        free_of(separator, c),
        forall|i: int| 0 <= i < items.len() ==> count_of(#[trigger] items[i], c) == each,
    ensures
        count_of(join(items, separator), c) == items.len() * each,
    decreases items.len(),
{
    if items.len() == 0 {
    } else if items.len() == 1 {
        assert(items.len() * each == each) by (nonlinear_arith)
            requires
                items.len() == 1,
        ;
    } else {
        let front = items.drop_last();
        lemma_count_join(front, separator, c, each);
        lemma_count_free(separator, c);
        lemma_count_add(join(front, separator), separator, c);
        lemma_count_add(join(front, separator) + separator, items.last(), c);
        assert(front.len() * each + each == items.len() * each) by (nonlinear_arith)
            requires
                front.len() + 1 == items.len(),
        ;
    }
}

/// How many placeholders each fixed part of the statements holds.
proof fn lemma_fixed_text_counts()
    ensures
        count_of("SELECT "@, '?') == 0,
        count_of(" FROM "@, '?') == 0,
        count_of(" WHERE "@, '?') == 0,
        count_of(" = ? LIMIT 1"@, '?') == 1,
        count_of("INSERT INTO "@, '?') == 0,
        count_of(" ("@, '?') == 0,
        count_of(") VALUES ("@, '?') == 0,
        count_of(") RETURNING "@, '?') == 0,
        count_of("UPDATE "@, '?') == 0,
        count_of(" SET "@, '?') == 0,
        count_of(" = ? RETURNING "@, '?') == 1,
        count_of("DELETE FROM "@, '?') == 0,
        count_of(" = ?"@, '?') == 1,
        count_of("."@, '?') == 0,
        count_of("?"@, '?') == 1,
        free_of(", "@, '?'),
{
    reveal_strlit("SELECT ");
    reveal_strlit(" FROM ");
    reveal_strlit(" WHERE ");
    reveal_strlit(" = ? LIMIT 1");
    reveal_strlit("INSERT INTO ");
    reveal_strlit(" (");
    reveal_strlit(") VALUES (");
    reveal_strlit(") RETURNING ");
    reveal_strlit("UPDATE ");
    reveal_strlit(" SET ");
    reveal_strlit(" = ? RETURNING ");
    reveal_strlit("DELETE FROM ");
    reveal_strlit(" = ?");
    reveal_strlit(".");
    reveal_strlit(", ");
    reveal_strlit("?");
    reveal_strlit(" = ");
    reveal_strlit(" LIMIT 1");
    reveal_strlit(" RETURNING ");
    lemma_count_free("SELECT "@, '?');
    lemma_count_free(" FROM "@, '?');
    lemma_count_free(" WHERE "@, '?');
    lemma_count_free("INSERT INTO "@, '?');
    lemma_count_free(" ("@, '?');
    lemma_count_free(") VALUES ("@, '?');
    lemma_count_free(") RETURNING "@, '?');
    lemma_count_free("UPDATE "@, '?');
    lemma_count_free(" SET "@, '?');
    lemma_count_free("DELETE FROM "@, '?');
    lemma_count_free("."@, '?');
    lemma_count_free(" = "@, '?');
    lemma_count_free(" LIMIT 1"@, '?');
    lemma_count_free(" RETURNING "@, '?');
    assert(count_of("?"@, '?') == 1) by {
        reveal_with_fuel(count_of, 2);
        assert("?"@.drop_last().len() == 0);
    }
    assert(" = ?"@ =~= " = "@ + "?"@);
    lemma_count_add(" = "@, "?"@, '?');
    assert(" = ? LIMIT 1"@ =~= " = ?"@ + " LIMIT 1"@);
    lemma_count_add(" = ?"@, " LIMIT 1"@, '?');
    assert(" = ? RETURNING "@ =~= " = ?"@ + " RETURNING "@);
    lemma_count_add(" = ?"@, " RETURNING "@, '?');
}

/// The placeholders of a statement are those of the parts that it is
/// written from, and one more for each condition on the id.
proof fn lemma_statement_counts(
    table: Seq<char>,
    id_column: Seq<char>,
    column_list: Seq<char>,
    insert_column_list: Seq<char>,
    placeholders: Seq<char>,
    update_set_list: Seq<char>,
)
    ensures
        count_of(select_text(column_list, table), '?') == count_of(column_list, '?') + count_of(
            table,
            '?',
        ),
        count_of(select_by_id_text(column_list, table, id_column), '?') == count_of(
            column_list,
            '?',
        ) + count_of(table, '?') + count_of(id_column, '?') + 1,
        count_of(insert_text(table, insert_column_list, placeholders, column_list), '?')
            == count_of(table, '?') + count_of(insert_column_list, '?') + count_of(
            placeholders,
            '?',
        ) + count_of(column_list, '?'),
        count_of(update_by_id_text(table, update_set_list, id_column, column_list), '?')
            == count_of(table, '?') + count_of(update_set_list, '?') + count_of(id_column, '?')
            + 1 + count_of(column_list, '?'),
        count_of(delete_by_id_text(table, id_column), '?') == count_of(table, '?') + count_of(
            id_column,
            '?',
        ) + 1,
{
    lemma_fixed_text_counts();
    let c = '?';

    let s1 = "SELECT "@ + column_list;
    let s2 = s1 + " FROM "@;
    let s3 = s2 + table;
    lemma_count_add("SELECT "@, column_list, c);
    lemma_count_add(s1, " FROM "@, c);
    lemma_count_add(s2, table, c);
    let s4 = s3 + " WHERE "@;
    let s5 = s4 + id_column;
    lemma_count_add(s3, " WHERE "@, c);
    lemma_count_add(s4, id_column, c);
    lemma_count_add(s5, " = ? LIMIT 1"@, c);

    let i1 = "INSERT INTO "@ + table;
    let i2 = i1 + " ("@;
    let i3 = i2 + insert_column_list;
    let i4 = i3 + ") VALUES ("@;
    let i5 = i4 + placeholders;
    let i6 = i5 + ") RETURNING "@;
    lemma_count_add("INSERT INTO "@, table, c);
    lemma_count_add(i1, " ("@, c);
    lemma_count_add(i2, insert_column_list, c);
    lemma_count_add(i3, ") VALUES ("@, c);
    lemma_count_add(i4, placeholders, c);
    lemma_count_add(i5, ") RETURNING "@, c);
    lemma_count_add(i6, column_list, c);

    let u1 = "UPDATE "@ + table;
    let u2 = u1 + " SET "@;
    let u3 = u2 + update_set_list;
    let u4 = u3 + " WHERE "@;
    let u5 = u4 + id_column;
    let u6 = u5 + " = ? RETURNING "@;
    lemma_count_add("UPDATE "@, table, c);
    lemma_count_add(u1, " SET "@, c);
    lemma_count_add(u2, update_set_list, c);
    lemma_count_add(u3, " WHERE "@, c);
    lemma_count_add(u4, id_column, c);
    lemma_count_add(u5, " = ? RETURNING "@, c);
    lemma_count_add(u6, column_list, c);

    let d1 = "DELETE FROM "@ + table;
    let d2 = d1 + " WHERE "@;
    let d3 = d2 + id_column;
    lemma_count_add("DELETE FROM "@, table, c);
    lemma_count_add(d1, " WHERE "@, c);
    lemma_count_add(d2, id_column, c);
    lemma_count_add(d3, " = ?"@, c);
}

/// A quoted name holds no placeholder unless the name itself does.
proof fn lemma_quoted_name_count(m: ModelView, name: Seq<char>)
    requires
        free_of(name, '?'),
    ensures
        count_of(m.dialect.quoted(name), '?') == 0,
{
    assert(free_of(m.dialect.quoted(name), '?'));
    lemma_count_free(m.dialect.quoted(name), '?');
}

/// How many placeholders the parts of the statements hold.
proof fn lemma_part_counts(m: ModelView)
    requires
        m.wf(),
        names_free_of(m, '?'),
    ensures
        count_of(m.quoted_table(), '?') == 0,
        count_of(m.qualified_id(), '?') == 0,
        count_of(m.column_list(), '?') == 0,
        count_of(m.insert_column_list(), '?') == 0,
        count_of(m.update_set_list(), '?') == m.fields.len() - 1,
        count_of(placeholder_list(m.insert_placeholder_count()), '?')
            == m.insert_placeholder_count(),
{
    let c = '?';
    lemma_fixed_text_counts();
    lemma_quoted_name_count(m, m.table_name);
    assert forall|p: int| 0 <= p < m.fields.len() implies count_of(
        #[trigger] m.quoted_column(p),
        c,
    ) == 0 && count_of(m.qualified_column(p), c) == 0 && count_of(
        m.quoted_column(p) + " = ?"@,
        c,
    ) == 1 by {
        assert(free_of(m.fields[p].name, c));
        lemma_quoted_name_count(m, m.fields[p].name);
        lemma_count_add(m.quoted_table(), "."@, c);
        lemma_count_add(m.quoted_table() + "."@, m.quoted_column(p), c);
        lemma_count_add(m.quoted_column(p), " = ?"@, c);
    }
    assert(count_of(m.qualified_id(), c) == 0) by {
        assert(count_of(m.quoted_column(m.id_index), c) == 0);
    }

    assert forall|i: int| 0 <= i < m.column_items().len() implies count_of(
        #[trigger] m.column_items()[i],
        c,
    ) == 0 by {
        assert(count_of(m.quoted_column(i), c) == 0);
    }
    lemma_count_join(m.column_items(), ", "@, c, 0);

    assert forall|i: int| 0 <= i < m.insert_column_items().len() implies count_of(
        #[trigger] m.insert_column_items()[i],
        c,
    ) == 0 by {
        let p = m.insert_positions()[i];
        assert(0 <= p < m.fields.len());
        assert(count_of(m.quoted_column(p), c) == 0);
    }
    lemma_count_join(m.insert_column_items(), ", "@, c, 0);

    assert forall|i: int| 0 <= i < m.update_set_items().len() implies count_of(
        #[trigger] m.update_set_items()[i],
        c,
    ) == 1 by {
        let p = m.other_positions()[i];
        assert(0 <= p < m.fields.len());
        assert(count_of(m.quoted_column(p), c) == 0);
    }
    lemma_count_join(m.update_set_items(), ", "@, c, 1);

    let marks = Seq::new(m.insert_placeholder_count() as nat, |k: int| "?"@);
    lemma_count_join(marks, ", "@, c, 1);
}

/// Each statement holds exactly as many placeholders as values are bound
/// to it: none for a select of all records, one for a select or a delete
/// by id, one for each named column for an insert, and one for each
/// assignment and one for the id for an update. No name may contain the
/// placeholder character.
pub proof fn lemma_placeholders_match_binding_orders(m: ModelView)
    requires
        m.wf(),
        names_free_of(m, '?'),
    ensures
        count_of(m.select_sql(), '?') == 0,
        count_of(m.select_by_id_sql(), '?') == m.by_id_bind_order().len(),
        count_of(m.delete_by_id_sql(), '?') == m.by_id_bind_order().len(),
        count_of(m.update_by_id_sql(), '?') == m.update_bind_order().len(),
        count_of(m.insert_sql(), '?') == m.insert_positions().len(),
        count_of(m.insert_sql(), '?') == m.insert_placeholder_count(),
        m.external_id ==> count_of(m.insert_sql(), '?') == m.insert_bind_order().len(),
        !m.external_id ==> count_of(m.insert_sql(), '?') + 1 == m.insert_bind_order().len(),
{
    lemma_part_counts(m);
    lemma_statement_counts(
        m.quoted_table(),
        m.qualified_id(),
        m.column_list(),
        m.insert_column_list(),
        placeholder_list(m.insert_placeholder_count()),
        m.update_set_list(),
    );
}

} // verus!
