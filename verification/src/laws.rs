//! What holds of every descriptor, proved from the definitions of the
//! generator and of the binding plan.

use crate::metadata::GeneratedMetadata;
use crate::model::{last_id_candidate, lemma_last_id_candidate, resolved_id, FieldView};
use crate::model::{ModelDescriptor, ModelView};
use crate::text::join;
use vstd::prelude::*;

verus! {

/// The test "is another position than `id`".
pub open spec fn is_not(id: int) -> spec_fn(int) -> bool {
    |p: int| p != id
}

/// Whether no two fields have the same name.
pub open spec fn distinct_names(fields: Seq<FieldView>) -> bool {
    forall|i: int, j: int|
        0 <= i < j < fields.len() ==> (#[trigger] fields[i]).name != (#[trigger] fields[j]).name
}

/// Where exactly one field carries the identity annotation, it is the
/// identity field.
pub proof fn lemma_single_annotation_wins(fields: Seq<FieldView>, p: int)
    requires
        0 <= p < fields.len(),
        forall|j: int| 0 <= j < fields.len() ==> (fields[j].is_id_candidate <==> j == p),
    ensures
        resolved_id(last_id_candidate(fields)) == p,
{
    lemma_last_id_candidate(fields);
    assert(fields[p].is_id_candidate);
}

/// Where no field carries the identity annotation, the first declared field
/// is the identity field.
pub proof fn lemma_first_field_is_default(fields: Seq<FieldView>)
    requires
        forall|j: int| 0 <= j < fields.len() ==> !fields[j].is_id_candidate,
    ensures
        resolved_id(last_id_candidate(fields)) == 0,
{
    lemma_last_id_candidate(fields);
}

/// Where several fields carry the identity annotation, the last of them is
/// the identity field.
pub proof fn lemma_last_annotation_wins(fields: Seq<FieldView>, p: int)
    requires
        0 <= p < fields.len(),
        fields[p].is_id_candidate,
        forall|j: int| p < j < fields.len() ==> !fields[j].is_id_candidate,
    ensures
        resolved_id(last_id_candidate(fields)) == p,
{
    lemma_last_id_candidate(fields);
}

/// The column list names every field exactly once, in declaration order:
/// its `i`-th item is the `i`-th field's quoted name, qualified with the
/// quoted table name.
pub proof fn lemma_column_list_covers_fields(m: ModelView)
    requires
        m.wf(),
    ensures
        m.column_items().len() == m.fields.len(),
        forall|i: int|
            0 <= i < m.fields.len() ==> #[trigger] m.column_items()[i] == m.dialect.quoted(
                m.table_name,
            ) + "."@ + m.dialect.quoted(m.fields[i].name),
        m.column_list() == join(m.column_items(), ", "@),
{
}

/// The positions other than the identity field are exactly those that the
/// filter "is not the identity field" leaves of all positions.
pub proof fn lemma_other_positions_filter(m: ModelView)
    requires
        m.wf(),
    ensures
        m.other_positions() == m.all_positions().filter(is_not(m.id_index)),
{
    lemma_filtered_prefix(m, m.fields.len() as int);
    assert(m.all_positions().take(m.fields.len() as int) =~= m.all_positions());
    assert(m.other_positions().take(m.fields.len() - 1) =~= m.other_positions());
}

proof fn lemma_filtered_prefix(m: ModelView, j: int)
    requires
        m.wf(),
        0 <= j <= m.fields.len(),
    ensures
        m.all_positions().take(j).filter(is_not(m.id_index)) == m.other_positions().take(
            if j <= m.id_index {
                j
            } else {
                j - 1
            },
        ),
    decreases j,
{
    reveal(Seq::filter);
    let prefix = m.all_positions().take(j);
    let kept = if j <= m.id_index {
        j
    } else {
        j - 1
    };
    if j == 0 {
        assert(prefix.filter(is_not(m.id_index)) =~= m.other_positions().take(0));
    } else {
        lemma_filtered_prefix(m, j - 1);
        assert(prefix.drop_last() =~= m.all_positions().take(j - 1));
        assert(prefix.last() == j - 1);
        if j - 1 == m.id_index {
            assert(!is_not(m.id_index)(prefix.last()));
        } else {
            assert(is_not(m.id_index)(prefix.last()));
            assert(m.other_positions().take(kept - 1).push(j - 1) =~= m.other_positions().take(
                kept,
            ));
        }
    }
}

/// An insert names the identity column if and only if identity values are
/// supplied by the caller. It names every other column in either case, and
/// all of them in declaration order.
pub proof fn lemma_insert_names_id_iff_external(m: ModelView)
    requires
        m.wf(),
    ensures
        m.insert_positions().contains(m.id_index) <==> m.external_id,
        forall|p: int|
            0 <= p < m.fields.len() && p != m.id_index ==> m.insert_positions().contains(p),
        forall|k: int|
            0 <= k < m.insert_positions().len() ==> 0 <= #[trigger] m.insert_positions()[k]
                < m.fields.len(),
        forall|a: int, b: int|
            0 <= a < b < m.insert_positions().len() ==> #[trigger] m.insert_positions()[a]
                < #[trigger] m.insert_positions()[b],
        m.insert_column_items().len() == m.insert_positions().len(),
        forall|k: int|
            0 <= k < m.insert_positions().len() ==> #[trigger] m.insert_column_items()[k]
                == m.dialect.quoted(m.fields[m.insert_positions()[k]].name),
{
    let positions = m.insert_positions();
    if m.external_id {
        assert(positions[m.id_index] == m.id_index);
    }
    assert forall|p: int| 0 <= p < m.fields.len() && p != m.id_index implies positions.contains(
        p,
    ) by {
        if m.external_id {
            assert(positions[p] == p);
        } else if p < m.id_index {
            assert(positions[p] == p);
        } else {
            assert(positions[p - 1] == p);
        }
    }
}

/// An insert has as many placeholders as it names columns.
pub proof fn lemma_insert_placeholders_match_columns(m: ModelView)
    requires
        m.wf(),
    ensures
        m.insert_placeholder_count() == m.insert_column_items().len(),
        m.insert_placeholder_count() >= 0,
{
}

/// The values bound to an insert are as many as its placeholders if and
/// only if identity values are supplied by the caller; otherwise there is
/// one value more, that of the identity field.
pub proof fn lemma_insert_binds_and_placeholders(m: ModelView)
    requires
        m.wf(),
    ensures
        m.insert_bind_order().len() == m.fields.len(),
        m.external_id ==> m.insert_bind_order().len() == m.insert_placeholder_count(),
        !m.external_id ==> m.insert_bind_order().len() == m.insert_placeholder_count() + 1,
        m.external_id ==> m.insert_bind_order() == m.insert_positions(),
{
}

/// An update never assigns the identity column, and assigns every other
/// column once, in declaration order.
pub proof fn lemma_update_skips_id(m: ModelView)
    requires
        m.wf(),
    ensures
        !m.other_positions().contains(m.id_index),
        m.update_set_items().len() == m.fields.len() - 1,
        forall|p: int|
            0 <= p < m.fields.len() && p != m.id_index ==> m.other_positions().contains(p),
        forall|a: int, b: int|
            0 <= a < b < m.other_positions().len() ==> #[trigger] m.other_positions()[a]
                < #[trigger] m.other_positions()[b],
        forall|k: int|
            0 <= k < m.other_positions().len() ==> #[trigger] m.update_set_items()[k]
                == m.dialect.quoted(m.fields[m.other_positions()[k]].name) + " = ?"@,
        distinct_names(m.fields) ==> forall|k: int|
            0 <= k < m.other_positions().len() ==> m.fields[#[trigger] m.other_positions()[k]].name
                != m.id_column(),
{
    let positions = m.other_positions();
    assert forall|p: int| 0 <= p < m.fields.len() && p != m.id_index implies positions.contains(
        p,
    ) by {
        if p < m.id_index {
            assert(positions[p] == p);
        } else {
            assert(positions[p - 1] == p);
        }
    }
}

/// The values bound to an update are one for every assignment and one for
/// the condition. The identity field's value is the last of them, and
/// stands nowhere before.
pub proof fn lemma_update_binds_id_last(m: ModelView)
    requires
        m.wf(),
    ensures
        m.update_bind_order().len() == m.update_set_items().len() + 1,
        m.update_bind_order().last() == m.id_index,
        forall|k: int|
            0 <= k < m.update_bind_order().len() - 1 ==> #[trigger] m.update_bind_order()[k]
                != m.id_index,
        m.update_bind_order().drop_last() == m.other_positions(),
{
    assert(m.update_bind_order().drop_last() =~= m.other_positions());
}

/// Generation is a function of the descriptor: metadata generated from
/// descriptors that hold the same values is the same, text for text.
pub proof fn lemma_generation_is_deterministic(
    a: ModelDescriptor,
    b: ModelDescriptor,
    first: GeneratedMetadata,
    second: GeneratedMetadata,
)
    requires
        a@ == b@,
        first@ == a@.metadata(),
        second@ == b@.metadata(),
    ensures
        first@ == second@,
{
}

} // verus!
