//! The binding plan: which field's value goes to which placeholder.
//!
//! A statement's placeholders are filled by position. For each statement
//! that takes parameters, the plan lists the positions of the fields whose
//! values are bound, in the order of the placeholders.

use crate::model::{ModelDescriptor, ModelView};
use vstd::prelude::*;

verus! {

/// A list of field positions, as mathematical integers.
pub open spec fn positions_of(positions: Seq<usize>) -> Seq<int> {
    Seq::new(positions.len(), |k: int| positions[k] as int)
}

impl ModelView {
    /// The positions of all fields, in declaration order.
    pub open spec fn all_positions(self) -> Seq<int> {
        Seq::new(self.fields.len(), |k: int| k)
    }

    /// The positions of all fields but the identity field, in declaration
    /// order: the `k`-th of them is `k` before the identity field and
    /// `k + 1` after it.
    pub open spec fn other_positions(self) -> Seq<int> {
        Seq::new(
            (self.fields.len() - 1) as nat,
            |k: int|
                if k < self.id_index {
                    k
                } else {
                    k + 1
                },
        )
    }

    /// The values bound to an insert: every field, in declaration order,
    /// whether or not identity values are supplied by the caller. Where
    /// they are not, the identity field's value is bound although the
    /// insert has no placeholder for it: `insert_positions` lists the
    /// fields that the placeholders stand for.
    pub open spec fn insert_bind_order(self) -> Seq<int> {
        self.all_positions()
    }

    /// The values bound to an update by id: every field but the identity
    /// field, in declaration order, and then the identity field.
    pub open spec fn update_bind_order(self) -> Seq<int> {
        self.other_positions().push(self.id_index)
    }

    /// The one value bound to a select by id or a delete by id: the
    /// identity field.
    pub open spec fn by_id_bind_order(self) -> Seq<int> {
        seq![self.id_index]
    }
}

impl ModelDescriptor {
    /// The positions of all fields, in declaration order.
    pub fn all_positions(&self) -> (positions: Vec<usize>)
        ensures
            positions_of(positions@) == self@.all_positions(),
    {
        let count = self.fields().len();
        let mut positions: Vec<usize> = Vec::new();
        let mut i: usize = 0;
        while i < count
            invariant
                i <= count,
                count == self@.fields.len(),
                positions@.len() == i,
                forall|k: int| 0 <= k < i ==> positions@[k] == k,
            decreases count - i,
        {
            positions.push(i);
            i += 1;
        }
        proof {
            assert(positions_of(positions@) =~= self@.all_positions());
        }
        positions
    }

    /// The positions of all fields but the identity field, in declaration
    /// order.
    pub fn other_positions(&self) -> (positions: Vec<usize>)
        ensures
            positions_of(positions@) == self@.other_positions(),
    {
        let count = self.fields().len();
        let id = self.id_index();
        let mut positions: Vec<usize> = Vec::new();
        let mut i: usize = 0;
        while i < count
            invariant
                i <= count,
                count == self@.fields.len(),
                id == self@.id_index,
                id < count,
                positions@.len() == if i <= id {
                    i as int
                } else {
                    i - 1
                },
                forall|k: int|
                    0 <= k < positions@.len() ==> positions@[k] as int == self@.other_positions()[k],
            decreases count - i,
        {
            if i != id {
                positions.push(i);
            }
            i += 1;
        }
        proof {
            assert(positions_of(positions@) =~= self@.other_positions());
        }
        positions
    }

    /// The order in which field values are bound to an insert.
    pub fn insert_bind_order(&self) -> (order: Vec<usize>)
        ensures
            positions_of(order@) == self@.insert_bind_order(),
    {
        self.all_positions()
    }

    /// The order in which field values are bound to an update by id.
    pub fn update_bind_order(&self) -> (order: Vec<usize>)
        ensures
            positions_of(order@) == self@.update_bind_order(),
    {
        let mut order = self.other_positions();
        let ghost others = order@;
        order.push(self.id_index());
        proof {
            assert(positions_of(order@) =~= positions_of(others).push(self@.id_index));
        }
        order
    }

    /// The order in which field values are bound to a select by id or a
    /// delete by id.
    pub fn by_id_bind_order(&self) -> (order: Vec<usize>)
        ensures
            positions_of(order@) == self@.by_id_bind_order(),
    {
        let mut order: Vec<usize> = Vec::new();
        order.push(self.id_index());
        proof {
            assert(positions_of(order@) =~= self@.by_id_bind_order());
        }
        order
    }
}

/// The binding orders of the statements that take parameters.
#[derive(Debug)]
pub struct BindingPlan {
    /// The fields bound to an insert.
    pub insert: Vec<usize>,
    /// The fields bound to an update by id.
    pub update_by_id: Vec<usize>,
    /// The field bound to a select by id.
    pub select_by_id: Vec<usize>,
    /// The field bound to a delete by id.
    pub delete_by_id: Vec<usize>,
}

/// The binding orders, as lists of mathematical integers.
pub struct BindingPlanView {
    pub insert: Seq<int>,
    pub update_by_id: Seq<int>,
    pub select_by_id: Seq<int>,
    pub delete_by_id: Seq<int>,
}

impl View for BindingPlan {
    type V = BindingPlanView;

    open spec fn view(&self) -> BindingPlanView {
        BindingPlanView {
            insert: positions_of(self.insert@),
            update_by_id: positions_of(self.update_by_id@),
            select_by_id: positions_of(self.select_by_id@),
            delete_by_id: positions_of(self.delete_by_id@),
        }
    }
}

impl ModelView {
    /// The binding plan of a record type.
    pub open spec fn binding_plan(self) -> BindingPlanView {
        BindingPlanView {
            insert: self.insert_bind_order(),
            update_by_id: self.update_bind_order(),
            select_by_id: self.by_id_bind_order(),
            delete_by_id: self.by_id_bind_order(),
        }
    }
}

/// Derives the binding plan of a record type.
pub fn build_binding_plan(model: &ModelDescriptor) -> (plan: BindingPlan)
    ensures
        plan@ == model@.binding_plan(),
{
    BindingPlan {
        insert: model.insert_bind_order(),
        update_by_id: model.update_bind_order(),
        select_by_id: model.by_id_bind_order(),
        delete_by_id: model.by_id_bind_order(),
    }
}

/// Whether every position of a binding order names a field of a record
/// with `count` fields.
pub open spec fn in_range(order: Seq<usize>, count: nat) -> bool {
    forall|k: int| 0 <= k < order.len() ==> order[k] < count
}

/// Takes from a record, given as the values of its fields in declaration
/// order, the values to bind: the `k`-th value returned is the value of the
/// field at the `k`-th position of the order. Nothing is converted or
/// checked.
pub fn bind_values<'a, T>(order: &Vec<usize>, record: &'a Vec<T>) -> (values: Vec<&'a T>)
    requires
        in_range(order@, record@.len()),
    ensures
        values@.len() == order@.len(),
        forall|k: int| 0 <= k < order@.len() ==> *values@[k] == record@[order@[k] as int],
{
    let mut values: Vec<&'a T> = Vec::new();
    let mut i: usize = 0;
    while i < order.len()
        invariant
            i <= order.len(),
            in_range(order@, record@.len()),
            values@.len() == i,
            forall|k: int| 0 <= k < i ==> *values@[k] == record@[order@[k] as int],
        decreases order.len() - i,
    {
        values.push(&record[order[i]]);
        i += 1;
    }
    values
}

} // verus!
