//! The filter: keeps the deltas whose rows meet every constraint.

use vstd::prelude::*;
use super::data::{
    deltas, retracted, values, Column, Comparison, DataType, Delta, Row, RowUpdate, Updates, Value,
};
use super::Operation;

verus! {

/// What a constraint asks of a value.
pub enum Constraint {
    /// The value compares as named with the given one.
    Comparison(Comparison, DataType),
    /// The value is one of the given ones.
    In(Vec<DataType>),
}

impl Constraint {
    /// Whether a value meets the constraint.
    pub open spec fn matches(&self, v: Value) -> bool {
        match *self {
            Constraint::Comparison(op, d) => op.holds(v, d@),
            Constraint::In(set) => values(set@).contains(v),
        }
    }

    /// Tests a value against the constraint.
    pub fn test(&self, v: &DataType) -> (r: bool)
        ensures
            r == self.matches(v@),
    {
        match self {
            Constraint::Comparison(op, d) => op.compare(v, d),
            Constraint::In(set) => is_among(v, set),
        }
    }
}

/// Whether a value is one of the listed ones.
pub fn is_among(v: &DataType, set: &Vec<DataType>) -> (r: bool)
    ensures
        r == values(set@).contains(v@),
{
    let mut i: usize = 0;
    while i < set.len()
        invariant
            i <= set.len(),
            forall|j: int| 0 <= j < i ==> values(set@)[j] != v@,
        decreases set.len() - i,
    {
        if set[i].same(v) {
            assert(values(set@)[i as int] == v@);
            return true;
        }
        i += 1;
    }
    false
}

/// A constraint on one column of a row.
pub struct ColumnConstraint {
    pub column: Column,
    pub constraint: Constraint,
}

/// Removes every delta whose row fails one of the constraints.
/// Additions and retractions are tested alike and keep their tag.
pub struct Filter {
    pub constraints: Vec<ColumnConstraint>,
}

impl Filter {
    /// Whether every constrained column exists in a row of the given width.
    pub open spec fn in_range(&self, width: nat) -> bool {
        forall|i: int| 0 <= i < self.constraints@.len() ==> self.constraints@[i].column < width
    }

    /// Whether a row meets every constraint.
    pub open spec fn keeps(&self, row: Seq<Value>) -> bool {
        forall|i: int|
            0 <= i < self.constraints@.len() ==> self.constraints@[i].constraint.matches(
                row[self.constraints@[i].column as int],
            )
    }

    /// Whether every constrained column exists in the row.
    pub fn fits(&self, row: &Row) -> (r: bool)
        ensures
            r == self.in_range(row@.len()),
    {
        let mut i: usize = 0;
        while i < self.constraints.len()
            invariant
                i <= self.constraints.len(),
                forall|j: int| 0 <= j < i ==> self.constraints@[j].column < row@.len(),
            decreases self.constraints.len() - i,
        {
            if self.constraints[i].column >= row.data.len() {
                return false;
            }
            i += 1;
        }
        true
    }

    /// Whether every row of the batch has every constrained column.
    pub fn admits(&self, updates: &Updates) -> (r: bool)
        ensures
            r == self.accepts(updates.batch()),
    {
        let mut i: usize = 0;
        while i < updates.updates.len()
            invariant
                i <= updates.updates.len(),
                forall|j: int| 0 <= j < i ==> self.in_range(updates.batch()[j].row.len()),
            decreases updates.updates.len() - i,
        {
            if !self.fits(updates.updates[i].row()) {
                assert(!self.in_range(updates.batch()[i as int].row.len()));
                return false;
            }
            i += 1;
        }
        true
    }

    /// Tests a row against every constraint.
    pub fn passes(&self, row: &Row) -> (r: bool)
        requires
            self.in_range(row@.len()),
        ensures
            r == self.keeps(row@),
    {
        let mut i: usize = 0;
        while i < self.constraints.len()
            invariant
                i <= self.constraints.len(),
                self.in_range(row@.len()),
                forall|j: int|
                    0 <= j < i ==> self.constraints@[j].constraint.matches(
                        row@[self.constraints@[j].column as int],
                    ),
            decreases self.constraints.len() - i,
        {
            let c = &self.constraints[i];
            if !c.constraint.test(&row.data[c.column]) {
                return false;
            }
            i += 1;
        }
        true
    }
}

impl Operation for Filter {
    open spec fn well_formed(&self) -> bool {
        true
    }

    open spec fn accepts(&self, batch: Seq<Delta>) -> bool {
        forall|j: int| 0 <= j < batch.len() ==> self.in_range(batch[j].row.len())
    }

    open spec fn follows(&self, batch: Seq<Delta>, next: &Self) -> bool {
        *next == *self
    }

    open spec fn abandons(&self, batch: Seq<Delta>, next: &Self) -> bool {
        *next == *self
    }

    open spec fn emits(&self, batch: Seq<Delta>) -> Seq<Delta> {
        batch.filter(|d: Delta| self.keeps(d.row))
    }

    fn process(&mut self, updates: Updates) -> (out: Vec<RowUpdate>) {
        let ghost batch = updates.batch();
        let ghost keep = |d: Delta| self.keeps(d.row);
        let mut out: Vec<RowUpdate> = Vec::new();
        let mut i: usize = 0;
        while i < updates.updates.len()
            invariant
                i <= updates.updates.len(),
                batch == updates.batch(),
                keep == |d: Delta| self.keeps(d.row),
                self.accepts(batch),
                deltas(out@) == batch.take(i as int).filter(keep),
            decreases updates.updates.len() - i,
        {
            let update = &updates.updates[i];
            assert(update@ == batch[i as int]);
            let kept = self.passes(update.row());
            proof {
                reveal(Seq::filter);
                assert(batch.take(i + 1).drop_last() =~= batch.take(i as int));
                assert(batch.take(i + 1).last() == update@);
            }
            if kept {
                out.push(update.clone());
                assert(deltas(out@) =~= batch.take(i as int).filter(keep).push(update@));
            }
            i += 1;
        }
        assert(batch.take(i as int) =~= batch);
        out
    }

    fn try_process(&mut self, updates: Updates) -> (out: Option<Vec<RowUpdate>>) {
        if self.admits(&updates) {
            Some(self.process(updates))
        } else {
            None
        }
    }
}

/// A filter without constraints passes every batch on unchanged.
pub proof fn empty_filter_is_transparent(filter: Filter, batch: Seq<Delta>)
    requires
        filter.constraints@.len() == 0,
    ensures
        filter.accepts(batch),
        filter.emits(batch) == batch,
    decreases batch.len(),
{
    let keep = |d: Delta| filter.keeps(d.row);
    reveal(Seq::filter);
    if batch.len() > 0 {
        empty_filter_is_transparent(filter, batch.drop_last());
        assert(keep(batch.last()));
        assert(batch.drop_last().push(batch.last()) =~= batch);
    }
}

/// A filter treats retractions as it treats additions: what it emits for
/// the retraction of a batch is the retraction of what it emits for the batch.
pub proof fn filter_treats_retractions_alike(filter: Filter, batch: Seq<Delta>)
    ensures
        filter.accepts(retracted(batch)) == filter.accepts(batch),
        filter.emits(retracted(batch)) == retracted(filter.emits(batch)),
    decreases batch.len(),
{
    let keep = |d: Delta| filter.keeps(d.row);
    reveal(Seq::filter);
    if filter.accepts(batch) {
        assert forall|j: int| 0 <= j < retracted(batch).len() implies filter.in_range(
            retracted(batch)[j].row.len(),
        ) by {
            assert(retracted(batch)[j].row == batch[j].row);
        }
    }
    if filter.accepts(retracted(batch)) {
        assert forall|j: int| 0 <= j < batch.len() implies filter.in_range(batch[j].row.len()) by {
            assert(retracted(batch)[j].row == batch[j].row);
        }
    }
    if batch.len() > 0 {
        filter_treats_retractions_alike(filter, batch.drop_last());
        assert(retracted(batch).drop_last() =~= retracted(batch.drop_last()));
        let kept = batch.drop_last().filter(keep);
        if keep(batch.last()) {
            assert(retracted(kept.push(batch.last())) =~= retracted(kept).push(
                retracted(batch).last(),
            ));
        }
    } else {
        assert(retracted(filter.emits(batch)) =~= filter.emits(retracted(batch)));
    }
}

} // verus!
