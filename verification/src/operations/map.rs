//! The projection: builds each output row from a list of sources.

use vstd::prelude::*;
use super::data::{deltas, DataType, Delta, Row, RowUpdate, Source, Updates, Value};
use super::Operation;

verus! {

/// Whether every source can be read from a row of the given width.
pub open spec fn sources_in_range(sources: Seq<Source>, width: nat) -> bool {
    forall|i: int| 0 <= i < sources.len() ==> sources[i].in_range(width)
}

/// The row that the sources select from a row: one column per source.
pub open spec fn project(sources: Seq<Source>, row: Seq<Value>) -> Seq<Value> {
    Seq::new(sources.len(), |i: int| sources[i].select(row))
}

/// Rewrites every row to the columns that its sources name, keeping the tag.
/// It may reorder, repeat and drop columns and insert constants.
pub struct Projection {
    pub sources: Vec<Source>,
}

impl Projection {
    /// Whether every source can be read from the row.
    pub fn fits(&self, row: &Row) -> (r: bool)
        ensures
            r == sources_in_range(self.sources@, row@.len()),
    {
        let mut i: usize = 0;
        while i < self.sources.len()
            invariant
                i <= self.sources.len(),
                forall|j: int| 0 <= j < i ==> self.sources@[j].in_range(row@.len()),
            decreases self.sources.len() - i,
        {
            if !self.sources[i].fits(row) {
                return false;
            }
            i += 1;
        }
        true
    }

    /// Whether every source can be read from every row of the batch.
    pub fn admits(&self, updates: &Updates) -> (r: bool)
        ensures
            r == self.accepts(updates.batch()),
    {
        let mut i: usize = 0;
        while i < updates.updates.len()
            invariant
                i <= updates.updates.len(),
                forall|j: int|
                    0 <= j < i ==> sources_in_range(self.sources@, updates.batch()[j].row.len()),
            decreases updates.updates.len() - i,
        {
            if !self.fits(updates.updates[i].row()) {
                assert(!sources_in_range(self.sources@, updates.batch()[i as int].row.len()));
                return false;
            }
            i += 1;
        }
        true
    }

    /// Builds the projected row.
    pub fn apply(&self, row: &Row) -> (r: Row)
        requires
            sources_in_range(self.sources@, row@.len()),
        ensures
            r@ == project(self.sources@, row@),
    {
        let mut data: Vec<DataType> = Vec::new();
        let mut i: usize = 0;
        while i < self.sources.len()
            invariant
                i <= self.sources.len(),
                data.len() == i,
                sources_in_range(self.sources@, row@.len()),
                forall|j: int| 0 <= j < i ==> data[j]@ == self.sources@[j].select(row@),
            decreases self.sources.len() - i,
        {
            data.push(self.sources[i].resolve(row));
            i += 1;
        }
        let r = Row { data };
        assert(r@ =~= project(self.sources@, row@));
        r
    }
}

impl Operation for Projection {
    open spec fn well_formed(&self) -> bool {
        true
    }

    open spec fn accepts(&self, batch: Seq<Delta>) -> bool {
        forall|j: int| 0 <= j < batch.len() ==> sources_in_range(self.sources@, batch[j].row.len())
    }

    open spec fn follows(&self, batch: Seq<Delta>, next: &Self) -> bool {
        *next == *self
    }

    open spec fn abandons(&self, batch: Seq<Delta>, next: &Self) -> bool {
        *next == *self
    }

    open spec fn emits(&self, batch: Seq<Delta>) -> Seq<Delta> {
        Seq::new(
            batch.len(),
            |j: int| (Delta { add: batch[j].add, row: project(self.sources@, batch[j].row) }),
        )
    }

    fn process(&mut self, updates: Updates) -> (out: Vec<RowUpdate>)
        ensures
            out@.len() == updates.updates@.len(),
            forall|j: int| 0 <= j < out@.len() ==> out@[j]@.row.len() == old(self).sources@.len(),
    {
        let ghost batch = updates.batch();
        let mut out: Vec<RowUpdate> = Vec::new();
        let mut i: usize = 0;
        while i < updates.updates.len()
            invariant
                i <= updates.updates.len(),
                batch == updates.batch(),
                self.accepts(batch),
                out.len() == i,
                forall|j: int| 0 <= j < i ==> out@[j]@ == self.emits(batch)[j],
            decreases updates.updates.len() - i,
        {
            let update = &updates.updates[i];
            assert(update@ == batch[i as int]);
            let row = self.apply(update.row());
            let mapped = if update.is_add() {
                RowUpdate::Add(row)
            } else {
                RowUpdate::Remove(row)
            };
            out.push(mapped);
            i += 1;
        }
        assert(deltas(out@) =~= self.emits(batch));
        assert forall|j: int| 0 <= j < out@.len() implies out@[j]@.row.len()
            == self.sources@.len() by {
            assert(out@[j]@ == self.emits(batch)[j]);
        }
        out
    }

    fn try_process(&mut self, updates: Updates) -> (out: Option<Vec<RowUpdate>>) {
        if self.admits(&updates) {
            Some(self.process(updates))
        } else {
            None
        }
    }
}

/// A projection emits one delta per delta of the batch, with the same tag
/// and with one column per source.
pub proof fn projection_keeps_count_and_width(projection: Projection, batch: Seq<Delta>)
    ensures
        projection.emits(batch).len() == batch.len(),
        forall|j: int|
            0 <= j < batch.len() ==> (#[trigger] projection.emits(batch)[j]).add == batch[j].add
                && projection.emits(batch)[j].row.len() == projection.sources@.len(),
{
}

} // verus!
