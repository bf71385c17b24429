//! The count aggregator: a running count per group, correct under
//! retractions, in which null contributions do not count.

use vstd::prelude::*;
use super::data::{
    clone_values, deltas, retracted, values, DataType, Delta, Row, RowUpdate, Source, Updates, Value,
};
use super::state::{stored, State};
use super::Operation;

verus! {

/// Whether every group-by column exists in a row of the given width.
pub open spec fn group_in_range(group: Seq<usize>, width: nat) -> bool {
    forall|i: int| 0 <= i < group.len() ==> group[i] < width
}

/// The group tuple of a row: its values at the group-by columns.
pub open spec fn group_key(group: Seq<usize>, row: Seq<Value>) -> Seq<Value> {
    Seq::new(group.len(), |i: int| row[group[i] as int])
}

/// Whether a cell of the store is one that the aggregator writes or finds
/// empty: nothing, or a single integer.
pub open spec fn is_count(cell: Seq<Value>) -> bool {
    cell.len() == 0 || (cell.len() == 1 && cell[0] is Integer)
}

/// The count that the store holds for a group: 0 where it holds none.
pub open spec fn count_at(contents: Map<Seq<Value>, Seq<Value>>, key: Seq<Value>) -> int {
    let cell = stored(contents, key);
    if cell.len() == 1 {
        match cell[0] {
            Value::Integer(c) => c,
            _ => 0,
        }
    } else {
        0
    }
}

/// What a delta contributes to the count of its group: nothing if the
/// counted value is null, else +1 for an addition and -1 for a retraction.
pub open spec fn change(source: Source, d: Delta) -> int {
    if source.select(d.row) == Value::Null {
        0
    } else if d.add {
        1
    } else {
        -1
    }
}

/// The count of a delta's group once the delta is applied to the store.
pub open spec fn counted(
    source: Source,
    group: Seq<usize>,
    contents: Map<Seq<Value>, Seq<Value>>,
    d: Delta,
) -> int {
    count_at(contents, group_key(group, d.row)) + change(source, d)
}

/// The store after a batch: each delta in turn overwrites the count of its group.
pub open spec fn after(
    source: Source,
    group: Seq<usize>,
    contents: Map<Seq<Value>, Seq<Value>>,
    batch: Seq<Delta>,
) -> Map<Seq<Value>, Seq<Value>>
    decreases batch.len(),
{
    if batch.len() == 0 {
        contents
    } else {
        let prev = after(source, group, contents, batch.drop_last());
        prev.insert(
            group_key(group, batch.last().row),
            seq![Value::Integer(counted(source, group, prev, batch.last()))],
        )
    }
}

/// Whether a batch can be applied: every row has the columns that are read,
/// and every count on the way fits a 32-bit signed integer.
pub open spec fn runs(
    source: Source,
    group: Seq<usize>,
    contents: Map<Seq<Value>, Seq<Value>>,
    batch: Seq<Delta>,
) -> bool
    decreases batch.len(),
{
    batch.len() == 0 || {
        let prev = after(source, group, contents, batch.drop_last());
        &&& runs(source, group, contents, batch.drop_last())
        &&& group_in_range(group, batch.last().row.len())
        &&& source.in_range(batch.last().row.len())
        &&& i32::MIN <= counted(source, group, prev, batch.last()) <= i32::MAX
    }
}

/// Whether a batch can be applied up to its delta `n` and no further.
pub open spec fn stops_at(
    source: Source,
    group: Seq<usize>,
    contents: Map<Seq<Value>, Seq<Value>>,
    batch: Seq<Delta>,
    n: int,
) -> bool {
    &&& runs(source, group, contents, batch.take(n))
    &&& !runs(source, group, contents, batch.take(n + 1))
}

/// The deltas that a batch gives: each input delta, with the count of its
/// group, as it stands once that delta is applied, as one more column.
pub open spec fn emitted(
    source: Source,
    group: Seq<usize>,
    contents: Map<Seq<Value>, Seq<Value>>,
    batch: Seq<Delta>,
) -> Seq<Delta> {
    Seq::new(
        batch.len(),
        |j: int|
            (Delta {
                add: batch[j].add,
                row: batch[j].row.push(
                    Value::Integer(
                        counted(source, group, after(source, group, contents, batch.take(j)), batch[j]),
                    ),
                ),
            }),
    )
}

/// Counts, per group, the rows that pass through with a non-null value of
/// its source. `COUNT(*)` is written as a count of the literal 1.
pub struct Count<S: State> {
    pub source: Source,
    pub group: Vec<usize>,
    pub state: S,
}

impl<S: State> Count<S> {
    /// The stored count of a group, if the store holds one.
    fn get_count(&self, group: &Vec<DataType>) -> (r: Option<i32>)
        requires
            self.well_formed(),
        ensures
            match r {
                Some(c) => stored(self.state.contents(), values(group@)) == seq![
                    Value::Integer(c as int),
                ],
                None => stored(self.state.contents(), values(group@)).len() == 0,
            },
            r.unwrap_or(0) == count_at(self.state.contents(), values(group@)),
    {
        let data = self.state.get(group);
        assert(is_count(stored(self.state.contents(), values(group@))));
        assert(values(data@).len() == data@.len());
        if data.len() == 0 {
            None
        } else {
            assert(values(data@)[0] == data@[0]@);
            match data[0] {
                DataType::Integer(c) => {
                    assert(values(data@) =~= seq![Value::Integer(c as int)]);
                    Some(c)
                },
                _ => None,
            }
        }
    }

    /// Overwrites the stored count of a group.
    fn set_count(&mut self, group: Vec<DataType>, value: i32)
        requires
            old(self).well_formed(),
        ensures
            final(self).well_formed(),
            final(self).source == old(self).source,
            final(self).group == old(self).group,
            final(self).state.contents() == old(self).state.contents().insert(
                values(group@),
                seq![Value::Integer(value as int)],
            ),
    {
        let mut cell: Vec<DataType> = Vec::new();
        cell.push(DataType::Integer(value));
        assert(values(cell@) =~= seq![Value::Integer(value as int)]);
        self.state.set(group, cell);
        assert forall|k: Seq<Value>| is_count(
            #[trigger] stored(self.state.contents(), k),
        ) by {
            assert(is_count(stored(old(self).state.contents(), k)));
        }
    }

    /// The group tuple of a row.
    fn group_of(&self, row: &Row) -> (r: Vec<DataType>)
        requires
            group_in_range(self.group@, row@.len()),
        ensures
            values(r@) == group_key(self.group@, row@),
    {
        let mut r: Vec<DataType> = Vec::new();
        let mut i: usize = 0;
        while i < self.group.len()
            invariant
                i <= self.group.len(),
                r.len() == i,
                group_in_range(self.group@, row@.len()),
                forall|j: int| 0 <= j < i ==> r[j]@ == row@[self.group@[j] as int],
            decreases self.group.len() - i,
        {
            r.push(row.data[self.group[i]].clone());
            i += 1;
        }
        assert(values(r@) =~= group_key(self.group@, row@));
        r
    }

    /// Whether every group-by column exists in the row.
    fn group_fits(&self, row: &Row) -> (r: bool)
        ensures
            r == group_in_range(self.group@, row@.len()),
    {
        let mut i: usize = 0;
        while i < self.group.len()
            invariant
                i <= self.group.len(),
                forall|j: int| 0 <= j < i ==> self.group@[j] < row@.len(),
            decreases self.group.len() - i,
        {
            if self.group[i] >= row.data.len() {
                return false;
            }
            i += 1;
        }
        true
    }
}

/// A batch that can be applied can be applied up to any point.
pub proof fn runs_up_to(
    source: Source,
    group: Seq<usize>,
    contents: Map<Seq<Value>, Seq<Value>>,
    batch: Seq<Delta>,
    n: int,
)
    requires
        runs(source, group, contents, batch),
        0 <= n <= batch.len(),
    ensures
        runs(source, group, contents, batch.take(n)),
    decreases batch.len(),
{
    if n == batch.len() {
        assert(batch.take(n) =~= batch);
    } else {
        runs_up_to(source, group, contents, batch.drop_last(), n);
        assert(batch.drop_last().take(n) =~= batch.take(n));
    }
}

impl<S: State> Operation for Count<S> {
    open spec fn well_formed(&self) -> bool {
        &&& self.state.well_formed()
        &&& forall|k: Seq<Value>| is_count(#[trigger] stored(self.state.contents(), k))
    }

    open spec fn accepts(&self, batch: Seq<Delta>) -> bool {
        runs(self.source, self.group@, self.state.contents(), batch)
    }

    open spec fn emits(&self, batch: Seq<Delta>) -> Seq<Delta> {
        emitted(self.source, self.group@, self.state.contents(), batch)
    }

    open spec fn follows(&self, batch: Seq<Delta>, next: &Self) -> bool {
        &&& next.source == self.source
        &&& next.group == self.group
        &&& next.state.contents() == after(
            self.source,
            self.group@,
            self.state.contents(),
            batch,
        )
    }

    open spec fn abandons(&self, batch: Seq<Delta>, next: &Self) -> bool {
        &&& next.source == self.source
        &&& next.group == self.group
        &&& exists|n: int|
            0 <= n < batch.len() && #[trigger] stops_at(
                self.source,
                self.group@,
                self.state.contents(),
                batch,
                n,
            ) && next.state.contents() == after(
                self.source,
                self.group@,
                self.state.contents(),
                batch.take(n),
            )
    }

    fn process(&mut self, updates: Updates) -> (out: Vec<RowUpdate>) {
        match self.try_process(updates) {
            Some(out) => out,
            // Not reached: the batch is one that the operator accepts.
            None => Vec::new(),
        }
    }

    fn try_process(&mut self, updates: Updates) -> (out: Option<Vec<RowUpdate>>) {
        let ghost batch = updates.batch();
        let ghost start = self.state.contents();
        let mut out: Vec<RowUpdate> = Vec::new();
        let mut i: usize = 0;
        while i < updates.updates.len()
            invariant
                i <= updates.updates.len(),
                batch == updates.batch(),
                start == old(self).state.contents(),
                self.source == old(self).source,
                self.group == old(self).group,
                self.well_formed(),
                runs(self.source, self.group@, start, batch.take(i as int)),
                self.state.contents() == after(self.source, self.group@, start, batch.take(i as int)),
                out.len() == i,
                forall|j: int|
                    0 <= j < i ==> out@[j]@ == emitted(self.source, self.group@, start, batch)[j],
            decreases updates.updates.len() - i,
        {
            let update = &updates.updates[i];
            let row = update.row();
            proof {
                assert(update@ == batch[i as int]);
                assert(batch.take(i + 1).drop_last() =~= batch.take(i as int));
                assert(batch.take(i + 1).last() == update@);
                if runs(self.source, self.group@, start, batch) {
                    runs_up_to(self.source, self.group@, start, batch, i + 1);
                }
            }
            if !self.group_fits(row) || !self.source.fits(row) {
                assert(stops_at(self.source, self.group@, start, batch, i as int));
                return None;
            }
            let group = self.group_of(row);
            let cur: i32 = match self.get_count(&group) {
                Some(c) => c,
                None => 0,
            };
            let value = self.source.resolve(row);
            let counts = !value.same(&DataType::Null);
            let add = update.is_add();
            if counts && add && cur == i32::MAX {
                assert(stops_at(self.source, self.group@, start, batch, i as int));
                return None;
            }
            if counts && !add && cur == i32::MIN {
                assert(stops_at(self.source, self.group@, start, batch, i as int));
                return None;
            }
            let next: i32 = if !counts {
                cur
            } else if add {
                cur + 1
            } else {
                cur - 1
            };
            assert(next == counted(self.source, self.group@, self.state.contents(), update@));
            self.set_count(group, next);
            let mut data = clone_values(&row.data);
            data.push(DataType::Integer(next));
            let extended = Row { data };
            assert(extended@ =~= row@.push(Value::Integer(next as int)));
            out.push(
                if add {
                    RowUpdate::Add(extended)
                } else {
                    RowUpdate::Remove(extended)
                },
            );
            i += 1;
        }
        assert(batch.take(i as int) =~= batch);
        assert(deltas(out@) =~= emitted(self.source, self.group@, start, batch));
        Some(out)
    }
}

/// What a batch adds, all in all, to the count of a group.
pub open spec fn net(source: Source, group: Seq<usize>, batch: Seq<Delta>, key: Seq<Value>) -> int
    decreases batch.len(),
{
    if batch.len() == 0 {
        0
    } else {
        net(source, group, batch.drop_last(), key) + if group_key(group, batch.last().row) == key {
            change(source, batch.last())
        } else {
            0
        }
    }
}

/// How many deltas of a batch belong to a group.
pub open spec fn members(group: Seq<usize>, batch: Seq<Delta>, key: Seq<Value>) -> nat
    decreases batch.len(),
{
    if batch.len() == 0 {
        0
    } else {
        members(group, batch.drop_last(), key) + if group_key(group, batch.last().row) == key {
            1nat
        } else {
            0nat
        }
    }
}

/// After a batch the count of each group is what it was plus what the
/// batch's deltas of that group contribute.
pub proof fn count_follows_net(
    source: Source,
    group: Seq<usize>,
    contents: Map<Seq<Value>, Seq<Value>>,
    batch: Seq<Delta>,
    key: Seq<Value>,
)
    ensures
        count_at(after(source, group, contents, batch), key) == count_at(contents, key) + net(
            source,
            group,
            batch,
            key,
        ),
    decreases batch.len(),
{
    if batch.len() > 0 {
        count_follows_net(source, group, contents, batch.drop_last(), key);
    }
}

/// Additions of non-null values are counted one by one: after a batch of
/// them the count of each group has grown by the number of its deltas, so
/// that from an empty store it is that number.
pub proof fn additions_are_counted(
    source: Source,
    group: Seq<usize>,
    contents: Map<Seq<Value>, Seq<Value>>,
    batch: Seq<Delta>,
    key: Seq<Value>,
)
    requires
        forall|j: int|
            0 <= j < batch.len() ==> batch[j].add && source.select(batch[j].row) != Value::Null,
    ensures
        count_at(after(source, group, contents, batch), key) == count_at(contents, key) + members(
            group,
            batch,
            key,
        ),
        count_at(after(source, group, Map::empty(), batch), key) == members(group, batch, key),
    decreases batch.len(),
{
    if batch.len() > 0 {
        additions_are_counted(source, group, contents, batch.drop_last(), key);
        additions_are_counted(source, group, Map::empty(), batch.drop_last(), key);
    }
}

/// A batch followed by its retraction leaves the count of every group as it
/// was: at zero, if the store was empty before.
pub proof fn retraction_restores_counts(
    source: Source,
    group: Seq<usize>,
    contents: Map<Seq<Value>, Seq<Value>>,
    batch: Seq<Delta>,
    key: Seq<Value>,
)
    ensures
        count_at(
            after(source, group, after(source, group, contents, batch), retracted(batch)),
            key,
        ) == count_at(contents, key),
        count_at(
            after(source, group, after(source, group, Map::empty(), batch), retracted(batch)),
            key,
        ) == 0,
{
    retraction_negates_net(source, group, batch, key);
    count_follows_net(source, group, contents, batch, key);
    count_follows_net(source, group, after(source, group, contents, batch), retracted(batch), key);
    let none = Map::<Seq<Value>, Seq<Value>>::empty();
    count_follows_net(source, group, none, batch, key);
    count_follows_net(source, group, after(source, group, none, batch), retracted(batch), key);
}

/// The retraction of a batch contributes to each group the opposite of
/// what the batch does.
pub proof fn retraction_negates_net(
    source: Source,
    group: Seq<usize>,
    batch: Seq<Delta>,
    key: Seq<Value>,
)
    ensures
        net(source, group, retracted(batch), key) == -net(source, group, batch, key),
    decreases batch.len(),
{
    if batch.len() > 0 {
        retraction_negates_net(source, group, batch.drop_last(), key);
        assert(retracted(batch).drop_last() =~= retracted(batch.drop_last()));
    }
}

/// Deltas whose counted value is null change no count, and each is
/// emitted with the unchanged count of its group: with 0, if the store was
/// empty before.
pub proof fn nulls_are_not_counted(
    source: Source,
    group: Seq<usize>,
    contents: Map<Seq<Value>, Seq<Value>>,
    batch: Seq<Delta>,
)
    requires
        forall|j: int| 0 <= j < batch.len() ==> source.select(batch[j].row) == Value::Null,
    ensures
        forall|key: Seq<Value>|
            #[trigger] count_at(after(source, group, contents, batch), key) == count_at(
                contents,
                key,
            ),
        emitted(source, group, contents, batch).len() == batch.len(),
        forall|j: int|
            0 <= j < batch.len() ==> (#[trigger] emitted(source, group, contents, batch)[j]).row
                == batch[j].row.push(
                Value::Integer(count_at(contents, group_key(group, batch[j].row))),
            ),
    decreases batch.len(),
{
    assert forall|key: Seq<Value>|
        #[trigger] count_at(after(source, group, contents, batch), key) == count_at(
            contents,
            key,
        ) by {
        null_net_is_zero(source, group, batch, key);
        count_follows_net(source, group, contents, batch, key);
    }
    assert forall|j: int| 0 <= j < batch.len() implies (#[trigger] emitted(
        source,
        group,
        contents,
        batch,
    )[j]).row == batch[j].row.push(
        Value::Integer(count_at(contents, group_key(group, batch[j].row))),
    ) by {
        let key = group_key(group, batch[j].row);
        null_net_is_zero(source, group, batch.take(j), key);
        count_follows_net(source, group, contents, batch.take(j), key);
    }
}

/// A batch of deltas whose counted value is null contributes nothing.
pub proof fn null_net_is_zero(source: Source, group: Seq<usize>, batch: Seq<Delta>, key: Seq<Value>)
    requires
        forall|j: int| 0 <= j < batch.len() ==> source.select(batch[j].row) == Value::Null,
    ensures
        net(source, group, batch, key) == 0,
    decreases batch.len(),
{
    if batch.len() > 0 {
        null_net_is_zero(source, group, batch.drop_last(), key);
    }
}

} // verus!
