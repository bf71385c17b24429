//! The operators and the contract that they share.

use vstd::prelude::*;

pub use self::count::Count;
use self::data::{deltas, Delta, RowUpdate, Updates};
pub use self::filter::Filter;
pub use self::map::Projection;
pub use self::state::State;

pub mod count;
pub mod data;
pub mod filter;
pub mod map;
pub mod state;

verus! {

/// An operator: it turns each batch of deltas into the deltas for its
/// children, in order, and may keep state of its own between batches.
pub trait Operation {
    /// The operator's own invariant.
    spec fn well_formed(&self) -> bool;

    /// The batches that the operator, as it stands, can process.
    spec fn accepts(&self, batch: Seq<Delta>) -> bool;

    /// The deltas that the operator, as it stands, emits for a batch.
    spec fn emits(&self, batch: Seq<Delta>) -> Seq<Delta>;

    /// Whether `next` is what the operator, as it stands, becomes by
    /// processing a batch that it accepts.
    spec fn follows(&self, batch: Seq<Delta>, next: &Self) -> bool;

    /// Whether `next` is what the operator, as it stands, is left as by a
    /// batch that it does not accept.
    spec fn abandons(&self, batch: Seq<Delta>, next: &Self) -> bool;

    /// Processes a batch and returns the deltas for the children.
    fn process(&mut self, updates: Updates) -> (out: Vec<RowUpdate>)
        requires
            old(self).well_formed(),
            old(self).accepts(updates.batch()),
        ensures
            final(self).well_formed(),
            deltas(out@) == old(self).emits(updates.batch()),
            old(self).follows(updates.batch(), &*final(self)),
    ;

    /// Processes a batch if the operator accepts it, and says so if not.
    fn try_process(&mut self, updates: Updates) -> (out: Option<Vec<RowUpdate>>)
        requires
            old(self).well_formed(),
        ensures
            final(self).well_formed(),
            out is Some <==> old(self).accepts(updates.batch()),
            out is Some ==> deltas(out->0@) == old(self).emits(updates.batch()),
            out is Some ==> old(self).follows(updates.batch(), &*final(self)),
            out is None ==> old(self).abandons(updates.batch(), &*final(self)),
    ;
}

} // verus!
