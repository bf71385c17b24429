//! The router that connects the workers, and the workers themselves.

use vstd::prelude::*;
use crate::operations::data::Updates;

pub use self::router::MessageRouter;
pub use self::worker::{DebugWorker, OpWorker};

mod channel;
pub mod graph;
pub mod router;
pub mod worker;

verus! {

/// What travels to a worker's inbox: a batch of updates, or the request to stop.
pub enum Message {
    Update(Updates),
    Stop,
}

} // verus!
