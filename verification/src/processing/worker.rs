//! The workers: each owns one place in the graph and handles the
//! messages of its inbox one at a time.

use vstd::prelude::*;
use crate::operations::data::{clone_updates, deltas, RowUpdate, Updates};
use crate::operations::Operation;
use super::router::{edges_to, MessageRouter};
use super::Message;

verus! {

/// What a worker does on a message.
pub enum Reaction {
    /// Send these updates to the children and go on.
    Forward(Vec<RowUpdate>),
    /// Stop.
    Halt,
    /// The batch is one that the operator cannot process.
    Refuse,
}

/// Where a worker stands after a step.
#[derive(Debug, Clone, Copy, PartialEq, Eq)]
pub enum Status {
    /// A batch was handled; there may be more.
    Running,
    /// The worker was told to stop, or its inbox is closed.
    Stopped,
    /// A batch arrived that the operator cannot process.
    Failed,
}

/// A worker that runs an operator on every batch that it receives.
pub struct OpWorker<T: Operation> {
    pub id: usize,
    pub op: T,
}

impl<T: Operation> OpWorker<T> {
    /// The operator's invariant.
    pub open spec fn well_formed(&self) -> bool {
        self.op.well_formed()
    }

    /// Registers a worker for the operator below the given parents. The
    /// worker does nothing until it is stepped.
    pub fn new(router: &mut MessageRouter, op: T, parents: Vec<usize>) -> (worker: Self)
        requires
            old(router).well_formed(),
            old(router).admits(parents@),
        ensures
            worker.id == old(router).workers(),
            worker.op == op,
            final(router).well_formed(),
            final(router).workers() == old(router).workers() + 1,
            final(router).edges() == old(router).edges() + edges_to(parents@, worker.id),
            final(router).capacity() == old(router).capacity(),
    {
        OpWorker { id: router.add_worker(parents), op }
    }

    /// Handles one message: a batch goes through the operator once, whose
    /// output is to be forwarded; `Stop` ends the worker and leaves the
    /// operator as it is.
    pub fn react(&mut self, message: Message) -> (reaction: Reaction)
        requires
            old(self).well_formed(),
        ensures
            final(self).well_formed(),
            final(self).id == old(self).id,
            match message {
                Message::Stop => reaction is Halt && final(self).op == old(self).op,
                Message::Update(u) => if old(self).op.accepts(u.batch()) {
                    &&& reaction is Forward
                    &&& deltas(reaction->Forward_0@) == old(self).op.emits(u.batch())
                    &&& old(self).op.follows(u.batch(), &final(self).op)
                } else {
                    &&& reaction is Refuse
                    &&& old(self).op.abandons(u.batch(), &final(self).op)
                },
            },
    {
        match message {
            Message::Stop => Reaction::Halt,
            Message::Update(u) => match self.op.try_process(u) {
                Some(out) => Reaction::Forward(out),
                None => Reaction::Refuse,
            },
        }
    }

    /// How a step that handled the given message ends: on `Stop` the worker
    /// is stopped and its operator is as it was; on a batch that the
    /// operator accepts it is running and the operator is what follows from
    /// that batch; on any other batch it has failed and the operator is
    /// what that batch left of it.
    pub open spec fn handled(before: T, message: Message, status: Status, after: T) -> bool {
        match message {
            Message::Stop => status == Status::Stopped && after == before,
            Message::Update(u) => if before.accepts(u.batch()) {
                status == Status::Running && before.follows(u.batch(), &after)
            } else {
                status == Status::Failed && before.abandons(u.batch(), &after)
            },
        }
    }

    /// Waits for the worker's next message, handles it and sends the
    /// output, if there is any, to the children: the step ends as the
    /// message that arrived asks. A worker that the router does not know
    /// stops at once.
    pub fn step(&mut self, router: &MessageRouter) -> (status: Status)
        requires
            old(self).well_formed(),
            router.well_formed(),
        ensures
            final(self).well_formed(),
            final(self).id == old(self).id,
            old(self).id >= router.workers() ==> status == Status::Stopped
                && final(self).op == old(self).op,
            exists|message: Message| #[trigger]
                Self::handled(old(self).op, message, status, final(self).op),
    {
        let message = router.next_message(self.id);
        let ghost arrived = message;
        let ghost before = self.op;
        match self.react(message) {
            Reaction::Forward(out) => {
                router.send_updates(self.id, out);
                assert(Self::handled(before, arrived, Status::Running, self.op));
                Status::Running
            },
            Reaction::Halt => {
                assert(Self::handled(before, arrived, Status::Stopped, self.op));
                Status::Stopped
            },
            Reaction::Refuse => {
                assert(Self::handled(before, arrived, Status::Failed, self.op));
                Status::Failed
            },
        }
    }
}

/// A worker that passes every batch on unchanged and shows it to its caller.
pub struct DebugWorker {
    pub id: usize,
}

impl DebugWorker {
    /// Registers a debug worker below the given parents.
    pub fn new(router: &mut MessageRouter, parents: Vec<usize>) -> (worker: Self)
        requires
            old(router).well_formed(),
            old(router).admits(parents@),
        ensures
            worker.id == old(router).workers(),
            final(router).well_formed(),
            final(router).workers() == old(router).workers() + 1,
            final(router).edges() == old(router).edges() + edges_to(parents@, worker.id),
            final(router).capacity() == old(router).capacity(),
    {
        DebugWorker { id: router.add_worker(parents) }
    }

    /// The batch that a message carries, if it carries one.
    pub fn observe(message: Message) -> (seen: Option<Updates>)
        ensures
            seen == match message {
                Message::Update(u) => Some(u),
                Message::Stop => None,
            },
    {
        match message {
            Message::Update(u) => Some(u),
            Message::Stop => None,
        }
    }

    /// Waits for the worker's next message and returns the batch that it
    /// carries, for the caller to show before it is sent on. There is none
    /// on `Stop`, nor for a worker that the router does not know.
    pub fn receive(&self, router: &MessageRouter) -> (seen: Option<Updates>)
        requires
            router.well_formed(),
        ensures
            self.id >= router.workers() ==> seen is None,
    {
        DebugWorker::observe(router.next_message(self.id))
    }

    /// Sends a batch on to the worker's children as it is.
    pub fn forward(&self, router: &MessageRouter, seen: &Updates)
        requires
            router.well_formed(),
    {
        router.send_updates(self.id, clone_updates(&seen.updates));
    }

    /// Waits for the worker's next message. A batch is sent on to the
    /// children as it is and returned for the caller to show; on `Stop`,
    /// and for a worker that the router does not know, nothing is.
    pub fn step(&mut self, router: &MessageRouter) -> (seen: Option<Updates>)
        requires
            router.well_formed(),
        ensures
            final(self).id == old(self).id,
            old(self).id >= router.workers() ==> seen is None,
    {
        match self.receive(router) {
            Some(u) => {
                self.forward(router, &u);
                Some(u)
            },
            None => None,
        }
    }
}

} // verus!
