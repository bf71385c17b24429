//! The message router: it owns the worker graph and the workers' inboxes.

use vstd::prelude::*;
use std::collections::HashMap;
use crossbeam::channel::{Receiver, Sender};
use petgraph::stable_graph::StableGraph;
use crate::operations::data::{clone_updates, deltas, RowUpdate, Updates};
use super::channel::{await_message, capacity_of, channel_capacity, deliver, inbox};
use super::graph::{
    children_of, edges_within, graph_add_edge, graph_add_node, graph_children, graph_edge_count,
    graph_edges, graph_intact, graph_new, graph_node_count, graph_size, no_children_outside,
};
use super::Message;

verus! {

broadcast use vstd::std_specs::hash::group_hash_axioms;

/// The number of messages that an inbox holds unless another is asked for.
pub const DEFAULT_CAPACITY: u16 = 10;

/// The edges from each of the parents to one child, in the parents' order.
pub open spec fn edges_to(parents: Seq<usize>, child: usize) -> Seq<(usize, usize)> {
    Seq::new(parents.len(), |i: int| (parents[i], child))
}

/// Handles sending and receiving messages between the workers of a graph.
///
/// Workers are numbered from 0 in the order in which they were added, and
/// the edges never change once they are there.
pub struct MessageRouter {
    graph: StableGraph<(), ()>,
    channels: HashMap<usize, (Sender<Message>, Receiver<Message>)>,
    capacity: u16,
}

impl MessageRouter {
    /// The number of workers.
    pub closed spec fn workers(&self) -> nat {
        graph_size(self.graph)
    }

    /// The edges, as pairs of parent and child, in the order in which they
    /// were added.
    pub closed spec fn edges(&self) -> Seq<(usize, usize)> {
        graph_edges(self.graph)
    }

    /// Whether no worker and no edge was ever taken out of the graph.
    pub closed spec fn intact(&self) -> bool {
        graph_intact(self.graph)
    }

    /// Whether an inbox is kept under the id.
    pub closed spec fn has_inbox(&self, id: usize) -> bool {
        self.channels@.contains_key(id)
    }

    /// The number of messages that each inbox is made to hold.
    pub closed spec fn capacity(&self) -> u16 {
        self.capacity
    }

    /// The number of messages that the inbox kept under the id holds at most.
    pub closed spec fn inbox_limit(&self, id: usize) -> Option<usize> {
        channel_capacity(self.channels@[id].0)
    }

    /// The children of a worker, in the order in which they are served.
    pub open spec fn children(&self, id: usize) -> Seq<usize> {
        children_of(self.edges(), id)
    }

    /// Nothing was taken out of the graph; every worker has an inbox of the
    /// router's capacity and nobody else has one; the edges join workers.
    pub open spec fn well_formed(&self) -> bool {
        &&& self.intact()
        &&& self.workers() <= u32::MAX
        &&& self.edges().len() <= u32::MAX
        &&& forall|id: usize| #[trigger] self.has_inbox(id) <==> id < self.workers()
        &&& forall|id: usize|
            id < self.workers() ==> #[trigger] self.inbox_limit(id) == Some(
                self.capacity() as usize,
            )
        &&& edges_within(self.edges(), self.workers())
    }

    /// A router without workers, with inboxes of the default capacity.
    pub fn new() -> (r: Self)
        ensures
            r.well_formed(),
            r.workers() == 0,
            r.edges() == Seq::<(usize, usize)>::empty(),
            r.capacity() == DEFAULT_CAPACITY,
    {
        MessageRouter::with_capacity(DEFAULT_CAPACITY)
    }

    /// A router without workers, whose inboxes will hold `capacity` messages each.
    pub fn with_capacity(capacity: u16) -> (r: Self)
        ensures
            r.well_formed(),
            r.workers() == 0,
            r.edges() == Seq::<(usize, usize)>::empty(),
            r.capacity() == capacity,
    {
        MessageRouter { graph: graph_new(), channels: HashMap::new(), capacity }
    }

    /// The number of messages that a worker's inbox holds at most: the
    /// capacity that the router was made with. There is none for an id that
    /// is no worker.
    pub fn inbox_capacity(&self, id: usize) -> (limit: Option<usize>)
        requires
            self.well_formed(),
        ensures
            limit == if id < self.workers() {
                Some(self.capacity() as usize)
            } else {
                None
            },
    {
        assert(self.has_inbox(id) <==> id < self.workers());
        match self.channels.get(&id) {
            None => None,
            Some(ends) => {
                assert(self.inbox_limit(id) == Some(self.capacity() as usize));
                capacity_of(&ends.0)
            },
        }
    }

    /// The number of workers.
    pub fn worker_count(&self) -> (n: usize)
        requires
            self.well_formed(),
        ensures
            n == self.workers(),
    {
        graph_node_count(&self.graph)
    }

    /// Whether `add_worker` can take these parents: each of them is a
    /// worker, or the one about to be added, and the graph has room.
    pub open spec fn admits(&self, parents: Seq<usize>) -> bool {
        &&& self.workers() < u32::MAX
        &&& self.edges().len() + parents.len() <= u32::MAX
        &&& forall|i: int| 0 <= i < parents.len() ==> parents[i] <= self.workers()
    }

    /// Adds a worker below the given parents and returns its id.
    pub fn add_worker(&mut self, parents: Vec<usize>) -> (id: usize)
        requires
            old(self).well_formed(),
            old(self).admits(parents@),
        ensures
            final(self).well_formed(),
            id == old(self).workers(),
            final(self).workers() == old(self).workers() + 1,
            final(self).edges() == old(self).edges() + edges_to(parents@, id),
            final(self).capacity() == old(self).capacity(),
    {
        let id = graph_add_node(&mut self.graph);
        let mut i: usize = 0;
        while i < parents.len()
            invariant
                i <= parents.len(),
                id == old(self).workers(),
                old(self).well_formed(),
                old(self).admits(parents@),
                self.channels == old(self).channels,
                self.capacity == old(self).capacity,
                self.intact(),
                self.workers() == id + 1,
                self.edges() == old(self).edges() + edges_to(parents@.take(i as int), id),
            decreases parents.len() - i,
        {
            graph_add_edge(&mut self.graph, parents[i], id);
            assert(edges_to(parents@.take(i as int), id).push((parents@[i as int], id))
                =~= edges_to(parents@.take(i + 1), id));
            assert((old(self).edges() + edges_to(parents@.take(i as int), id)).push(
                (parents@[i as int], id),
            ) =~= old(self).edges() + edges_to(parents@.take(i + 1), id));
            i += 1;
        }
        assert(parents@.take(i as int) =~= parents@);
        self.channels.insert(id, inbox(self.capacity));
        assert forall|w: usize| #[trigger] self.has_inbox(w) <==> w < self.workers() by {
            assert(old(self).has_inbox(w) <==> w < old(self).workers());
        }
        assert forall|w: usize| w < self.workers() implies #[trigger] self.inbox_limit(w) == Some(
            self.capacity() as usize,
        ) by {
            if w != id {
                assert(old(self).has_inbox(w));
                assert(old(self).inbox_limit(w) == Some(old(self).capacity() as usize));
            }
        }
        id
    }

    /// Whether `add_worker` can take these parents.
    pub fn can_add(&self, parents: &Vec<usize>) -> (r: bool)
        requires
            self.well_formed(),
        ensures
            r == self.admits(parents@),
    {
        let workers = graph_node_count(&self.graph);
        let edges = graph_edge_count(&self.graph);
        if workers >= 0xffff_ffff || parents.len() > 0xffff_ffff - edges {
            return false;
        }
        let mut i: usize = 0;
        while i < parents.len()
            invariant
                i <= parents.len(),
                workers == self.workers(),
                forall|j: int| 0 <= j < i ==> parents@[j] <= workers,
            decreases parents.len() - i,
        {
            if parents[i] > workers {
                return false;
            }
            i += 1;
        }
        true
    }

    /// Adds a worker below the given parents if `add_worker` can take them,
    /// and leaves the router as it is if not.
    pub fn try_add_worker(&mut self, parents: Vec<usize>) -> (id: Option<usize>)
        requires
            old(self).well_formed(),
        ensures
            final(self).well_formed(),
            id is Some <==> old(self).admits(parents@),
            id is Some ==> id == Some(old(self).workers() as usize)
                && final(self).workers() == old(self).workers() + 1
                && final(self).edges() == old(self).edges() + edges_to(parents@, id->0),
            id is None ==> final(self).workers() == old(self).workers()
                && final(self).edges() == old(self).edges(),
            final(self).capacity() == old(self).capacity(),
    {
        if self.can_add(&parents) {
            Some(self.add_worker(parents))
        } else {
            None
        }
    }

    /// The children of a worker, in the order in which they are served;
    /// none for an id that is no worker.
    pub fn children_list(&self, id: usize) -> (r: Vec<usize>)
        requires
            self.well_formed(),
        ensures
            r@ == self.children(id),
    {
        if id < graph_node_count(&self.graph) {
            graph_children(&self.graph, id)
        } else {
            proof {
                no_children_outside(self.edges(), self.workers(), id);
            }
            Vec::new()
        }
    }

    /// The messages that carry a worker's output to its children: none for
    /// an empty output, else one per child, in the children's order, each
    /// with the whole output, the worker as source and the child as
    /// destination.
    pub fn fan_out(&self, id: usize, updates: &Vec<RowUpdate>) -> (out: Vec<Updates>)
        requires
            self.well_formed(),
        ensures
            updates@.len() == 0 ==> out@.len() == 0,
            updates@.len() > 0 ==> out@.len() == self.children(id).len(),
            forall|k: int|
                0 <= k < out@.len() ==> (#[trigger] out@[k]).source == id && out@[k].destination
                    == self.children(id)[k] && out@[k].batch() == deltas(updates@),
    {
        let mut out: Vec<Updates> = Vec::new();
        if updates.len() == 0 {
            return out;
        }
        let children = self.children_list(id);
        let mut k: usize = 0;
        while k < children.len()
            invariant
                k <= children.len(),
                children@ == self.children(id),
                out@.len() == k,
                forall|j: int|
                    0 <= j < k ==> (#[trigger] out@[j]).source == id && out@[j].destination
                        == children@[j] && out@[j].batch() == deltas(updates@),
            decreases children.len() - k,
        {
            out.push(
                Updates { updates: clone_updates(updates), source: id, destination: children[k] },
            );
            k += 1;
        }
        out
    }

    /// Whether the id is that of a worker.
    pub fn has_worker(&self, id: usize) -> (r: bool)
        requires
            self.well_formed(),
        ensures
            r == (id < self.workers()),
    {
        assert(self.has_inbox(id) <==> id < self.workers());
        self.channels.contains_key(&id)
    }

    /// Sends the updates to every child of the worker. Empty updates are
    /// not sent.
    pub fn send_updates(&self, id: usize, updates: Vec<RowUpdate>)
        requires
            self.well_formed(),
    {
        let mut messages = self.fan_out(id, &updates);
        while messages.len() > 0
            invariant
                self.well_formed(),
            decreases messages.len(),
        {
            let message = messages.remove(0);
            let destination = message.destination;
            self.send_message(destination, Message::Update(message));
        }
    }

    /// Puts a message into a worker's inbox, waiting while the inbox is
    /// full. A message for an id that is no worker, or for an inbox that
    /// was closed, is dropped.
    pub fn send_message(&self, destination: usize, message: Message)
        requires
            self.well_formed(),
    {
        match self.channels.get(&destination) {
            None => {},
            Some(ends) => {
                let _ = deliver(&ends.0, message);
            },
        }
    }

    /// Waits for the next message for a worker. For an id that is no
    /// worker, and for an inbox that was closed, the message is `Stop`.
    pub fn next_message(&self, id: usize) -> (message: Message)
        requires
            self.well_formed(),
        ensures
            id >= self.workers() ==> message is Stop,
    {
        assert(self.has_inbox(id) <==> id < self.workers());
        match self.channels.get(&id) {
            None => Message::Stop,
            Some(ends) => received(await_message(&ends.1)),
        }
    }

    /// The messages for a worker, one at a time, up to the first `Stop`.
    pub fn iter(&self, id: usize) -> (it: MessageRouterIter<'_>)
        requires
            self.well_formed(),
        ensures
            it.router == self,
            it.worker_id == id,
    {
        MessageRouterIter { router: self, worker_id: id }
    }
}

/// What a worker is told when its inbox has answered: the message that
/// arrived, or `Stop` if the inbox is closed.
pub fn received(arrived: Option<Message>) -> (message: Message)
    ensures
        message == match arrived {
            Some(m) => m,
            None => Message::Stop,
        },
{
    match arrived {
        Some(m) => m,
        None => Message::Stop,
    }
}

/// What a sequence of messages yields for a message: the message itself,
/// or the end of the sequence for `Stop`.
pub fn yielded(message: Message) -> (item: Option<Message>)
    ensures
        item == match message {
            Message::Stop => None,
            m => Some(m),
        },
{
    match message {
        Message::Stop => None,
        m => Some(m),
    }
}

/// The messages for one worker, in the order in which they arrive.
pub struct MessageRouterIter<'a> {
    pub router: &'a MessageRouter,
    pub worker_id: usize,
}

impl<'a> MessageRouterIter<'a> {
    /// Waits for the next message. The sequence ends with the first
    /// `Stop`, and at once for an id that is no worker.
    pub fn next(&mut self) -> (item: Option<Message>)
        requires
            old(self).router.well_formed(),
        ensures
            *final(self) == *old(self),
            item != Some(Message::Stop),
            old(self).worker_id >= old(self).router.workers() ==> item is None,
    {
        yielded(self.router.next_message(self.worker_id))
    }
}

} // verus!
