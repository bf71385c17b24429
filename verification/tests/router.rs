use dataflow::operations::data::{Comparison, DataType, RowUpdate, Source, Updates};
use dataflow::operations::filter::{ColumnConstraint, Constraint};
use dataflow::operations::state::{MemStore, State};
use dataflow::operations::{Count, Filter, Projection};
use dataflow::processing::router::{received, yielded};
use dataflow::processing::worker::{Reaction, Status};
use dataflow::processing::{DebugWorker, Message, MessageRouter, OpWorker};

fn add(values: Vec<DataType>) -> RowUpdate {
    RowUpdate::Add(values.into())
}

fn batch(updates: Vec<RowUpdate>, destination: usize) -> Message {
    Message::Update(Updates {
        updates,
        source: 0,
        destination,
    })
}

fn first_column(message: Message) -> DataType {
    match message {
        Message::Update(u) => u.updates[0][0].clone(),
        Message::Stop => panic!("a batch was expected"),
    }
}

#[test]
fn workers_are_numbered_in_order() {
    let mut router = MessageRouter::new();
    assert_eq!(router.worker_count(), 0);
    assert!(!router.has_worker(0));
    assert_eq!(router.add_worker(vec![]), 0);
    assert_eq!(router.add_worker(vec![0]), 1);
    assert_eq!(router.add_worker(vec![0, 1]), 2);
    assert_eq!(router.add_worker(vec![1, 0, 0]), 3);
    assert_eq!(router.worker_count(), 4);
    assert!(router.has_worker(3));
    assert!(!router.has_worker(4));
    assert_eq!(router.children_list(0), vec![3, 3, 2, 1]);
    assert_eq!(router.children_list(1), vec![3, 2]);
    assert_eq!(router.children_list(2), Vec::<usize>::new());
    assert_eq!(router.children_list(3), Vec::<usize>::new());
    assert_eq!(router.children_list(4), Vec::<usize>::new());
    assert_eq!(router.children_list(usize::MAX), Vec::<usize>::new());
}

#[test]
fn an_unknown_parent_is_refused() {
    let mut router = MessageRouter::new();
    assert_eq!(router.try_add_worker(vec![1]), None);
    assert_eq!(router.worker_count(), 0);
    assert_eq!(router.try_add_worker(vec![]), Some(0));
    assert_eq!(router.try_add_worker(vec![0, 2]), None);
    assert_eq!(router.try_add_worker(vec![0]), Some(1));
    assert_eq!(router.children_list(0), vec![1]);
}

#[test]
fn fan_out_addresses_every_child() {
    let mut router = MessageRouter::new();
    let root = router.add_worker(vec![]);
    let left = router.add_worker(vec![root]);
    let right = router.add_worker(vec![root]);
    let updates = vec![add(vec![1.into()]), RowUpdate::Remove(vec![2.into()].into())];
    let out = router.fan_out(root, &updates);
    assert_eq!(out.len(), 2);
    assert_eq!((out[0].source, out[0].destination), (root, right));
    assert_eq!((out[1].source, out[1].destination), (root, left));
    for envelope in out.iter() {
        assert_eq!(envelope.updates.len(), 2);
        assert!(envelope.updates[0].is_add());
        assert_eq!(envelope.updates[0][0], 1.into());
        assert!(!envelope.updates[1].is_add());
        assert_eq!(envelope.updates[1][0], 2.into());
    }
    assert_eq!(router.fan_out(root, &vec![]).len(), 0);
    assert_eq!(router.fan_out(left, &updates).len(), 0);
    assert_eq!(router.fan_out(17, &updates).len(), 0);
}

#[test]
fn messages_arrive_in_the_order_sent() {
    let mut router = MessageRouter::new();
    let id = router.add_worker(vec![]);
    for i in 0..10 {
        router.send_message(id, batch(vec![add(vec![i.into()])], id));
    }
    for i in 0..10 {
        assert_eq!(first_column(router.next_message(id)), i.into());
    }
}

#[test]
fn updates_reach_the_children_with_their_addresses() {
    let mut router = MessageRouter::new();
    let root = router.add_worker(vec![]);
    let left = router.add_worker(vec![root]);
    let right = router.add_worker(vec![root]);
    router.send_updates(root, vec![add(vec![5.into()])]);
    router.send_updates(root, vec![]);
    router.send_updates(root, vec![add(vec![6.into()])]);
    router.send_message(left, Message::Stop);
    router.send_message(right, Message::Stop);
    for child in [left, right] {
        for expected in [5, 6] {
            match router.next_message(child) {
                Message::Update(u) => {
                    assert_eq!(u.source, root);
                    assert_eq!(u.destination, child);
                    assert_eq!(u.updates.len(), 1);
                    assert_eq!(u.updates[0][0], expected.into());
                }
                Message::Stop => panic!("a batch was expected"),
            }
        }
        assert!(matches!(router.next_message(child), Message::Stop));
    }
}

#[test]
fn an_unknown_worker_is_told_to_stop() {
    let mut router = MessageRouter::new();
    let id = router.add_worker(vec![]);
    router.send_message(id + 1, batch(vec![add(vec![1.into()])], id + 1));
    router.send_message(id + 1, Message::Stop);
    assert!(matches!(router.next_message(id + 1), Message::Stop));
    assert!(router.iter(id + 1).next().is_none());
    router.send_updates(id + 1, vec![add(vec![1.into()])]);
    router.send_message(id, Message::Stop);
    assert!(matches!(router.next_message(id), Message::Stop));
}

#[test]
fn the_sequence_of_messages_ends_at_stop() {
    let mut router = MessageRouter::new();
    let id = router.add_worker(vec![]);
    router.send_message(id, batch(vec![add(vec![1.into()])], id));
    router.send_message(id, batch(vec![add(vec![2.into()])], id));
    router.send_message(id, Message::Stop);
    router.send_message(id, batch(vec![add(vec![3.into()])], id));
    let mut messages = router.iter(id);
    assert_eq!(messages.worker_id, id);
    assert_eq!(first_column(messages.next().unwrap()), 1.into());
    assert_eq!(first_column(messages.next().unwrap()), 2.into());
    assert!(messages.next().is_none());
    assert_eq!(first_column(messages.next().unwrap()), 3.into());
}

#[test]
fn a_closed_inbox_reads_as_stop() {
    assert!(matches!(received(None), Message::Stop));
    assert!(matches!(received(Some(Message::Stop)), Message::Stop));
    assert_eq!(first_column(received(Some(batch(vec![add(vec![4.into()])], 0)))), 4.into());
    assert!(yielded(Message::Stop).is_none());
    assert_eq!(first_column(yielded(batch(vec![add(vec![4.into()])], 0)).unwrap()), 4.into());
}

#[test]
fn an_inbox_holds_as_many_messages_as_asked() {
    let mut router = MessageRouter::with_capacity(2);
    let id = router.add_worker(vec![]);
    assert_eq!(router.inbox_capacity(id), Some(2));
    assert_eq!(router.inbox_capacity(id + 1), None);
    router.send_message(id, batch(vec![add(vec![1.into()])], id));
    router.send_message(id, Message::Stop);
    assert_eq!(first_column(router.next_message(id)), 1.into());
    assert!(matches!(router.next_message(id), Message::Stop));
}

#[test]
fn a_worker_stops_once_and_later_stops_do_no_harm() {
    let mut router = MessageRouter::new();
    let mut worker = OpWorker::new(&mut router, Filter { constraints: vec![] }, vec![]);
    let mut sink = DebugWorker::new(&mut router, vec![worker.id]);
    router.send_message(worker.id, batch(vec![add(vec![1.into()])], worker.id));
    router.send_message(worker.id, Message::Stop);
    router.send_message(worker.id, Message::Stop);
    router.send_message(worker.id, Message::Stop);
    assert_eq!(worker.step(&router), Status::Running);
    assert_eq!(worker.step(&router), Status::Stopped);
    router.send_message(sink.id, Message::Stop);
    router.send_message(sink.id, Message::Stop);
    let seen = sink.step(&router).unwrap();
    assert_eq!(seen.updates[0][0], 1.into());
    assert!(sink.step(&router).is_none());
    assert!(matches!(worker.react(Message::Stop), Reaction::Halt));
}

#[test]
fn a_worker_reports_a_batch_that_its_operator_cannot_process() {
    let mut router = MessageRouter::new();
    let mut worker = OpWorker::new(
        &mut router,
        Projection { sources: vec![Source::Column(3)] },
        vec![],
    );
    router.send_message(worker.id, batch(vec![add(vec![1.into()])], worker.id));
    assert_eq!(worker.step(&router), Status::Failed);
    assert!(matches!(
        worker.react(batch(vec![add(vec![1.into(), 2.into(), 3.into(), 4.into()])], 0)),
        Reaction::Forward(out) if out.len() == 1 && out[0][0] == 4.into()
    ));
}

#[test]
fn the_reference_pipeline_counts_what_passes_the_filter() {
    let mut router = MessageRouter::new();
    let mut filter = OpWorker::new(
        &mut router,
        Filter {
            constraints: vec![ColumnConstraint {
                column: 0,
                constraint: Constraint::Comparison(Comparison::GreaterThan, DataType::Integer(30)),
            }],
        },
        vec![],
    );
    let mut projection = OpWorker::new(
        &mut router,
        Projection { sources: vec![Source::Column(1)] },
        vec![filter.id],
    );
    let mut count = OpWorker::new(
        &mut router,
        Count {
            source: Source::Literal(1.into()),
            group: vec![0],
            state: MemStore::new(),
        },
        vec![projection.id],
    );
    let mut sink = DebugWorker::new(&mut router, vec![count.id]);
    assert_eq!((filter.id, projection.id, count.id, sink.id), (0, 1, 2, 3));

    let inputs: Vec<(i32, bool)> = vec![(300, true), (200, true), (20, true), (50, false)];
    for (n, flag) in inputs {
        router.send_message(filter.id, batch(vec![add(vec![n.into(), flag.into()])], filter.id));
    }
    router.send_message(filter.id, Message::Stop);
    for _ in 0..4 {
        assert_eq!(filter.step(&router), Status::Running);
    }
    assert_eq!(filter.step(&router), Status::Stopped);

    router.send_message(projection.id, Message::Stop);
    for _ in 0..3 {
        assert_eq!(projection.step(&router), Status::Running);
    }
    assert_eq!(projection.step(&router), Status::Stopped);

    router.send_message(count.id, Message::Stop);
    for _ in 0..3 {
        assert_eq!(count.step(&router), Status::Running);
    }
    assert_eq!(count.step(&router), Status::Stopped);

    router.send_message(sink.id, Message::Stop);
    let expected: Vec<(bool, i32)> = vec![(true, 1), (true, 2), (false, 1)];
    for (flag, n) in expected {
        let seen = sink.step(&router).unwrap();
        assert_eq!(seen.source, count.id);
        assert_eq!(seen.destination, sink.id);
        assert_eq!(seen.updates.len(), 1);
        assert!(seen.updates[0].is_add());
        assert_eq!(seen.updates[0].row().data, vec![flag.into(), n.into()]);
    }
    assert!(sink.step(&router).is_none());
    assert_eq!(count.op.state.get(&vec![true.into()]), vec![DataType::Integer(2)]);
    assert_eq!(count.op.state.get(&vec![false.into()]), vec![DataType::Integer(1)]);
}

#[test]
fn every_inbox_has_the_capacity_of_its_router() {
    let mut router = MessageRouter::new();
    assert_eq!(router.inbox_capacity(0), None);
    let first = router.add_worker(vec![]);
    let second = router.try_add_worker(vec![first]).unwrap();
    assert_eq!(router.inbox_capacity(first), Some(10));
    assert_eq!(router.inbox_capacity(second), Some(10));
    assert_eq!(router.inbox_capacity(second + 1), None);

    for capacity in [0u16, 1, 7, 300] {
        let mut router = MessageRouter::with_capacity(capacity);
        let worker = OpWorker::new(&mut router, Filter { constraints: vec![] }, vec![]);
        let sink = DebugWorker::new(&mut router, vec![worker.id]);
        assert_eq!(router.inbox_capacity(worker.id), Some(usize::from(capacity)));
        assert_eq!(router.inbox_capacity(sink.id), Some(usize::from(capacity)));
    }
}

#[test]
fn a_debug_worker_shows_a_batch_and_then_sends_it_on() {
    let mut router = MessageRouter::new();
    let sink = DebugWorker::new(&mut router, vec![]);
    let below = router.add_worker(vec![sink.id]);
    router.send_message(sink.id, batch(vec![add(vec![8.into()])], sink.id));
    router.send_message(sink.id, Message::Stop);
    let seen = sink.receive(&router).unwrap();
    assert_eq!(seen.updates[0][0], 8.into());
    sink.forward(&router, &seen);
    assert!(sink.receive(&router).is_none());
    router.send_message(below, Message::Stop);
    match router.next_message(below) {
        Message::Update(u) => {
            assert_eq!((u.source, u.destination), (sink.id, below));
            assert_eq!(u.updates.len(), 1);
            assert!(u.updates[0].is_add());
            assert_eq!(u.updates[0][0], 8.into());
        }
        Message::Stop => panic!("a batch was expected"),
    }
    assert!(matches!(router.next_message(below), Message::Stop));
}

#[test]
fn a_worker_runs_its_operator_once_on_each_batch() {
    let mut router = MessageRouter::new();
    let mut worker = OpWorker::new(
        &mut router,
        Count {
            source: Source::Literal(1.into()),
            group: vec![],
            state: MemStore::new(),
        },
        vec![],
    );
    for round in 1..=5 {
        let reaction = worker.react(batch(vec![add(vec![0.into()])], worker.id));
        assert!(matches!(
            reaction,
            Reaction::Forward(out) if out.len() == 1 && out[0][1] == round.into()
        ));
        assert_eq!(worker.op.state.get(&vec![]), vec![DataType::Integer(round)]);
    }
    assert!(matches!(worker.react(Message::Stop), Reaction::Halt));
    assert!(matches!(worker.react(Message::Stop), Reaction::Halt));
    assert_eq!(worker.op.state.get(&vec![]), vec![DataType::Integer(5)]);
    let sixth = worker.react(batch(vec![add(vec![])], worker.id));
    assert!(matches!(sixth, Reaction::Forward(out) if out[0][0] == 6.into()));
}
