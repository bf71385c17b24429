use dataflow::operations::data::{DataType, RowUpdate, Source, Updates};
use dataflow::operations::state::MemStore;
use dataflow::operations::{Count, Filter, Projection};
use dataflow::processing::worker::Status;
use dataflow::processing::{DebugWorker, Message, MessageRouter, OpWorker};

#[test]
fn every_worker_ends_at_its_stop() {
    let mut router = MessageRouter::new();
    let mut first = OpWorker::new(&mut router, Filter { constraints: vec![] }, vec![]);
    let mut second = OpWorker::new(
        &mut router,
        Projection { sources: vec![Source::Column(0)] },
        vec![first.id],
    );
    let mut third = OpWorker::new(
        &mut router,
        Count {
            source: Source::Column(0),
            group: vec![],
            state: MemStore::new(),
        },
        vec![second.id],
    );
    let mut sink = DebugWorker::new(&mut router, vec![third.id]);

    router.send_message(
        first.id,
        Message::Update(Updates {
            updates: vec![
                RowUpdate::Add(vec![5.into(), "dropped".into()].into()),
                RowUpdate::Add(vec![DataType::Null, "dropped".into()].into()),
            ],
            source: 0,
            destination: first.id,
        }),
    );
    assert_eq!(first.step(&router), Status::Running);
    assert_eq!(second.step(&router), Status::Running);
    assert_eq!(third.step(&router), Status::Running);
    let seen = sink.step(&router).unwrap();
    assert_eq!(seen.updates.len(), 2);
    assert_eq!(seen.updates[0].row().data, vec![5.into(), 1.into()]);
    assert_eq!(seen.updates[1].row().data, vec![DataType::Null, 1.into()]);

    for id in [first.id, second.id, third.id, sink.id] {
        router.send_message(id, Message::Stop);
    }
    assert_eq!(first.step(&router), Status::Stopped);
    assert_eq!(second.step(&router), Status::Stopped);
    assert_eq!(third.step(&router), Status::Stopped);
    assert!(sink.step(&router).is_none());
}
