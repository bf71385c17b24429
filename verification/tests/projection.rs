use dataflow::operations::data::{DataType, RowUpdate, Source, Updates};
use dataflow::operations::{Operation, Projection};

#[test]
fn one_output_per_input_with_one_column_per_source() {
    let mut node = Projection {
        sources: vec![
            Source::Column(1),
            Source::Literal(7.into()),
            Source::Column(0),
            Source::Column(1),
        ],
    };
    let out = node.process(
        vec![
            RowUpdate::Add(vec![1.into(), "a".into()].into()),
            RowUpdate::Remove(vec![2.into(), DataType::Null, true.into()].into()),
        ]
        .into(),
    );
    assert_eq!(out.len(), 2);
    assert!(out[0].is_add());
    assert_eq!(out[0].row().data, vec!["a".into(), 7.into(), 1.into(), "a".into()]);
    assert!(!out[1].is_add());
    assert_eq!(
        out[1].row().data,
        vec![DataType::Null, 7.into(), 2.into(), DataType::Null]
    );
}

#[test]
fn no_sources_give_empty_rows() {
    let mut node = Projection { sources: vec![] };
    let out = node.process(vec![RowUpdate::Add(vec![1.into()].into())].into());
    assert_eq!(out.len(), 1);
    assert_eq!(out[0].row().data.len(), 0);
    assert_eq!(node.process(vec![].into()).len(), 0);
}

#[test]
fn a_projection_refuses_a_row_without_the_column() {
    let mut node = Projection { sources: vec![Source::Column(1)] };
    let short: Updates = vec![RowUpdate::Add(vec![1.into()].into())].into();
    assert!(!node.admits(&short));
    assert!(node.try_process(short).is_none());
    let fine: Updates = vec![RowUpdate::Add(vec![1.into(), 2.into()].into())].into();
    assert!(node.admits(&fine));
    let out = node.try_process(fine).unwrap();
    assert_eq!(out[0].row().data, vec![2.into()]);
}
