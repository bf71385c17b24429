use dataflow::operations::data::{Comparison, DataType, Row, RowUpdate, Source, Updates};
use ordered_float::OrderedFloat;

fn float(x: f32) -> DataType {
    DataType::from_float_bits(x.to_bits())
}

fn check_equality() {
    assert_eq!(
        Comparison::Equal.compare(&DataType::Null, &DataType::Null),
        true
    );
    assert_eq!(
        Comparison::NotEqual.compare(&DataType::Null, &DataType::Null),
        false
    );

    assert_eq!(Comparison::Equal.compare(&1.into(), &1.into()), true);
    assert_eq!(Comparison::Equal.compare(&1.into(), &2.into()), false);

    assert_eq!(Comparison::NotEqual.compare(&1.into(), &1.into()), false);
    assert_eq!(Comparison::NotEqual.compare(&1.into(), &2.into()), true);

    assert_eq!(Comparison::Equal.compare(&float(1.0), &float(1.0)), true);
    assert_eq!(Comparison::Equal.compare(&float(1.0), &float(2.0)), false);

    assert_eq!(
        Comparison::NotEqual.compare(&float(1.0), &float(1.0)),
        false
    );
    assert_eq!(Comparison::NotEqual.compare(&float(1.0), &float(2.0)), true);

    assert_eq!(
        Comparison::Equal.compare(&"Hello There".into(), &"Hello There".into()),
        true
    );
    assert_eq!(
        Comparison::Equal.compare(&"Hello There".into(), &"General Kenobi".into()),
        false
    );

    assert_eq!(
        Comparison::NotEqual.compare(&"Hello There".into(), &"Hello There".into()),
        false
    );
    assert_eq!(
        Comparison::NotEqual.compare(&"Hello There".into(), &"General Kenobi".into()),
        true
    );

    assert_eq!(Comparison::Equal.compare(&true.into(), &true.into()), true);
    assert_eq!(
        Comparison::Equal.compare(&true.into(), &false.into()),
        false
    );

    assert_eq!(
        Comparison::NotEqual.compare(&true.into(), &true.into()),
        false
    );
    assert_eq!(
        Comparison::NotEqual.compare(&true.into(), &false.into()),
        true
    );
}

#[test]
fn equality_works() {
    check_equality();
}

#[test]
fn data_equality_works() {
    check_equality();
}

#[test]
fn variants_are_ordered_as_declared() {
    let ladder: Vec<DataType> = vec![
        DataType::Null,
        0.into(),
        "".into(),
        false.into(),
        float(-1.0),
    ];
    for i in 0..ladder.len() {
        for j in 0..ladder.len() {
            assert_eq!(Comparison::LessThan.compare(&ladder[i], &ladder[j]), i < j);
            assert_eq!(Comparison::GreaterThan.compare(&ladder[i], &ladder[j]), i > j);
            assert_eq!(Comparison::LessEqualThan.compare(&ladder[i], &ladder[j]), i <= j);
            assert_eq!(Comparison::GreaterEqualThan.compare(&ladder[i], &ladder[j]), i >= j);
            assert_eq!(ladder[i] < ladder[j], i < j);
        }
    }
    assert!(Comparison::LessThan.compare(&DataType::Null, &0.into()));
    assert!(Comparison::LessThan.compare(&i32::MAX.into(), &"".into()));
}

#[test]
fn integers_and_booleans_compare_by_value() {
    assert!(Comparison::LessThan.compare(&(-5).into(), &3.into()));
    assert!(Comparison::GreaterThan.compare(&300.into(), &30.into()));
    assert!(!Comparison::GreaterThan.compare(&30.into(), &30.into()));
    assert!(Comparison::GreaterEqualThan.compare(&30.into(), &30.into()));
    assert!(Comparison::LessEqualThan.compare(&30.into(), &30.into()));
    assert!(Comparison::LessThan.compare(&false.into(), &true.into()));
    assert!(!Comparison::LessThan.compare(&true.into(), &false.into()));
    assert!(!Comparison::LessThan.compare(&true.into(), &true.into()));
}

#[test]
fn texts_compare_as_strings_do() {
    let words = ["", "a", "ab", "abc", "b", "ba", "Z", "é", "z", "日本", "a\u{10000}", "a\u{ffff}"];
    for x in words {
        for y in words {
            let (dx, dy): (DataType, DataType) = (x.into(), y.into());
            assert_eq!(Comparison::LessThan.compare(&dx, &dy), x < y, "{x:?} < {y:?}");
            assert_eq!(Comparison::Equal.compare(&dx, &dy), x == y);
            assert_eq!(Comparison::GreaterEqualThan.compare(&dx, &dy), x >= y);
        }
    }
    let owned: DataType = String::from("abc").into();
    assert_eq!(owned, "abc".into());
}

#[test]
fn floats_compare_by_value() {
    let ladder = [
        f32::NEG_INFINITY,
        -2.5,
        -1.0,
        -f32::MIN_POSITIVE,
        0.0,
        f32::MIN_POSITIVE,
        1.0,
        2.5,
        f32::INFINITY,
    ];
    for (i, x) in ladder.iter().enumerate() {
        for (j, y) in ladder.iter().enumerate() {
            assert_eq!(Comparison::LessThan.compare(&float(*x), &float(*y)), i < j);
            assert_eq!(Comparison::Equal.compare(&float(*x), &float(*y)), i == j);
            assert_eq!(float(*x) < float(*y), i < j);
        }
    }
    assert_eq!(float(0.0), float(-0.0));
    assert_eq!(float(1.0), DataType::Float(0x3f80_0000));
    assert_eq!(float(-1.0), DataType::Float(-0x3f80_0000));
    assert_eq!(DataType::from_float_bits(0), DataType::Float(0));
    assert_eq!(DataType::from_float_bits(0x8000_0000), DataType::Float(0));
    assert_eq!(DataType::from_float_bits(0xffff_ffff), DataType::Float(-0x7fff_ffff));
}

#[test]
fn rows_read_and_write_by_position() {
    let mut row: Row = vec![1.into(), "x".into(), DataType::Null].into();
    assert_eq!(row[0], 1.into());
    assert_eq!(row[1], "x".into());
    assert_eq!(row[2], DataType::Null);
    row.put(1, true.into());
    assert_eq!(row.data, vec![1.into(), true.into(), DataType::Null]);

    let mut update = RowUpdate::Remove(row.clone());
    assert!(!update.is_add());
    assert_eq!(update[1], true.into());
    update.put(0, 7.into());
    assert_eq!(update.row().data, vec![7.into(), true.into(), DataType::Null]);
    assert!(!update.is_add());
    assert!(RowUpdate::Add(row).is_add());
}

#[test]
fn a_bare_list_of_updates_is_a_batch_from_zero_to_zero() {
    let batch: Updates = vec![RowUpdate::Add(vec![1.into()].into())].into();
    assert_eq!(batch.source, 0);
    assert_eq!(batch.destination, 0);
    assert_eq!(batch.updates.len(), 1);
    assert_eq!(batch.updates[0][0], 1.into());
}

#[test]
fn sources_select_a_column_or_a_constant() {
    let row: Row = vec![10.into(), "b".into()].into();
    assert!(Source::Column(1).fits(&row));
    assert!(!Source::Column(2).fits(&row));
    assert!(Source::Literal(DataType::Null).fits(&row));
    assert_eq!(Source::Column(1).resolve(&row), "b".into());
    assert_eq!(Source::Literal(5.into()).resolve(&row), 5.into());
}

#[test]
fn float_keys_order_as_ordered_floats_do() {
    let samples = [
        f32::NEG_INFINITY,
        f32::MIN,
        -3.5e10,
        -1.0,
        -1.0e-40,
        -0.0,
        0.0,
        1.0e-40,
        0.1,
        1.0,
        16_777_216.0,
        f32::MAX,
        f32::INFINITY,
    ];
    for x in samples {
        for y in samples {
            let (ox, oy) = (OrderedFloat(x), OrderedFloat(y));
            assert_eq!(Comparison::LessThan.compare(&float(x), &float(y)), ox < oy);
            assert_eq!(Comparison::Equal.compare(&float(x), &float(y)), ox == oy);
            assert_eq!(Comparison::GreaterThan.compare(&float(x), &float(y)), ox > oy);
            assert_eq!(float(x).cmp(&float(y)), ox.cmp(&oy));
        }
        assert!(Comparison::LessThan.compare(&float(x), &float(f32::NAN.abs())));
        assert!(OrderedFloat(x) < OrderedFloat(f32::NAN));
    }
}
