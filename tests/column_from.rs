use fusequery::column::{
    from_date_data, from_date_data_with_validity, from_nullable_timestamp_data,
    from_timestamp_data, from_timestamp_data_with_validity, BooleanType, Column, ColumnFrom,
    Float32Type, Float64Type, FromData, Int8Type, NullableColumn, NullableType, StringType,
    TimestampType,
};

#[test]
fn test() {
    let a = Int8Type::from_data(vec![1, 2, 3]);
    let b = Int8Type::from_data(vec![1, 2, 3].into_iter().collect::<Vec<i8>>());
    assert!(a == b);

    let a = TimestampType::from_data(vec![1, 2, 3]);
    let b = TimestampType::from_data(vec![1, 2, 3].into_iter().collect::<Vec<i64>>());
    assert!(a == b);

    let a = Float32Type::from_data(vec![1.0f32, 2.0, 3.0].iter().map(|f| f.to_bits()).collect::<Vec<u32>>());
    let b = Float32Type::from_data(
        vec![1.0f32, 2.0, 3.0]
            .into_iter()
            .map(|f| f.to_bits())
            .collect::<Vec<u32>>(),
    );
    assert!(a == b);

    let a = NullableType::<TimestampType>::from_data(vec![Some(1), None, Some(3)]);
    let b = NullableType::<TimestampType>::from_data(
        vec![Some(1), None, Some(3)].into_iter().collect::<Vec<Option<i64>>>(),
    );
    assert!(a == b);
}

fn nullable(column: Column, validity: Vec<bool>) -> Column {
    Column::Nullable(Box::new(NullableColumn { column, validity }))
}

#[test]
fn timestamp_columns() {
    assert_eq!(from_timestamp_data(vec![5, -1]), Column::Timestamp(vec![5, -1]));
    assert_eq!(
        from_timestamp_data_with_validity(vec![5, -1], vec![true, false]),
        nullable(Column::Timestamp(vec![5, -1]), vec![true, false])
    );
}

#[test]
fn nullable_timestamp_column_keeps_present_values() {
    assert_eq!(
        from_nullable_timestamp_data(vec![Some(1), None, Some(3)]),
        nullable(Column::Timestamp(vec![1, 3]), vec![true, false, true])
    );
    assert_eq!(
        from_nullable_timestamp_data(vec![]),
        nullable(Column::Timestamp(vec![]), vec![])
    );
}

#[test]
fn date_columns() {
    assert_eq!(from_date_data(vec![18000]), Column::Date(vec![18000]));
    assert_eq!(
        from_date_data_with_validity(vec![18000, 0], vec![false, true]),
        nullable(Column::Date(vec![18000, 0]), vec![false, true])
    );
}

#[test]
fn nullable_type_fills_absent_values_with_defaults() {
    assert_eq!(
        NullableType::<TimestampType>::from_data(vec![Some(1), None, Some(3)]),
        nullable(Column::Timestamp(vec![1, 0, 3]), vec![true, false, true])
    );
    assert_eq!(
        NullableType::<BooleanType>::from_data(vec![None, Some(true)]),
        nullable(Column::Boolean(vec![false, true]), vec![false, true])
    );
}

#[test]
fn column_from_picks_type_of_data() {
    assert_eq!(
        <Column as ColumnFrom<Vec<i16>, [i16; 1]>>::from_data(vec![1, 2]),
        Column::Int16(vec![1, 2])
    );
    assert_eq!(
        <Column as ColumnFrom<Vec<Option<u8>>, [Option<u8>; 1]>>::from_data(vec![Some(4), None]),
        nullable(Column::UInt8(vec![4, 0]), vec![true, false])
    );
    assert_eq!(
        <Column as ColumnFrom<Vec<bool>, [bool; 1]>>::from_data_with_validity(vec![true], vec![false]),
        nullable(Column::Boolean(vec![true]), vec![false])
    );
    assert_eq!(
        Int8Type::from_data_with_validity(vec![1], vec![true]),
        nullable(Column::Int8(vec![1]), vec![true])
    );
}

#[test]
fn string_columns_hold_utf8_bytes() {
    assert_eq!(
        StringType::from_data(vec!["ab", "", "é"]),
        Column::Text(vec![b"ab".to_vec(), vec![], vec![0xc3, 0xa9]])
    );
    assert_eq!(
        <Column as ColumnFrom<Vec<&str>, [Vec<u8>; 2]>>::from_data(vec!["x"]),
        Column::Text(vec![b"x".to_vec()])
    );
}

#[test]
fn float_columns_hold_bit_patterns() {
    assert_eq!(
        Float64Type::from_data(vec![1.5f64.to_bits()]),
        Column::Float64(vec![0x3ff8000000000000])
    );
    assert_eq!(
        Float32Type::from_data(vec![(-2.0f32).to_bits()]),
        Column::Float32(vec![0xc0000000])
    );
}
