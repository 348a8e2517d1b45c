use row_convert::digits::u64_to_decimal;
use row_convert::value::Date;
use row_convert::value::TryFromValue;
use row_convert::value::TryFromValueError;
use row_convert::value::Value;
use row_convert::value::ValueType;
use row_convert::value_row::ColumnType;
use row_convert::value_row::RowConvertError;
use row_convert::value_row::RowConvertTupleError;
use row_convert::value_row::TryFromValueRow;
use row_convert::value_row::ValueRow;

fn bigint_row(n: i64) -> ValueRow {
    (0..n).map(|i| Some(Value::Bigint(i))).collect()
}

#[test]
fn scenario_single_integer() {
    let row: ValueRow = vec![Some(Value::Integer(42))];
    let value = i64::try_from_row(row, &[]).unwrap();
    assert_eq!(value, 42);
}

#[test]
fn scenario_optional_absent() {
    let row: ValueRow = vec![None];
    let value = <Option<i64>>::try_from_row(row, &[]).unwrap();
    assert_eq!(value, None);
}

#[test]
fn scenario_two_columns_into_scalar() {
    let row: ValueRow = vec![Some(Value::Integer(42)), Some(Value::Integer(7))];
    let err = i64::try_from_row(row, &[]).unwrap_err();
    assert_eq!(
        err,
        RowConvertError::UnexpectedNumberOfColumns { expected: 1, got: 2 }
    );
}

#[test]
fn scenario_mixed_optional_triple() {
    let row: ValueRow = vec![Some(Value::Bit(true)), Some(Value::Integer(42)), None];
    let value =
        <(Option<bool>, Option<u32>, Option<String>)>::try_from_row(row, &[]).unwrap();
    assert_eq!(value, (Some(true), Some(42), None));
}

#[test]
fn scenario_negative_into_unsigned() {
    let row: ValueRow = vec![Some(Value::Integer(-666))];
    let err = u64::try_from_row(row, &[]).unwrap_err();
    assert_eq!(
        err,
        RowConvertError::ValueConvertError(TryFromValueError::ValueOutOfRange("u64"))
    );
    assert_eq!(
        err.source(),
        Some(&TryFromValueError::ValueOutOfRange("u64"))
    );
}

#[test]
fn scenario_unit_rejects_row() {
    let row: ValueRow = vec![Some(Value::Integer(1)), Some(Value::Integer(2))];
    let err = <()>::try_from_row(row, &[]).unwrap_err();
    assert_eq!(err, RowConvertError::UnexpectedValue);
}

#[test]
fn unit_rejects_empty_row_too() {
    let err = <()>::try_from_row(vec![], &[]).unwrap_err();
    assert_eq!(err, RowConvertError::UnexpectedValue);
}

#[test]
fn identity_round_trips_any_row() {
    let row: ValueRow = vec![None, Some(Value::Bit(false)), None, Some(Value::Tinyint(-3))];
    let back = ValueRow::try_from_row(row.clone(), &[]).unwrap();
    assert_eq!(back, row);

    let empty: ValueRow = vec![];
    let back = ValueRow::try_from_row(empty.clone(), &[]).unwrap();
    assert_eq!(back, empty);
}

#[test]
fn builtin_strategies_ignore_schema() {
    let schema = [ColumnType {
        value_type: ValueType::Text,
        nullable: false,
        name: String::from("misleading"),
    }];
    let row: ValueRow = vec![Some(Value::Bigint(7))];
    let value = i64::try_from_row(row, &schema).unwrap();
    assert_eq!(value, 7);
}

#[test]
fn tuple_arity_1_through_4() {
    let v = <(i64,)>::try_from_row(bigint_row(1), &[]).unwrap();
    assert_eq!(v, (0,));
    let v = <(i64, i64)>::try_from_row(bigint_row(2), &[]).unwrap();
    assert_eq!(v, (0, 1));
    let v = <(i64, i64, i64)>::try_from_row(bigint_row(3), &[]).unwrap();
    assert_eq!(v, (0, 1, 2));
    let v = <(i64, i64, i64, i64)>::try_from_row(bigint_row(4), &[]).unwrap();
    assert_eq!(v, (0, 1, 2, 3));
}

#[test]
fn tuple_arity_5_through_8() {
    let v = <(i64, i64, i64, i64, i64)>::try_from_row(bigint_row(5), &[]).unwrap();
    assert_eq!(v, (0, 1, 2, 3, 4));
    let v = <(i64, i64, i64, i64, i64, i64)>::try_from_row(bigint_row(6), &[]).unwrap();
    assert_eq!(v, (0, 1, 2, 3, 4, 5));
    let v = <(i64, i64, i64, i64, i64, i64, i64)>::try_from_row(bigint_row(7), &[]).unwrap();
    assert_eq!(v, (0, 1, 2, 3, 4, 5, 6));
    let v = <(i64, i64, i64, i64, i64, i64, i64, i64)>::try_from_row(bigint_row(8), &[]).unwrap();
    assert_eq!(v, (0, 1, 2, 3, 4, 5, 6, 7));
}

#[test]
fn tuple_arity_9_through_12() {
    let v = <(i64, i64, i64, i64, i64, i64, i64, i64, i64)>::try_from_row(bigint_row(9), &[])
        .unwrap();
    assert_eq!(v, (0, 1, 2, 3, 4, 5, 6, 7, 8));
    let v = <(i64, i64, i64, i64, i64, i64, i64, i64, i64, i64)>::try_from_row(
        bigint_row(10),
        &[],
    )
    .unwrap();
    assert_eq!(v, (0, 1, 2, 3, 4, 5, 6, 7, 8, 9));
    let v = <(i64, i64, i64, i64, i64, i64, i64, i64, i64, i64, i64)>::try_from_row(
        bigint_row(11),
        &[],
    )
    .unwrap();
    assert_eq!(v, (0, 1, 2, 3, 4, 5, 6, 7, 8, 9, 10));
    let v = <(i64, i64, i64, i64, i64, i64, i64, i64, i64, i64, i64, i64)>::try_from_row(
        bigint_row(12),
        &[],
    )
    .unwrap();
    assert_eq!(v, (0, 1, 2, 3, 4, 5, 6, 7, 8, 9, 10, 11));
}

#[test]
fn tuple_arity_mismatch_reports_actual_count() {
    let err = <(i64,)>::try_from_row(bigint_row(3), &[]).unwrap_err();
    assert_eq!(
        err,
        RowConvertTupleError::UnexpectedNumberOfColumns { expected: 3, tuple: "(A,)" }
    );

    let err = <(i64, i64)>::try_from_row(bigint_row(1), &[]).unwrap_err();
    assert_eq!(
        err,
        RowConvertTupleError::UnexpectedNumberOfColumns { expected: 1, tuple: "(A, B,)" }
    );

    let err = <(i64, i64, i64, i64, i64, i64, i64, i64, i64, i64, i64, i64)>::try_from_row(
        bigint_row(11),
        &[],
    )
    .unwrap_err();
    assert_eq!(
        err,
        RowConvertTupleError::UnexpectedNumberOfColumns {
            expected: 11,
            tuple: "(A, B, C, D, E, F, G, H, I, J, K, L,)",
        }
    );
}

#[test]
fn tuple_count_field_wraps_past_its_width() {
    let row: ValueRow = vec![None; 65537];
    let err = <(Option<i64>,)>::try_from_row(row, &[]).unwrap_err();
    assert_eq!(
        err,
        RowConvertTupleError::UnexpectedNumberOfColumns { expected: 1, tuple: "(A,)" }
    );

    let row: ValueRow = vec![None; 65537];
    let err = <Option<i64>>::try_from_row(row, &[]).unwrap_err();
    assert_eq!(
        err,
        RowConvertError::UnexpectedNumberOfColumns { expected: 1, got: 65537 }
    );
}

#[test]
fn tuple_fails_fast_on_first_bad_position() {
    let row: ValueRow = vec![Some(Value::Bit(true)), None, Some(Value::Text(String::from("x")))];
    let err = <(i64, i64, i64)>::try_from_row(row, &[]).unwrap_err();
    assert_eq!(
        err,
        RowConvertTupleError::ValueConvertError(TryFromValueError::UnexpectedType {
            expected: "i64",
            got: ValueType::Bit,
        })
    );
    assert_eq!(
        err.source(),
        Some(&TryFromValueError::UnexpectedType { expected: "i64", got: ValueType::Bit })
    );
}

#[test]
fn bare_targets_reject_null_with_their_name() {
    let err = i64::try_from_row(vec![None], &[]).unwrap_err();
    assert_eq!(err, RowConvertError::UnexpectedNullValue("i64"));
    assert_eq!(err.message(), "expecting value of type i64 but got NULL");
    assert_eq!(err.source(), None);

    let err = String::try_from_row(vec![None], &[]).unwrap_err();
    assert_eq!(err, RowConvertError::UnexpectedNullValue("String"));

    let err = Value::try_from_row(vec![None], &[]).unwrap_err();
    assert_eq!(err, RowConvertError::UnexpectedNullValue("Value"));
}

#[test]
fn tuple_positions_keep_null_rejections_wrapped() {
    let row: ValueRow = vec![Some(Value::Bigint(1)), None];
    let err = <(i64, i64)>::try_from_row(row, &[]).unwrap_err();
    assert_eq!(
        err,
        RowConvertTupleError::ValueConvertError(TryFromValueError::UnexpectedNullValue("i64"))
    );
    assert_eq!(
        err.source(),
        Some(&TryFromValueError::UnexpectedNullValue("i64"))
    );
}

#[test]
fn kind_mismatches_report_both_sides() {
    let err = bool::try_from_row(vec![Some(Value::Integer(5))], &[]).unwrap_err();
    assert_eq!(
        err,
        RowConvertError::ValueConvertError(TryFromValueError::UnexpectedType {
            expected: "bool",
            got: ValueType::Integer,
        })
    );

    let err = i32::try_from_row(vec![Some(Value::Bigint(5))], &[]).unwrap_err();
    assert_eq!(
        err,
        RowConvertError::ValueConvertError(TryFromValueError::UnexpectedType {
            expected: "i32",
            got: ValueType::Bigint,
        })
    );
}

#[test]
fn unsigned_range_checks() {
    let v = u32::try_from_row(vec![Some(Value::Integer(42))], &[]).unwrap();
    assert_eq!(v, 42u32);

    let err = u32::try_from_row(vec![Some(Value::Bigint(5_000_000_000))], &[]).unwrap_err();
    assert_eq!(
        err,
        RowConvertError::ValueConvertError(TryFromValueError::ValueOutOfRange("u32"))
    );

    let err = u32::try_from_row(vec![Some(Value::Integer(-1))], &[]).unwrap_err();
    assert_eq!(
        err,
        RowConvertError::ValueConvertError(TryFromValueError::ValueOutOfRange("u32"))
    );

    let v = u64::try_from_row(vec![Some(Value::Bigint(i64::MAX))], &[]).unwrap();
    assert_eq!(v, i64::MAX as u64);
}

#[test]
fn narrow_integer_kinds_widen() {
    let v = i64::try_from_row(vec![Some(Value::Tinyint(-7))], &[]).unwrap();
    assert_eq!(v, -7);
    let v = i64::try_from_row(vec![Some(Value::Smallint(300))], &[]).unwrap();
    assert_eq!(v, 300);
    let v = i32::try_from_row(vec![Some(Value::Smallint(-300))], &[]).unwrap();
    assert_eq!(v, -300);
}

#[test]
fn row_error_messages() {
    let m = RowConvertError::UnexpectedNullValue("i64").message();
    assert_eq!(m, "expecting value of type i64 but got NULL");

    let m = RowConvertError::UnexpectedValue.message();
    assert_eq!(m, "expecting no data (unit) but got a row");

    let m = RowConvertError::UnexpectedNumberOfColumns { expected: 1, got: 2 }.message();
    assert_eq!(m, "unexpected number of columns: expected 1 but got 2");

    let m = RowConvertError::ValueConvertError(TryFromValueError::UnexpectedNullValue("i64"))
        .message();
    assert_eq!(m, "failed to convert column value to target type");
}

#[test]
fn tuple_error_messages() {
    let m = RowConvertTupleError::UnexpectedNumberOfColumns { expected: 3, tuple: "(A, B,)" }
        .message();
    assert_eq!(m, "failed to convert row with 3 columns to tuple (A, B,)");

    let m = RowConvertTupleError::ValueConvertError(TryFromValueError::ValueOutOfRange("u64"))
        .message();
    assert_eq!(m, "failed to convert column value to target type");
}

#[test]
fn sources_expose_only_wrapped_causes() {
    assert_eq!(RowConvertError::UnexpectedValue.source(), None);
    assert_eq!(RowConvertError::UnexpectedNullValue("i64").source(), None);
    assert_eq!(
        RowConvertError::UnexpectedNumberOfColumns { expected: 1, got: 0 }.source(),
        None
    );
    assert_eq!(
        RowConvertTupleError::UnexpectedNumberOfColumns { expected: 0, tuple: "(A,)" }.source(),
        None
    );
}

#[test]
fn decimal_rendering() {
    assert_eq!(u64_to_decimal(0), "0");
    assert_eq!(u64_to_decimal(9), "9");
    assert_eq!(u64_to_decimal(10), "10");
    assert_eq!(u64_to_decimal(65537), "65537");
    assert_eq!(u64_to_decimal(u64::MAX), "18446744073709551615");
}

#[test]
fn value_kind_tags() {
    assert_eq!(Value::Bit(true).value_type(), ValueType::Bit);
    assert_eq!(Value::Tinyint(1).value_type(), ValueType::Tinyint);
    assert_eq!(Value::Smallint(1).value_type(), ValueType::Smallint);
    assert_eq!(Value::Integer(1).value_type(), ValueType::Integer);
    assert_eq!(Value::Bigint(1).value_type(), ValueType::Bigint);
    assert_eq!(Value::Text(String::from("x")).value_type(), ValueType::Text);
    assert_eq!(Value::Date(Date::new(2019, 4, 2)).value_type(), ValueType::Date);
}

#[test]
fn scalar_conversion_direct() {
    let v = i64::try_from_value(Some(Value::Bigint(9))).unwrap();
    assert_eq!(v, 9);
    let v = <Option<bool>>::try_from_value(None).unwrap();
    assert_eq!(v, None);
    let err = u64::try_from_value(Some(Value::Bigint(-1))).unwrap_err();
    assert_eq!(err, TryFromValueError::ValueOutOfRange("u64"));
}
