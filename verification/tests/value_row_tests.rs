use row_convert::value::Date;
use row_convert::value::Value;
use row_convert::value_row::ColumnType;
use row_convert::value_row::TryFromValueRow;
use row_convert::value_row::ValueRow;
use std::convert::Infallible;

#[derive(Debug)]
struct Foo {
    val: i64,
}

impl TryFromValueRow for Foo {
    type Error = Infallible;
    fn try_from_row(mut values: ValueRow, _schema: &[ColumnType]) -> Result<Self, Self::Error> {
        Ok(values
            .pop()
            .map(|val| Foo {
                val: val.and_then(|v| v.to_i64()).expect("val to be an bigint"),
            })
            .expect("value"))
    }
}

#[test]
fn test_custom_type() {
    let row: ValueRow = vec![Some(Value::Bigint(42))];

    let foo = Foo::try_from_row(row, &[]).expect("fetch data");

    assert_eq!(foo.val, 42);
}

#[test]
fn test_single_value() {
    let row: ValueRow = vec![Some(Value::Bigint(42))];

    let value = Value::try_from_row(row, &[]).expect("fetch data");

    assert_eq!(value.to_i64().unwrap(), 42);
}

#[test]
fn test_single_nullable_value() {
    let row: ValueRow = vec![Some(Value::Bigint(42))];

    let value = <Option<Value>>::try_from_row(row, &[]).expect("fetch data");

    assert!(value.is_some());
    assert_eq!(value.unwrap().to_i64().unwrap(), 42);

    let row: ValueRow = vec![None];

    let value = <Option<Value>>::try_from_row(row, &[]).expect("fetch data");

    assert!(value.is_none());
}

#[test]
fn test_value_row() {
    let row: ValueRow = vec![Some(Value::Bigint(42)), Some(Value::Integer(22))];

    let value = ValueRow::try_from_row(row, &[]).expect("fetch data");

    assert_eq!(value.len(), 2);
    assert_eq!(value[0].as_ref().unwrap().to_i64().unwrap(), 42);
    assert_eq!(value[1].as_ref().unwrap().to_i32().unwrap(), 22);
}

#[test]
fn test_single_copy() {
    let row: ValueRow = vec![Some(Value::Bit(true))];

    let value = bool::try_from_row(row, &[]).expect("fetch data");

    assert_eq!(value, true);

    let row: ValueRow = vec![Some(Value::Bit(true))];

    let value = <Option<bool>>::try_from_row(row, &[]).expect("fetch data");

    assert_eq!(value.unwrap(), true);

    let row: ValueRow = vec![None];

    let value = <Option<bool>>::try_from_row(row, &[]).expect("fetch data");

    assert!(value.is_none());

    let row: ValueRow = vec![Some(Value::Bigint(42))];

    let value = i64::try_from_row(row, &[]).expect("fetch data");

    assert_eq!(value, 42);

    let row: ValueRow = vec![Some(Value::Bigint(42))];

    let value = <Option<i64>>::try_from_row(row, &[]).expect("fetch data");

    assert_eq!(value.unwrap(), 42i64);

    let row: ValueRow = vec![None];

    let value = <Option<i64>>::try_from_row(row, &[]).expect("fetch data");

    assert!(value.is_none());
}

#[test]
fn test_single_unsigned() {
    let row: ValueRow = vec![Some(Value::Bigint(42))];

    let value = <Option<u64>>::try_from_row(row, &[]).expect("fetch data");

    assert_eq!(value.unwrap(), 42u64);
}

#[test]
#[should_panic(expected = "ValueOutOfRange")]
fn test_single_unsigned_err() {
    let row: ValueRow = vec![Some(Value::Bigint(-666))];

    let _value = <Option<u64>>::try_from_row(row, &[]).expect("fetch data");
}

#[test]
fn test_single_string() {
    let row: ValueRow = vec![Some(Value::Text(String::from("foo")))];

    let value = String::try_from_row(row, &[]).expect("fetch data");

    assert_eq!(&value, "foo");

    let row: ValueRow = vec![Some(Value::Text(String::from("foo")))];

    let value = <Option<String>>::try_from_row(row, &[]).expect("fetch data");

    assert_eq!(&value.unwrap(), "foo");

    let row: ValueRow = vec![None];

    let value = <Option<String>>::try_from_row(row, &[]).expect("fetch data");

    assert!(value.is_none());
}

#[test]
fn test_single_date() {
    let row: ValueRow = vec![Some(Value::Date(Date::new(2019, 4, 2)))];

    let value = Date::try_from_row(row, &[]).expect("fetch data");

    assert_eq!(value.year(), 2019);
    assert_eq!(value.month(), 4);
    assert_eq!(value.day(), 2);

    let row: ValueRow = vec![Some(Value::Date(Date::new(2019, 4, 2)))];

    let value = <Option<Date>>::try_from_row(row, &[]).expect("fetch data");

    assert_eq!(value.unwrap().year(), 2019);
    assert_eq!(value.unwrap().month(), 4);
    assert_eq!(value.unwrap().day(), 2);

    let row: ValueRow = vec![None];

    let value = <Option<Date>>::try_from_row(row, &[]).expect("fetch data");

    assert!(value.is_none());
}

#[test]
fn test_tuple_value() {
    let row: ValueRow = vec![
        Some(Value::Text(String::from("foo"))),
        Some(Value::Bigint(42)),
        Some(Value::Bit(true)),
    ];

    let value = <(String, i64, bool)>::try_from_row(row, &[]).expect("fetch data");

    assert_eq!(&value.0, "foo");
    assert_eq!(value.1, 42);
    assert_eq!(value.2, true);

    let row: ValueRow = vec![
        Some(Value::Text(String::from("foo"))),
        Some(Value::Bigint(42)),
        Some(Value::Bit(true)),
    ];

    let value = <(Option<String>, i64, Option<bool>)>::try_from_row(row, &[]).expect("fetch data");

    assert_eq!(&value.0.unwrap(), "foo");
    assert_eq!(value.1, 42);
    assert_eq!(value.2.unwrap(), true);

    let row: ValueRow = vec![None, Some(Value::Bigint(42)), None];

    let value = <(Option<String>, i64, Option<bool>)>::try_from_row(row, &[]).expect("fetch data");

    assert!(&value.0.is_none());
    assert_eq!(value.1, 42);
    assert!(value.2.is_none());
}

#[test]
fn test_value_row_conversions() {
    let test_row: ValueRow = vec![Some(Value::Bit(true)), Some(Value::Integer(42)), None];

    let (b, u, s) =
        <(Option<bool>, Option<u32>, Option<String>)>::try_from_row(test_row, &[]).unwrap();
    assert_eq!(b, Some(true));
    assert_eq!(u, Some(42));
    assert_eq!(s, None);
}
