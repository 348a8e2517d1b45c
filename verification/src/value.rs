//! The dynamic column value model and single-value conversion.
//!
//! A fetched column holds a [`Value`]: one of a closed set of runtime
//! kinds (boolean bit, integers of several widths, text, calendar date).
//! The [`TryFromValue`] trait is the single-value conversion capability:
//! it turns one nullable dynamic value into one target scalar type, or
//! fails with a [`TryFromValueError`].

use vstd::prelude::*;

verus! {

/// Tag naming the kind of a [`Value`]; used by schema descriptions and
/// by conversion errors to report what was actually found.
#[derive(Debug, Clone, Copy, PartialEq, Eq, Structural)]
pub enum ValueType {
    Bit,
    Tinyint,
    Smallint,
    Integer,
    Bigint,
    Text,
    Date,
}

/// A calendar date as plain year, month and day numbers.
#[derive(Debug, Clone, Copy, PartialEq, Eq, Structural)]
pub struct Date {
    pub year: i32,
    pub month: u32,
    pub day: u32,
}

impl Date {
    /// Builds a date from its components.
    pub fn new(year: i32, month: u32, day: u32) -> (d: Date)
        ensures
            d == (Date { year, month, day }),
    {
        Date { year, month, day }
    }

    /// The year component.
    pub fn year(&self) -> (y: i32)
        ensures
            y == self.year,
    {
        self.year
    }

    /// The month component.
    pub fn month(&self) -> (m: u32)
        ensures
            m == self.month,
    {
        self.month
    }

    /// The day component.
    pub fn day(&self) -> (d: u32)
        ensures
            d == self.day,
    {
        self.day
    }
}

/// One column's runtime value: a tagged union over the supported kinds.
#[derive(Debug, Clone, PartialEq)]
pub enum Value {
    Bit(bool),
    Tinyint(i8),
    Smallint(i16),
    Integer(i32),
    Bigint(i64),
    Text(String),
    Date(Date),
}

impl Value {
    /// The kind tag of this value.
    pub open spec fn value_type_spec(&self) -> ValueType {
        match self {
            Value::Bit(_) => ValueType::Bit,
            Value::Tinyint(_) => ValueType::Tinyint,
            Value::Smallint(_) => ValueType::Smallint,
            Value::Integer(_) => ValueType::Integer,
            Value::Bigint(_) => ValueType::Bigint,
            Value::Text(_) => ValueType::Text,
            Value::Date(_) => ValueType::Date,
        }
    }

    /// Reports which kind of value this is.
    pub fn value_type(&self) -> (t: ValueType)
        ensures
            t == self.value_type_spec(),
    {
        match self {
            Value::Bit(_) => ValueType::Bit,
            Value::Tinyint(_) => ValueType::Tinyint,
            Value::Smallint(_) => ValueType::Smallint,
            Value::Integer(_) => ValueType::Integer,
            Value::Bigint(_) => ValueType::Bigint,
            Value::Text(_) => ValueType::Text,
            Value::Date(_) => ValueType::Date,
        }
    }

    /// The signed 64-bit reading of this value, if it is an integer kind.
    pub open spec fn to_i64_spec(&self) -> Option<i64> {
        match self {
            Value::Tinyint(v) => Some(*v as i64),
            Value::Smallint(v) => Some(*v as i64),
            Value::Integer(v) => Some(*v as i64),
            Value::Bigint(v) => Some(*v),
            _ => None,
        }
    }

    /// Widens any integer kind to `i64`; `None` for non-integer kinds.
    pub fn to_i64(&self) -> (r: Option<i64>)
        ensures
            r == self.to_i64_spec(),
    {
        match self {
            Value::Tinyint(v) => Some(*v as i64),
            Value::Smallint(v) => Some(*v as i64),
            Value::Integer(v) => Some(*v as i64),
            Value::Bigint(v) => Some(*v),
            _ => None,
        }
    }

    /// The signed 32-bit reading of this value, if it is an integer kind
    /// that fits without narrowing.
    pub open spec fn to_i32_spec(&self) -> Option<i32> {
        match self {
            Value::Tinyint(v) => Some(*v as i32),
            Value::Smallint(v) => Some(*v as i32),
            Value::Integer(v) => Some(*v),
            _ => None,
        }
    }

    /// Widens the 32-bit-or-narrower integer kinds to `i32`; `None`
    /// for `Bigint` and the non-integer kinds.
    pub fn to_i32(&self) -> (r: Option<i32>)
        ensures
            r == self.to_i32_spec(),
    {
        match self {
            Value::Tinyint(v) => Some(*v as i32),
            Value::Smallint(v) => Some(*v as i32),
            Value::Integer(v) => Some(*v),
            _ => None,
        }
    }

    /// The boolean reading of this value, if it is a bit.
    pub open spec fn to_bool_spec(&self) -> Option<bool> {
        match self {
            Value::Bit(b) => Some(*b),
            _ => None,
        }
    }

    /// Extracts the boolean of a `Bit` value; `None` for other kinds.
    pub fn to_bool(&self) -> (r: Option<bool>)
        ensures
            r == self.to_bool_spec(),
    {
        match self {
            Value::Bit(b) => Some(*b),
            _ => None,
        }
    }
}

/// Why one dynamic value could not become the requested scalar.
#[derive(Debug, Clone, PartialEq)]
pub enum TryFromValueError {
    /// The value was absent (NULL) but the target type cannot represent
    /// absence; carries the target type's name.
    UnexpectedNullValue(&'static str),
    /// The value's kind does not match the target type; carries the
    /// target type's name and the kind actually found.
    UnexpectedType { expected: &'static str, got: ValueType },
    /// The value's kind matches but its magnitude does not fit the
    /// target type; carries the target type's name.
    ValueOutOfRange(&'static str),
}

/// The single-value conversion capability: turn one nullable dynamic
/// value into `Self`, or fail with a [`TryFromValueError`].
///
/// Every implementation declares its outcome as the spec function
/// [`TryFromValue::from_value_spec`] and must return exactly that.
pub trait TryFromValue: Sized {
    /// The outcome of converting `value` to `Self`.
    spec fn from_value_spec(value: Option<Value>) -> Result<Self, TryFromValueError>;

    /// Converts one nullable dynamic value into `Self`.
    fn try_from_value(value: Option<Value>) -> (r: Result<Self, TryFromValueError>)
        ensures
            r == Self::from_value_spec(value),
    ;
}

/// A dynamic value converts to itself; only absence is rejected.
impl TryFromValue for Value {
    open spec fn from_value_spec(value: Option<Value>) -> Result<Value, TryFromValueError> {
        match value {
            None => Err(TryFromValueError::UnexpectedNullValue("Value")),
            Some(v) => Ok(v),
        }
    }

    fn try_from_value(value: Option<Value>) -> (r: Result<Value, TryFromValueError>) {
        match value {
            None => Err(TryFromValueError::UnexpectedNullValue("Value")),
            Some(v) => Ok(v),
        }
    }
}

/// An optional target never fails on absence: NULL becomes `None`, and
/// a present value converts by the bare target's own rule.
impl<T: TryFromValue> TryFromValue for Option<T> {
    open spec fn from_value_spec(value: Option<Value>) -> Result<Option<T>, TryFromValueError> {
        match value {
            None => Ok(None),
            Some(v) => match T::from_value_spec(Some(v)) {
                Ok(t) => Ok(Some(t)),
                Err(e) => Err(e),
            },
        }
    }

    fn try_from_value(value: Option<Value>) -> (r: Result<Option<T>, TryFromValueError>) {
        match value {
            None => Ok(None),
            Some(v) => match T::try_from_value(Some(v)) {
                Ok(t) => Ok(Some(t)),
                Err(e) => Err(e),
            },
        }
    }
}

impl TryFromValue for bool {
    open spec fn from_value_spec(value: Option<Value>) -> Result<bool, TryFromValueError> {
        match value {
            None => Err(TryFromValueError::UnexpectedNullValue("bool")),
            Some(v) => match v.to_bool_spec() {
                Some(b) => Ok(b),
                None => Err(
                    TryFromValueError::UnexpectedType {
                        expected: "bool",
                        got: v.value_type_spec(),
                    },
                ),
            },
        }
    }

    fn try_from_value(value: Option<Value>) -> (r: Result<bool, TryFromValueError>) {
        match value {
            None => Err(TryFromValueError::UnexpectedNullValue("bool")),
            Some(v) => match v.to_bool() {
                Some(b) => Ok(b),
                None => Err(
                    TryFromValueError::UnexpectedType { expected: "bool", got: v.value_type() },
                ),
            },
        }
    }
}

impl TryFromValue for i64 {
    open spec fn from_value_spec(value: Option<Value>) -> Result<i64, TryFromValueError> {
        match value {
            None => Err(TryFromValueError::UnexpectedNullValue("i64")),
            Some(v) => match v.to_i64_spec() {
                Some(n) => Ok(n),
                None => Err(
                    TryFromValueError::UnexpectedType {
                        expected: "i64",
                        got: v.value_type_spec(),
                    },
                ),
            },
        }
    }

    fn try_from_value(value: Option<Value>) -> (r: Result<i64, TryFromValueError>) {
        match value {
            None => Err(TryFromValueError::UnexpectedNullValue("i64")),
            Some(v) => match v.to_i64() {
                Some(n) => Ok(n),
                None => Err(
                    TryFromValueError::UnexpectedType { expected: "i64", got: v.value_type() },
                ),
            },
        }
    }
}

impl TryFromValue for i32 {
    open spec fn from_value_spec(value: Option<Value>) -> Result<i32, TryFromValueError> {
        match value {
            None => Err(TryFromValueError::UnexpectedNullValue("i32")),
            Some(v) => match v.to_i32_spec() {
                Some(n) => Ok(n),
                None => Err(
                    TryFromValueError::UnexpectedType {
                        expected: "i32",
                        got: v.value_type_spec(),
                    },
                ),
            },
        }
    }

    fn try_from_value(value: Option<Value>) -> (r: Result<i32, TryFromValueError>) {
        match value {
            None => Err(TryFromValueError::UnexpectedNullValue("i32")),
            Some(v) => match v.to_i32() {
                Some(n) => Ok(n),
                None => Err(
                    TryFromValueError::UnexpectedType { expected: "i32", got: v.value_type() },
                ),
            },
        }
    }
}

impl TryFromValue for u64 {
    open spec fn from_value_spec(value: Option<Value>) -> Result<u64, TryFromValueError> {
        match value {
            None => Err(TryFromValueError::UnexpectedNullValue("u64")),
            Some(v) => match v.to_i64_spec() {
                Some(n) => if n >= 0 {
                    Ok(n as u64)
                } else {
                    Err(TryFromValueError::ValueOutOfRange("u64"))
                },
                None => Err(
                    TryFromValueError::UnexpectedType {
                        expected: "u64",
                        got: v.value_type_spec(),
                    },
                ),
            },
        }
    }

    fn try_from_value(value: Option<Value>) -> (r: Result<u64, TryFromValueError>) {
        match value {
            None => Err(TryFromValueError::UnexpectedNullValue("u64")),
            Some(v) => match v.to_i64() {
                Some(n) => if n >= 0 {
                    Ok(n as u64)
                } else {
                    Err(TryFromValueError::ValueOutOfRange("u64"))
                },
                None => Err(
                    TryFromValueError::UnexpectedType { expected: "u64", got: v.value_type() },
                ),
            },
        }
    }
}

impl TryFromValue for u32 {
    open spec fn from_value_spec(value: Option<Value>) -> Result<u32, TryFromValueError> {
        match value {
            None => Err(TryFromValueError::UnexpectedNullValue("u32")),
            Some(v) => match v.to_i64_spec() {
                Some(n) => if 0 <= n <= u32::MAX {
                    Ok(n as u32)
                } else {
                    Err(TryFromValueError::ValueOutOfRange("u32"))
                },
                None => Err(
                    TryFromValueError::UnexpectedType {
                        expected: "u32",
                        got: v.value_type_spec(),
                    },
                ),
            },
        }
    }

    fn try_from_value(value: Option<Value>) -> (r: Result<u32, TryFromValueError>) {
        match value {
            None => Err(TryFromValueError::UnexpectedNullValue("u32")),
            Some(v) => match v.to_i64() {
                Some(n) => if 0 <= n && n <= u32::MAX as i64 {
                    Ok(n as u32)
                } else {
                    Err(TryFromValueError::ValueOutOfRange("u32"))
                },
                None => Err(
                    TryFromValueError::UnexpectedType { expected: "u32", got: v.value_type() },
                ),
            },
        }
    }
}

impl TryFromValue for String {
    open spec fn from_value_spec(value: Option<Value>) -> Result<String, TryFromValueError> {
        match value {
            None => Err(TryFromValueError::UnexpectedNullValue("String")),
            Some(v) => match v {
                Value::Text(s) => Ok(s),
                other => Err(
                    TryFromValueError::UnexpectedType {
                        expected: "String",
                        got: other.value_type_spec(),
                    },
                ),
            },
        }
    }

    fn try_from_value(value: Option<Value>) -> (r: Result<String, TryFromValueError>) {
        match value {
            None => Err(TryFromValueError::UnexpectedNullValue("String")),
            Some(v) => match v {
                Value::Text(s) => Ok(s),
                other => Err(
                    TryFromValueError::UnexpectedType {
                        expected: "String",
                        got: other.value_type(),
                    },
                ),
            },
        }
    }
}

impl TryFromValue for Date {
    open spec fn from_value_spec(value: Option<Value>) -> Result<Date, TryFromValueError> {
        match value {
            None => Err(TryFromValueError::UnexpectedNullValue("Date")),
            Some(v) => match v {
                Value::Date(d) => Ok(d),
                other => Err(
                    TryFromValueError::UnexpectedType {
                        expected: "Date",
                        got: other.value_type_spec(),
                    },
                ),
            },
        }
    }

    fn try_from_value(value: Option<Value>) -> (r: Result<Date, TryFromValueError>) {
        match value {
            None => Err(TryFromValueError::UnexpectedNullValue("Date")),
            Some(v) => match v {
                Value::Date(d) => Ok(d),
                other => Err(
                    TryFromValueError::UnexpectedType {
                        expected: "Date",
                        got: other.value_type(),
                    },
                ),
            },
        }
    }
}

} // verus!
