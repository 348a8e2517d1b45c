//! Conversion of whole rows into caller-chosen target shapes.
//!
//! [`TryFromValueRow`] is the row conversion dispatcher: the target type
//! selects the strategy.  Built in are the identity strategy (the raw
//! [`ValueRow`] itself), the unit strategy (`()`, which always fails,
//! asserting that no row was expected), the single-scalar strategy (any
//! [`TryFromValue`] target, bare or optional), and fixed-arity tuples of
//! scalar targets.  Any other record type may implement the trait with
//! custom logic of its own.

use vstd::prelude::*;

use crate::digits::decimal_chars;
use crate::digits::u64_to_decimal;
use crate::value::TryFromValue;
use crate::value::TryFromValueError;
use crate::value::Value;
use crate::value::ValueType;
use core::convert::Infallible;

verus! {

/// Row of dynamic nullable column values, one entry per column, in
/// column order.  Constructed by the execution layer once per fetched
/// row and consumed by a single conversion.
pub type ValueRow = Vec<Option<Value>>;

/// Description of one column's declared type, nullability and name;
/// an ordered sequence of these, index-aligned with the row, forms the
/// row's schema.
#[derive(Debug, Clone, PartialEq)]
pub struct ColumnType {
    pub value_type: ValueType,
    pub nullable: bool,
    pub name: String,
}

/// The row conversion dispatcher: converts a whole row, together with
/// its schema, into `Self`.
///
/// The row is owned and consumed; the schema is borrowed and may serve
/// many rows of the same query shape.  The built-in implementations
/// ignore the schema and match columns to targets by position alone;
/// custom implementations may consult it (for example to locate columns
/// by name).
pub trait TryFromValueRow: Sized {
    type Error;

    /// Given the row's schema, converts the row into `Self`.
    fn try_from_row(values: ValueRow, schema: &[ColumnType]) -> Result<Self, Self::Error>;
}

/// Errors of the identity, unit and single-scalar strategies.
#[derive(Debug, Clone, PartialEq)]
pub enum RowConvertError {
    /// A value was absent (NULL) where the named target type required
    /// one.
    UnexpectedNullValue(&'static str),
    /// A row arrived although the target type says no row value was
    /// expected.
    UnexpectedValue,
    /// The row has the wrong number of columns for the requested shape.
    UnexpectedNumberOfColumns { expected: u16, got: usize },
    /// The sole column's value failed to convert; carries the
    /// underlying cause.
    ValueConvertError(TryFromValueError),
}

impl RowConvertError {
    /// The human-readable description of this error.
    pub open spec fn message_spec(&self) -> Seq<char> {
        match self {
            RowConvertError::UnexpectedNullValue(t) => "expecting value of type "@ + t@
                + " but got NULL"@,
            RowConvertError::UnexpectedValue => "expecting no data (unit) but got a row"@,
            RowConvertError::UnexpectedNumberOfColumns { expected, got } =>
                "unexpected number of columns: expected "@ + decimal_chars(*expected as nat)
                + " but got "@ + decimal_chars(*got as nat),
            RowConvertError::ValueConvertError(_) =>
                "failed to convert column value to target type"@,
        }
    }

    /// Renders the human-readable description of this error.
    pub fn message(&self) -> (s: String)
        ensures
            s@ == self.message_spec(),
    {
        match self {
            RowConvertError::UnexpectedNullValue(t) => {
                let mut s = String::from_str("expecting value of type ");
                s.append(t);
                s.append(" but got NULL");
                s
            },
            RowConvertError::UnexpectedValue => String::from_str(
                "expecting no data (unit) but got a row",
            ),
            RowConvertError::UnexpectedNumberOfColumns { expected, got } => {
                let mut s = String::from_str("unexpected number of columns: expected ");
                let e = u64_to_decimal(*expected as u64);
                s.append(e.as_str());
                s.append(" but got ");
                let g = u64_to_decimal(*got as u64);
                s.append(g.as_str());
                s
            },
            RowConvertError::ValueConvertError(_) => String::from_str(
                "failed to convert column value to target type",
            ),
        }
    }

    /// The underlying cause, present exactly when a column value failed
    /// to convert.
    pub fn source(&self) -> (r: Option<&TryFromValueError>)
        ensures
            match self {
                RowConvertError::ValueConvertError(c) => r matches Some(e) && e == c,
                _ => r is None,
            },
    {
        match self {
            RowConvertError::ValueConvertError(err) => Some(err),
            _ => None,
        }
    }
}

/// Errors of the fixed-arity tuple strategy.
#[derive(Debug, Clone, PartialEq)]
pub enum RowConvertTupleError {
    /// The row's column count does not equal the tuple's arity; carries
    /// the actual column count and the tuple type's name.
    UnexpectedNumberOfColumns { expected: u16, tuple: &'static str },
    /// A position's value failed to convert; carries the underlying
    /// cause.
    ValueConvertError(TryFromValueError),
}

impl RowConvertTupleError {
    /// The human-readable description of this error.
    pub open spec fn message_spec(&self) -> Seq<char> {
        match self {
            RowConvertTupleError::UnexpectedNumberOfColumns { expected, tuple } =>
                "failed to convert row with "@ + decimal_chars(*expected as nat) + " columns to tuple "@
                + tuple@,
            RowConvertTupleError::ValueConvertError(_) =>
                "failed to convert column value to target type"@,
        }
    }

    /// Renders the human-readable description of this error.
    pub fn message(&self) -> (s: String)
        ensures
            s@ == self.message_spec(),
    {
        match self {
            RowConvertTupleError::UnexpectedNumberOfColumns { expected, tuple } => {
                let mut s = String::from_str("failed to convert row with ");
                let e = u64_to_decimal(*expected as u64);
                s.append(e.as_str());
                s.append(" columns to tuple ");
                s.append(tuple);
                s
            },
            RowConvertTupleError::ValueConvertError(_) => String::from_str(
                "failed to convert column value to target type",
            ),
        }
    }

    /// The underlying cause, present exactly when a position's value
    /// failed to convert.
    pub fn source(&self) -> (r: Option<&TryFromValueError>)
        ensures
            match self {
                RowConvertTupleError::ValueConvertError(c) => r matches Some(e) && e == c,
                _ => r is None,
            },
    {
        match self {
            RowConvertTupleError::ValueConvertError(err) => Some(err),
            _ => None,
        }
    }
}

/// Allows retrieving the unconverted row itself: always succeeds and
/// hands the row back unchanged, absent entries and order included.
impl TryFromValueRow for ValueRow {
    type Error = Infallible;

    fn try_from_row(values: ValueRow, _schema: &[ColumnType]) -> (r: Result<
        ValueRow,
        Infallible,
    >)
        ensures
            r == Ok::<ValueRow, Infallible>(values),
    {
        Ok(values)
    }
}

/// Signals that no rows of data should be produced: always fails,
/// whatever the row holds.
impl TryFromValueRow for () {
    type Error = RowConvertError;

    fn try_from_row(_values: ValueRow, _schema: &[ColumnType]) -> (r: Result<
        (),
        RowConvertError,
    >)
        ensures
            r == Err::<(), RowConvertError>(RowConvertError::UnexpectedValue),
    {
        Err(RowConvertError::UnexpectedValue)
    }
}

/// The outcome of converting a row to a single scalar target `T`: the
/// row must hold exactly one column, whose value then converts by `T`'s
/// own rule.  A null rejection by the target surfaces as the row-level
/// null violation naming the target; every other conversion failure is
/// wrapped with its cause.
pub open spec fn single_from_row_spec<T: TryFromValue>(values: Seq<Option<Value>>) -> Result<
    T,
    RowConvertError,
> {
    if values.len() != 1 {
        Err(
            RowConvertError::UnexpectedNumberOfColumns {
                expected: 1u16,
                got: values.len() as usize,
            },
        )
    } else {
        match T::from_value_spec(values[0]) {
            Ok(t) => Ok(t),
            Err(TryFromValueError::UnexpectedNullValue(n)) => Err(
                RowConvertError::UnexpectedNullValue(n),
            ),
            Err(e) => Err(RowConvertError::ValueConvertError(e)),
        }
    }
}

/// Converts a row with a single column to any type implementing
/// [`TryFromValue`]: a bare scalar target fails on NULL with
/// [`RowConvertError::UnexpectedNullValue`] naming the target, while an
/// optional-wrapped one maps NULL to `None`.
impl<T: TryFromValue> TryFromValueRow for T {
    type Error = RowConvertError;

    fn try_from_row(values: ValueRow, _schema: &[ColumnType]) -> (r: Result<T, RowConvertError>)
        ensures
            r == single_from_row_spec::<T>(values@),
    {
        if values.len() != 1 {
            return Err(
                RowConvertError::UnexpectedNumberOfColumns { expected: 1, got: values.len() },
            );
        }
        let mut values = values;
        let v = values.remove(0);
        match T::try_from_value(v) {
            Ok(t) => Ok(t),
            Err(TryFromValueError::UnexpectedNullValue(n)) => Err(
                RowConvertError::UnexpectedNullValue(n),
            ),
            Err(e) => Err(RowConvertError::ValueConvertError(e)),
        }
    }
}

/// The outcome of binding one tuple position of scalar target `T` to
/// one column's value: `T`'s own conversion, with a failure wrapped
/// with its cause.
pub open spec fn slot_spec<T: TryFromValue>(v: Option<Value>) -> Result<
    T,
    RowConvertTupleError,
> {
    match T::from_value_spec(v) {
        Ok(t) => Ok(t),
        Err(e) => Err(RowConvertTupleError::ValueConvertError(e)),
    }
}

/// Binds one tuple position to one column's value.
fn bind_slot<T: TryFromValue>(v: Option<Value>) -> (r: Result<T, RowConvertTupleError>)
    ensures
        r == slot_spec::<T>(v),
{
    match T::try_from_value(v) {
        Ok(t) => Ok(t),
        Err(e) => Err(RowConvertTupleError::ValueConvertError(e)),
    }
}

/// The arity-mismatch error for a tuple target: reports the actual
/// column count (reduced modulo 2^16 to fit the count field) and the
/// tuple type's name.
pub open spec fn tuple_arity_error_spec(len: nat, tuple: &'static str) -> RowConvertTupleError {
    RowConvertTupleError::UnexpectedNumberOfColumns { expected: (len % 0x10000) as u16, tuple }
}

/// Builds the arity-mismatch error for a tuple target.
fn tuple_arity_error(len: usize, tuple: &'static str) -> (e: RowConvertTupleError)
    ensures
        e == tuple_arity_error_spec(len as nat, tuple),
{
    RowConvertTupleError::UnexpectedNumberOfColumns { expected: (len % 0x10000) as u16, tuple }
}

/// The outcome of converting a row to the 1-tuple `(A,)`: the row must
/// hold exactly 1 column; the column at each index binds the tuple
/// position of the same index, and the first position that fails to
/// convert decides the error.
pub open spec fn tuple1_from_row_spec<A: TryFromValue>(values: Seq<Option<Value>>) -> Result<
    (A,),
    RowConvertTupleError,
> {
    if values.len() != 1 {
        Err(tuple_arity_error_spec(values.len(), "(A,)"))
    } else {
        match slot_spec::<A>(values[0]) {
            Err(e) => Err(e),
            Ok(a) => Ok((a,)),
        }
    }
}

impl<A: TryFromValue> TryFromValueRow for (A,) {
    type Error = RowConvertTupleError;

    fn try_from_row(values: ValueRow, _schema: &[ColumnType]) -> (r: Result<
        (A,),
        RowConvertTupleError,
    >)
        ensures
            r == tuple1_from_row_spec::<A>(values@),
    {
        if values.len() != 1 {
            return Err(tuple_arity_error(values.len(), "(A,)"));
        }
        let mut values = values;
        let a = match bind_slot::<A>(values.remove(0)) {
            Ok(x) => x,
            Err(e) => return Err(e),
        };
        Ok((a,))
    }
}

/// The outcome of converting a row to a 2-tuple; see
/// [`tuple1_from_row_spec`] for the shared rule.
pub open spec fn tuple2_from_row_spec<A: TryFromValue, B: TryFromValue>(
    values: Seq<Option<Value>>,
) -> Result<(A, B), RowConvertTupleError> {
    if values.len() != 2 {
        Err(tuple_arity_error_spec(values.len(), "(A, B,)"))
    } else {
        match slot_spec::<A>(values[0]) {
            Err(e) => Err(e),
            Ok(a) => match slot_spec::<B>(values[1]) {
                Err(e) => Err(e),
                Ok(b) => Ok((a, b)),
            },
        }
    }
}

impl<A: TryFromValue, B: TryFromValue> TryFromValueRow for (A, B) {
    type Error = RowConvertTupleError;

    fn try_from_row(values: ValueRow, _schema: &[ColumnType]) -> (r: Result<
        (A, B),
        RowConvertTupleError,
    >)
        ensures
            r == tuple2_from_row_spec::<A, B>(values@),
    {
        if values.len() != 2 {
            return Err(tuple_arity_error(values.len(), "(A, B,)"));
        }
        let mut values = values;
        let a = match bind_slot::<A>(values.remove(0)) {
            Ok(x) => x,
            Err(e) => return Err(e),
        };
        let b = match bind_slot::<B>(values.remove(0)) {
            Ok(x) => x,
            Err(e) => return Err(e),
        };
        Ok((a, b))
    }
}

/// The outcome of converting a row to a 3-tuple; see
/// [`tuple1_from_row_spec`] for the shared rule.
pub open spec fn tuple3_from_row_spec<A: TryFromValue, B: TryFromValue, C: TryFromValue>(
    values: Seq<Option<Value>>,
) -> Result<(A, B, C), RowConvertTupleError> {
    if values.len() != 3 {
        Err(tuple_arity_error_spec(values.len(), "(A, B, C,)"))
    } else {
        match slot_spec::<A>(values[0]) {
            Err(e) => Err(e),
            Ok(a) => match slot_spec::<B>(values[1]) {
                Err(e) => Err(e),
                Ok(b) => match slot_spec::<C>(values[2]) {
                    Err(e) => Err(e),
                    Ok(c) => Ok((a, b, c)),
                },
            },
        }
    }
}

impl<A: TryFromValue, B: TryFromValue, C: TryFromValue> TryFromValueRow for (A, B, C) {
    type Error = RowConvertTupleError;

    fn try_from_row(values: ValueRow, _schema: &[ColumnType]) -> (r: Result<
        (A, B, C),
        RowConvertTupleError,
    >)
        ensures
            r == tuple3_from_row_spec::<A, B, C>(values@),
    {
        if values.len() != 3 {
            return Err(tuple_arity_error(values.len(), "(A, B, C,)"));
        }
        let mut values = values;
        let a = match bind_slot::<A>(values.remove(0)) {
            Ok(x) => x,
            Err(e) => return Err(e),
        };
        let b = match bind_slot::<B>(values.remove(0)) {
            Ok(x) => x,
            Err(e) => return Err(e),
        };
        let c = match bind_slot::<C>(values.remove(0)) {
            Ok(x) => x,
            Err(e) => return Err(e),
        };
        Ok((a, b, c))
    }
}

/// The outcome of converting a row to a 4-tuple; see
/// [`tuple1_from_row_spec`] for the shared rule.
pub open spec fn tuple4_from_row_spec<A: TryFromValue, B: TryFromValue, C: TryFromValue, D: TryFromValue>(
    values: Seq<Option<Value>>,
) -> Result<(A, B, C, D), RowConvertTupleError> {
    if values.len() != 4 {
        Err(tuple_arity_error_spec(values.len(), "(A, B, C, D,)"))
    } else {
        match slot_spec::<A>(values[0]) {
            Err(e) => Err(e),
            Ok(a) => match slot_spec::<B>(values[1]) {
                    Err(e) => Err(e),
                    Ok(b) => match slot_spec::<C>(values[2]) {
                            Err(e) => Err(e),
                            Ok(c) => match slot_spec::<D>(values[3]) {
                                    Err(e) => Err(e),
                                    Ok(d) => Ok((a, b, c, d)),
                                },
                        },
                },
        }
    }
}

impl<A: TryFromValue, B: TryFromValue, C: TryFromValue, D: TryFromValue> TryFromValueRow for (A, B, C, D) {
    type Error = RowConvertTupleError;

    fn try_from_row(values: ValueRow, _schema: &[ColumnType]) -> (r: Result<
        (A, B, C, D),
        RowConvertTupleError,
    >)
        ensures
            r == tuple4_from_row_spec::<A, B, C, D>(values@),
    {
        if values.len() != 4 {
            return Err(tuple_arity_error(values.len(), "(A, B, C, D,)"));
        }
        let mut values = values;
        let a = match bind_slot::<A>(values.remove(0)) {
            Ok(x) => x,
            Err(e) => return Err(e),
        };
        let b = match bind_slot::<B>(values.remove(0)) {
            Ok(x) => x,
            Err(e) => return Err(e),
        };
        let c = match bind_slot::<C>(values.remove(0)) {
            Ok(x) => x,
            Err(e) => return Err(e),
        };
        let d = match bind_slot::<D>(values.remove(0)) {
            Ok(x) => x,
            Err(e) => return Err(e),
        };
        Ok((a, b, c, d))
    }
}

/// The outcome of converting a row to a 5-tuple; see
/// [`tuple1_from_row_spec`] for the shared rule.
pub open spec fn tuple5_from_row_spec<A: TryFromValue, B: TryFromValue, C: TryFromValue, D: TryFromValue, E: TryFromValue>(
    values: Seq<Option<Value>>,
) -> Result<(A, B, C, D, E), RowConvertTupleError> {
    if values.len() != 5 {
        Err(tuple_arity_error_spec(values.len(), "(A, B, C, D, E,)"))
    } else {
        match slot_spec::<A>(values[0]) {
            Err(e) => Err(e),
            Ok(a) => match slot_spec::<B>(values[1]) {
                    Err(e) => Err(e),
                    Ok(b) => match slot_spec::<C>(values[2]) {
                            Err(e) => Err(e),
                            Ok(c) => match slot_spec::<D>(values[3]) {
                                    Err(e) => Err(e),
                                    Ok(d) => match slot_spec::<E>(values[4]) {
                                            Err(e) => Err(e),
                                            Ok(e) => Ok((a, b, c, d, e)),
                                        },
                                },
                        },
                },
        }
    }
}

impl<A: TryFromValue, B: TryFromValue, C: TryFromValue, D: TryFromValue, E: TryFromValue> TryFromValueRow for (A, B, C, D, E) {
    type Error = RowConvertTupleError;

    fn try_from_row(values: ValueRow, _schema: &[ColumnType]) -> (r: Result<
        (A, B, C, D, E),
        RowConvertTupleError,
    >)
        ensures
            r == tuple5_from_row_spec::<A, B, C, D, E>(values@),
    {
        if values.len() != 5 {
            return Err(tuple_arity_error(values.len(), "(A, B, C, D, E,)"));
        }
        let mut values = values;
        let a = match bind_slot::<A>(values.remove(0)) {
            Ok(x) => x,
            Err(e) => return Err(e),
        };
        let b = match bind_slot::<B>(values.remove(0)) {
            Ok(x) => x,
            Err(e) => return Err(e),
        };
        let c = match bind_slot::<C>(values.remove(0)) {
            Ok(x) => x,
            Err(e) => return Err(e),
        };
        let d = match bind_slot::<D>(values.remove(0)) {
            Ok(x) => x,
            Err(e) => return Err(e),
        };
        let e = match bind_slot::<E>(values.remove(0)) {
            Ok(x) => x,
            Err(e) => return Err(e),
        };
        Ok((a, b, c, d, e))
    }
}

/// The outcome of converting a row to a 6-tuple; see
/// [`tuple1_from_row_spec`] for the shared rule.
pub open spec fn tuple6_from_row_spec<A: TryFromValue, B: TryFromValue, C: TryFromValue, D: TryFromValue, E: TryFromValue, F: TryFromValue>(
    values: Seq<Option<Value>>,
) -> Result<(A, B, C, D, E, F), RowConvertTupleError> {
    if values.len() != 6 {
        Err(tuple_arity_error_spec(values.len(), "(A, B, C, D, E, F,)"))
    } else {
        match slot_spec::<A>(values[0]) {
            Err(e) => Err(e),
            Ok(a) => match slot_spec::<B>(values[1]) {
                    Err(e) => Err(e),
                    Ok(b) => match slot_spec::<C>(values[2]) {
                            Err(e) => Err(e),
                            Ok(c) => match slot_spec::<D>(values[3]) {
                                    Err(e) => Err(e),
                                    Ok(d) => match slot_spec::<E>(values[4]) {
                                            Err(e) => Err(e),
                                            Ok(e) => match slot_spec::<F>(values[5]) {
                                                    Err(e) => Err(e),
                                                    Ok(f) => Ok((a, b, c, d, e, f)),
                                                },
                                        },
                                },
                        },
                },
        }
    }
}

impl<A: TryFromValue, B: TryFromValue, C: TryFromValue, D: TryFromValue, E: TryFromValue, F: TryFromValue> TryFromValueRow for (A, B, C, D, E, F) {
    type Error = RowConvertTupleError;

    fn try_from_row(values: ValueRow, _schema: &[ColumnType]) -> (r: Result<
        (A, B, C, D, E, F),
        RowConvertTupleError,
    >)
        ensures
            r == tuple6_from_row_spec::<A, B, C, D, E, F>(values@),
    {
        if values.len() != 6 {
            return Err(tuple_arity_error(values.len(), "(A, B, C, D, E, F,)"));
        }
        let mut values = values;
        let a = match bind_slot::<A>(values.remove(0)) {
            Ok(x) => x,
            Err(e) => return Err(e),
        };
        let b = match bind_slot::<B>(values.remove(0)) {
            Ok(x) => x,
            Err(e) => return Err(e),
        };
        let c = match bind_slot::<C>(values.remove(0)) {
            Ok(x) => x,
            Err(e) => return Err(e),
        };
        let d = match bind_slot::<D>(values.remove(0)) {
            Ok(x) => x,
            Err(e) => return Err(e),
        };
        let e = match bind_slot::<E>(values.remove(0)) {
            Ok(x) => x,
            Err(e) => return Err(e),
        };
        let f = match bind_slot::<F>(values.remove(0)) {
            Ok(x) => x,
            Err(e) => return Err(e),
        };
        Ok((a, b, c, d, e, f))
    }
}

/// The outcome of converting a row to a 7-tuple; see
/// [`tuple1_from_row_spec`] for the shared rule.
pub open spec fn tuple7_from_row_spec<A: TryFromValue, B: TryFromValue, C: TryFromValue, D: TryFromValue, E: TryFromValue, F: TryFromValue, G: TryFromValue>(
    values: Seq<Option<Value>>,
) -> Result<(A, B, C, D, E, F, G), RowConvertTupleError> {
    if values.len() != 7 {
        Err(tuple_arity_error_spec(values.len(), "(A, B, C, D, E, F, G,)"))
    } else {
        match slot_spec::<A>(values[0]) {
            Err(e) => Err(e),
            Ok(a) => match slot_spec::<B>(values[1]) {
                    Err(e) => Err(e),
                    Ok(b) => match slot_spec::<C>(values[2]) {
                            Err(e) => Err(e),
                            Ok(c) => match slot_spec::<D>(values[3]) {
                                    Err(e) => Err(e),
                                    Ok(d) => match slot_spec::<E>(values[4]) {
                                            Err(e) => Err(e),
                                            Ok(e) => match slot_spec::<F>(values[5]) {
                                                    Err(e) => Err(e),
                                                    Ok(f) => match slot_spec::<G>(values[6]) {
                                                            Err(e) => Err(e),
                                                            Ok(g) => Ok((a, b, c, d, e, f, g)),
                                                        },
                                                },
                                        },
                                },
                        },
                },
        }
    }
}

impl<A: TryFromValue, B: TryFromValue, C: TryFromValue, D: TryFromValue, E: TryFromValue, F: TryFromValue, G: TryFromValue> TryFromValueRow for (A, B, C, D, E, F, G) {
    type Error = RowConvertTupleError;

    fn try_from_row(values: ValueRow, _schema: &[ColumnType]) -> (r: Result<
        (A, B, C, D, E, F, G),
        RowConvertTupleError,
    >)
        ensures
            r == tuple7_from_row_spec::<A, B, C, D, E, F, G>(values@),
    {
        if values.len() != 7 {
            return Err(tuple_arity_error(values.len(), "(A, B, C, D, E, F, G,)"));
        }
        let mut values = values;
        let a = match bind_slot::<A>(values.remove(0)) {
            Ok(x) => x,
            Err(e) => return Err(e),
        };
        let b = match bind_slot::<B>(values.remove(0)) {
            Ok(x) => x,
            Err(e) => return Err(e),
        };
        let c = match bind_slot::<C>(values.remove(0)) {
            Ok(x) => x,
            Err(e) => return Err(e),
        };
        let d = match bind_slot::<D>(values.remove(0)) {
            Ok(x) => x,
            Err(e) => return Err(e),
        };
        let e = match bind_slot::<E>(values.remove(0)) {
            Ok(x) => x,
            Err(e) => return Err(e),
        };
        let f = match bind_slot::<F>(values.remove(0)) {
            Ok(x) => x,
            Err(e) => return Err(e),
        };
        let g = match bind_slot::<G>(values.remove(0)) {
            Ok(x) => x,
            Err(e) => return Err(e),
        };
        Ok((a, b, c, d, e, f, g))
    }
}

/// The outcome of converting a row to a 8-tuple; see
/// [`tuple1_from_row_spec`] for the shared rule.
pub open spec fn tuple8_from_row_spec<A: TryFromValue, B: TryFromValue, C: TryFromValue, D: TryFromValue, E: TryFromValue, F: TryFromValue, G: TryFromValue, H: TryFromValue>(
    values: Seq<Option<Value>>,
) -> Result<(A, B, C, D, E, F, G, H), RowConvertTupleError> {
    if values.len() != 8 {
        Err(tuple_arity_error_spec(values.len(), "(A, B, C, D, E, F, G, H,)"))
    } else {
        match slot_spec::<A>(values[0]) {
            Err(e) => Err(e),
            Ok(a) => match slot_spec::<B>(values[1]) {
                    Err(e) => Err(e),
                    Ok(b) => match slot_spec::<C>(values[2]) {
                            Err(e) => Err(e),
                            Ok(c) => match slot_spec::<D>(values[3]) {
                                    Err(e) => Err(e),
                                    Ok(d) => match slot_spec::<E>(values[4]) {
                                            Err(e) => Err(e),
                                            Ok(e) => match slot_spec::<F>(values[5]) {
                                                    Err(e) => Err(e),
                                                    Ok(f) => match slot_spec::<G>(values[6]) {
                                                            Err(e) => Err(e),
                                                            Ok(g) => match slot_spec::<H>(values[7]) {
                                                                    Err(e) => Err(e),
                                                                    Ok(h) => Ok((a, b, c, d, e, f, g, h)),
                                                                },
                                                        },
                                                },
                                        },
                                },
                        },
                },
        }
    }
}

impl<A: TryFromValue, B: TryFromValue, C: TryFromValue, D: TryFromValue, E: TryFromValue, F: TryFromValue, G: TryFromValue, H: TryFromValue> TryFromValueRow for (A, B, C, D, E, F, G, H) {
    type Error = RowConvertTupleError;

    fn try_from_row(values: ValueRow, _schema: &[ColumnType]) -> (r: Result<
        (A, B, C, D, E, F, G, H),
        RowConvertTupleError,
    >)
        ensures
            r == tuple8_from_row_spec::<A, B, C, D, E, F, G, H>(values@),
    {
        if values.len() != 8 {
            return Err(tuple_arity_error(values.len(), "(A, B, C, D, E, F, G, H,)"));
        }
        let mut values = values;
        let a = match bind_slot::<A>(values.remove(0)) {
            Ok(x) => x,
            Err(e) => return Err(e),
        };
        let b = match bind_slot::<B>(values.remove(0)) {
            Ok(x) => x,
            Err(e) => return Err(e),
        };
        let c = match bind_slot::<C>(values.remove(0)) {
            Ok(x) => x,
            Err(e) => return Err(e),
        };
        let d = match bind_slot::<D>(values.remove(0)) {
            Ok(x) => x,
            Err(e) => return Err(e),
        };
        let e = match bind_slot::<E>(values.remove(0)) {
            Ok(x) => x,
            Err(e) => return Err(e),
        };
        let f = match bind_slot::<F>(values.remove(0)) {
            Ok(x) => x,
            Err(e) => return Err(e),
        };
        let g = match bind_slot::<G>(values.remove(0)) {
            Ok(x) => x,
            Err(e) => return Err(e),
        };
        let h = match bind_slot::<H>(values.remove(0)) {
            Ok(x) => x,
            Err(e) => return Err(e),
        };
        Ok((a, b, c, d, e, f, g, h))
    }
}

/// The outcome of converting a row to a 9-tuple; see
/// [`tuple1_from_row_spec`] for the shared rule.
pub open spec fn tuple9_from_row_spec<A: TryFromValue, B: TryFromValue, C: TryFromValue, D: TryFromValue, E: TryFromValue, F: TryFromValue, G: TryFromValue, H: TryFromValue, I: TryFromValue>(
    values: Seq<Option<Value>>,
) -> Result<(A, B, C, D, E, F, G, H, I), RowConvertTupleError> {
    if values.len() != 9 {
        Err(tuple_arity_error_spec(values.len(), "(A, B, C, D, E, F, G, H, I,)"))
    } else {
        match slot_spec::<A>(values[0]) {
            Err(e) => Err(e),
            Ok(a) => match slot_spec::<B>(values[1]) {
                    Err(e) => Err(e),
                    Ok(b) => match slot_spec::<C>(values[2]) {
                            Err(e) => Err(e),
                            Ok(c) => match slot_spec::<D>(values[3]) {
                                    Err(e) => Err(e),
                                    Ok(d) => match slot_spec::<E>(values[4]) {
                                            Err(e) => Err(e),
                                            Ok(e) => match slot_spec::<F>(values[5]) {
                                                    Err(e) => Err(e),
                                                    Ok(f) => match slot_spec::<G>(values[6]) {
                                                            Err(e) => Err(e),
                                                            Ok(g) => match slot_spec::<H>(values[7]) {
                                                                    Err(e) => Err(e),
                                                                    Ok(h) => match slot_spec::<I>(values[8]) {
                                                                            Err(e) => Err(e),
                                                                            Ok(i) => Ok((a, b, c, d, e, f, g, h, i)),
                                                                        },
                                                                },
                                                        },
                                                },
                                        },
                                },
                        },
                },
        }
    }
}

impl<A: TryFromValue, B: TryFromValue, C: TryFromValue, D: TryFromValue, E: TryFromValue, F: TryFromValue, G: TryFromValue, H: TryFromValue, I: TryFromValue> TryFromValueRow for (A, B, C, D, E, F, G, H, I) {
    type Error = RowConvertTupleError;

    fn try_from_row(values: ValueRow, _schema: &[ColumnType]) -> (r: Result<
        (A, B, C, D, E, F, G, H, I),
        RowConvertTupleError,
    >)
        ensures
            r == tuple9_from_row_spec::<A, B, C, D, E, F, G, H, I>(values@),
    {
        if values.len() != 9 {
            return Err(tuple_arity_error(values.len(), "(A, B, C, D, E, F, G, H, I,)"));
        }
        let mut values = values;
        let a = match bind_slot::<A>(values.remove(0)) {
            Ok(x) => x,
            Err(e) => return Err(e),
        };
        let b = match bind_slot::<B>(values.remove(0)) {
            Ok(x) => x,
            Err(e) => return Err(e),
        };
        let c = match bind_slot::<C>(values.remove(0)) {
            Ok(x) => x,
            Err(e) => return Err(e),
        };
        let d = match bind_slot::<D>(values.remove(0)) {
            Ok(x) => x,
            Err(e) => return Err(e),
        };
        let e = match bind_slot::<E>(values.remove(0)) {
            Ok(x) => x,
            Err(e) => return Err(e),
        };
        let f = match bind_slot::<F>(values.remove(0)) {
            Ok(x) => x,
            Err(e) => return Err(e),
        };
        let g = match bind_slot::<G>(values.remove(0)) {
            Ok(x) => x,
            Err(e) => return Err(e),
        };
        let h = match bind_slot::<H>(values.remove(0)) {
            Ok(x) => x,
            Err(e) => return Err(e),
        };
        let i = match bind_slot::<I>(values.remove(0)) {
            Ok(x) => x,
            Err(e) => return Err(e),
        };
        Ok((a, b, c, d, e, f, g, h, i))
    }
}

/// The outcome of converting a row to a 10-tuple; see
/// [`tuple1_from_row_spec`] for the shared rule.
pub open spec fn tuple10_from_row_spec<A: TryFromValue, B: TryFromValue, C: TryFromValue, D: TryFromValue, E: TryFromValue, F: TryFromValue, G: TryFromValue, H: TryFromValue, I: TryFromValue, J: TryFromValue>(
    values: Seq<Option<Value>>,
) -> Result<(A, B, C, D, E, F, G, H, I, J), RowConvertTupleError> {
    if values.len() != 10 {
        Err(tuple_arity_error_spec(values.len(), "(A, B, C, D, E, F, G, H, I, J,)"))
    } else {
        match slot_spec::<A>(values[0]) {
            Err(e) => Err(e),
            Ok(a) => match slot_spec::<B>(values[1]) {
                    Err(e) => Err(e),
                    Ok(b) => match slot_spec::<C>(values[2]) {
                            Err(e) => Err(e),
                            Ok(c) => match slot_spec::<D>(values[3]) {
                                    Err(e) => Err(e),
                                    Ok(d) => match slot_spec::<E>(values[4]) {
                                            Err(e) => Err(e),
                                            Ok(e) => match slot_spec::<F>(values[5]) {
                                                    Err(e) => Err(e),
                                                    Ok(f) => match slot_spec::<G>(values[6]) {
                                                            Err(e) => Err(e),
                                                            Ok(g) => match slot_spec::<H>(values[7]) {
                                                                    Err(e) => Err(e),
                                                                    Ok(h) => match slot_spec::<I>(values[8]) {
                                                                            Err(e) => Err(e),
                                                                            Ok(i) => match slot_spec::<J>(values[9]) {
                                                                                    Err(e) => Err(e),
                                                                                    Ok(j) => Ok((a, b, c, d, e, f, g, h, i, j)),
                                                                                },
                                                                        },
                                                                },
                                                        },
                                                },
                                        },
                                },
                        },
                },
        }
    }
}

impl<A: TryFromValue, B: TryFromValue, C: TryFromValue, D: TryFromValue, E: TryFromValue, F: TryFromValue, G: TryFromValue, H: TryFromValue, I: TryFromValue, J: TryFromValue> TryFromValueRow for (A, B, C, D, E, F, G, H, I, J) {
    type Error = RowConvertTupleError;

    fn try_from_row(values: ValueRow, _schema: &[ColumnType]) -> (r: Result<
        (A, B, C, D, E, F, G, H, I, J),
        RowConvertTupleError,
    >)
        ensures
            r == tuple10_from_row_spec::<A, B, C, D, E, F, G, H, I, J>(values@),
    {
        if values.len() != 10 {
            return Err(tuple_arity_error(values.len(), "(A, B, C, D, E, F, G, H, I, J,)"));
        }
        let mut values = values;
        let a = match bind_slot::<A>(values.remove(0)) {
            Ok(x) => x,
            Err(e) => return Err(e),
        };
        let b = match bind_slot::<B>(values.remove(0)) {
            Ok(x) => x,
            Err(e) => return Err(e),
        };
        let c = match bind_slot::<C>(values.remove(0)) {
            Ok(x) => x,
            Err(e) => return Err(e),
        };
        let d = match bind_slot::<D>(values.remove(0)) {
            Ok(x) => x,
            Err(e) => return Err(e),
        };
        let e = match bind_slot::<E>(values.remove(0)) {
            Ok(x) => x,
            Err(e) => return Err(e),
        };
        let f = match bind_slot::<F>(values.remove(0)) {
            Ok(x) => x,
            Err(e) => return Err(e),
        };
        let g = match bind_slot::<G>(values.remove(0)) {
            Ok(x) => x,
            Err(e) => return Err(e),
        };
        let h = match bind_slot::<H>(values.remove(0)) {
            Ok(x) => x,
            Err(e) => return Err(e),
        };
        let i = match bind_slot::<I>(values.remove(0)) {
            Ok(x) => x,
            Err(e) => return Err(e),
        };
        let j = match bind_slot::<J>(values.remove(0)) {
            Ok(x) => x,
            Err(e) => return Err(e),
        };
        Ok((a, b, c, d, e, f, g, h, i, j))
    }
}

/// The outcome of converting a row to a 11-tuple; see
/// [`tuple1_from_row_spec`] for the shared rule.
pub open spec fn tuple11_from_row_spec<A: TryFromValue, B: TryFromValue, C: TryFromValue, D: TryFromValue, E: TryFromValue, F: TryFromValue, G: TryFromValue, H: TryFromValue, I: TryFromValue, J: TryFromValue, K: TryFromValue>(
    values: Seq<Option<Value>>,
) -> Result<(A, B, C, D, E, F, G, H, I, J, K), RowConvertTupleError> {
    if values.len() != 11 {
        Err(tuple_arity_error_spec(values.len(), "(A, B, C, D, E, F, G, H, I, J, K,)"))
    } else {
        match slot_spec::<A>(values[0]) {
            Err(e) => Err(e),
            Ok(a) => match slot_spec::<B>(values[1]) {
                    Err(e) => Err(e),
                    Ok(b) => match slot_spec::<C>(values[2]) {
                            Err(e) => Err(e),
                            Ok(c) => match slot_spec::<D>(values[3]) {
                                    Err(e) => Err(e),
                                    Ok(d) => match slot_spec::<E>(values[4]) {
                                            Err(e) => Err(e),
                                            Ok(e) => match slot_spec::<F>(values[5]) {
                                                    Err(e) => Err(e),
                                                    Ok(f) => match slot_spec::<G>(values[6]) {
                                                            Err(e) => Err(e),
                                                            Ok(g) => match slot_spec::<H>(values[7]) {
                                                                    Err(e) => Err(e),
                                                                    Ok(h) => match slot_spec::<I>(values[8]) {
                                                                            Err(e) => Err(e),
                                                                            Ok(i) => match slot_spec::<J>(values[9]) {
                                                                                    Err(e) => Err(e),
                                                                                    Ok(j) => match slot_spec::<K>(values[10]) {
                                                                                            Err(e) => Err(e),
                                                                                            Ok(k) => Ok((a, b, c, d, e, f, g, h, i, j, k)),
                                                                                        },
                                                                                },
                                                                        },
                                                                },
                                                        },
                                                },
                                        },
                                },
                        },
                },
        }
    }
}

impl<A: TryFromValue, B: TryFromValue, C: TryFromValue, D: TryFromValue, E: TryFromValue, F: TryFromValue, G: TryFromValue, H: TryFromValue, I: TryFromValue, J: TryFromValue, K: TryFromValue> TryFromValueRow for (A, B, C, D, E, F, G, H, I, J, K) {
    type Error = RowConvertTupleError;

    fn try_from_row(values: ValueRow, _schema: &[ColumnType]) -> (r: Result<
        (A, B, C, D, E, F, G, H, I, J, K),
        RowConvertTupleError,
    >)
        ensures
            r == tuple11_from_row_spec::<A, B, C, D, E, F, G, H, I, J, K>(values@),
    {
        if values.len() != 11 {
            return Err(tuple_arity_error(values.len(), "(A, B, C, D, E, F, G, H, I, J, K,)"));
        }
        let mut values = values;
        let a = match bind_slot::<A>(values.remove(0)) {
            Ok(x) => x,
            Err(e) => return Err(e),
        };
        let b = match bind_slot::<B>(values.remove(0)) {
            Ok(x) => x,
            Err(e) => return Err(e),
        };
        let c = match bind_slot::<C>(values.remove(0)) {
            Ok(x) => x,
            Err(e) => return Err(e),
        };
        let d = match bind_slot::<D>(values.remove(0)) {
            Ok(x) => x,
            Err(e) => return Err(e),
        };
        let e = match bind_slot::<E>(values.remove(0)) {
            Ok(x) => x,
            Err(e) => return Err(e),
        };
        let f = match bind_slot::<F>(values.remove(0)) {
            Ok(x) => x,
            Err(e) => return Err(e),
        };
        let g = match bind_slot::<G>(values.remove(0)) {
            Ok(x) => x,
            Err(e) => return Err(e),
        };
        let h = match bind_slot::<H>(values.remove(0)) {
            Ok(x) => x,
            Err(e) => return Err(e),
        };
        let i = match bind_slot::<I>(values.remove(0)) {
            Ok(x) => x,
            Err(e) => return Err(e),
        };
        let j = match bind_slot::<J>(values.remove(0)) {
            Ok(x) => x,
            Err(e) => return Err(e),
        };
        let k = match bind_slot::<K>(values.remove(0)) {
            Ok(x) => x,
            Err(e) => return Err(e),
        };
        Ok((a, b, c, d, e, f, g, h, i, j, k))
    }
}

/// The outcome of converting a row to a 12-tuple; see
/// [`tuple1_from_row_spec`] for the shared rule.
pub open spec fn tuple12_from_row_spec<A: TryFromValue, B: TryFromValue, C: TryFromValue, D: TryFromValue, E: TryFromValue, F: TryFromValue, G: TryFromValue, H: TryFromValue, I: TryFromValue, J: TryFromValue, K: TryFromValue, L: TryFromValue>(
    values: Seq<Option<Value>>,
) -> Result<(A, B, C, D, E, F, G, H, I, J, K, L), RowConvertTupleError> {
    if values.len() != 12 {
        Err(tuple_arity_error_spec(values.len(), "(A, B, C, D, E, F, G, H, I, J, K, L,)"))
    } else {
        match slot_spec::<A>(values[0]) {
            Err(e) => Err(e),
            Ok(a) => match slot_spec::<B>(values[1]) {
                    Err(e) => Err(e),
                    Ok(b) => match slot_spec::<C>(values[2]) {
                            Err(e) => Err(e),
                            Ok(c) => match slot_spec::<D>(values[3]) {
                                    Err(e) => Err(e),
                                    Ok(d) => match slot_spec::<E>(values[4]) {
                                            Err(e) => Err(e),
                                            Ok(e) => match slot_spec::<F>(values[5]) {
                                                    Err(e) => Err(e),
                                                    Ok(f) => match slot_spec::<G>(values[6]) {
                                                            Err(e) => Err(e),
                                                            Ok(g) => match slot_spec::<H>(values[7]) {
                                                                    Err(e) => Err(e),
                                                                    Ok(h) => match slot_spec::<I>(values[8]) {
                                                                            Err(e) => Err(e),
                                                                            Ok(i) => match slot_spec::<J>(values[9]) {
                                                                                    Err(e) => Err(e),
                                                                                    Ok(j) => match slot_spec::<K>(values[10]) {
                                                                                            Err(e) => Err(e),
                                                                                            Ok(k) => match slot_spec::<L>(values[11]) {
                                                                                                    Err(e) => Err(e),
                                                                                                    Ok(l) => Ok((a, b, c, d, e, f, g, h, i, j, k, l)),
                                                                                                },
                                                                                        },
                                                                                },
                                                                        },
                                                                },
                                                        },
                                                },
                                        },
                                },
                        },
                },
        }
    }
}

impl<A: TryFromValue, B: TryFromValue, C: TryFromValue, D: TryFromValue, E: TryFromValue, F: TryFromValue, G: TryFromValue, H: TryFromValue, I: TryFromValue, J: TryFromValue, K: TryFromValue, L: TryFromValue> TryFromValueRow for (A, B, C, D, E, F, G, H, I, J, K, L) {
    type Error = RowConvertTupleError;

    fn try_from_row(values: ValueRow, _schema: &[ColumnType]) -> (r: Result<
        (A, B, C, D, E, F, G, H, I, J, K, L),
        RowConvertTupleError,
    >)
        ensures
            r == tuple12_from_row_spec::<A, B, C, D, E, F, G, H, I, J, K, L>(values@),
    {
        if values.len() != 12 {
            return Err(tuple_arity_error(values.len(), "(A, B, C, D, E, F, G, H, I, J, K, L,)"));
        }
        let mut values = values;
        let a = match bind_slot::<A>(values.remove(0)) {
            Ok(x) => x,
            Err(e) => return Err(e),
        };
        let b = match bind_slot::<B>(values.remove(0)) {
            Ok(x) => x,
            Err(e) => return Err(e),
        };
        let c = match bind_slot::<C>(values.remove(0)) {
            Ok(x) => x,
            Err(e) => return Err(e),
        };
        let d = match bind_slot::<D>(values.remove(0)) {
            Ok(x) => x,
            Err(e) => return Err(e),
        };
        let e = match bind_slot::<E>(values.remove(0)) {
            Ok(x) => x,
            Err(e) => return Err(e),
        };
        let f = match bind_slot::<F>(values.remove(0)) {
            Ok(x) => x,
            Err(e) => return Err(e),
        };
        let g = match bind_slot::<G>(values.remove(0)) {
            Ok(x) => x,
            Err(e) => return Err(e),
        };
        let h = match bind_slot::<H>(values.remove(0)) {
            Ok(x) => x,
            Err(e) => return Err(e),
        };
        let i = match bind_slot::<I>(values.remove(0)) {
            Ok(x) => x,
            Err(e) => return Err(e),
        };
        let j = match bind_slot::<J>(values.remove(0)) {
            Ok(x) => x,
            Err(e) => return Err(e),
        };
        let k = match bind_slot::<K>(values.remove(0)) {
            Ok(x) => x,
            Err(e) => return Err(e),
        };
        let l = match bind_slot::<L>(values.remove(0)) {
            Ok(x) => x,
            Err(e) => return Err(e),
        };
        Ok((a, b, c, d, e, f, g, h, i, j, k, l))
    }
}

} // verus!
