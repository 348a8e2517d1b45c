//! The laws of the conversion layer, stated and proved once for all
//! inputs.

use vstd::prelude::*;

use crate::value::TryFromValue;
use crate::value::TryFromValueError;
use crate::value::Value;
use crate::value::Date;
use crate::value_row::RowConvertError;
use crate::value_row::RowConvertTupleError;
use crate::value_row::single_from_row_spec;
use crate::value_row::slot_spec;
use crate::value_row::tuple_arity_error_spec;
use crate::value_row::tuple1_from_row_spec;
use crate::value_row::tuple2_from_row_spec;
use crate::value_row::tuple3_from_row_spec;
use crate::value_row::tuple4_from_row_spec;
use crate::value_row::tuple5_from_row_spec;
use crate::value_row::tuple6_from_row_spec;
use crate::value_row::tuple7_from_row_spec;
use crate::value_row::tuple8_from_row_spec;
use crate::value_row::tuple9_from_row_spec;
use crate::value_row::tuple10_from_row_spec;
use crate::value_row::tuple11_from_row_spec;
use crate::value_row::tuple12_from_row_spec;

verus! {

/// An optional-wrapped target never fails on an absent value: NULL
/// converts to `None`, whatever the bare target is.
pub proof fn lemma_optional_absorbs_null<T: TryFromValue>()
    ensures
        Option::<T>::from_value_spec(None) == Ok::<Option<T>, TryFromValueError>(None),
{
}

/// Each built-in bare scalar target fails on an absent value with the
/// null-violation error naming that target.
pub proof fn lemma_bare_scalar_rejects_null()
    ensures
        Value::from_value_spec(None) == Err::<Value, _>(
            TryFromValueError::UnexpectedNullValue("Value"),
        ),
        bool::from_value_spec(None) == Err::<bool, _>(
            TryFromValueError::UnexpectedNullValue("bool"),
        ),
        i64::from_value_spec(None) == Err::<i64, _>(TryFromValueError::UnexpectedNullValue("i64")),
        i32::from_value_spec(None) == Err::<i32, _>(TryFromValueError::UnexpectedNullValue("i32")),
        u64::from_value_spec(None) == Err::<u64, _>(TryFromValueError::UnexpectedNullValue("u64")),
        u32::from_value_spec(None) == Err::<u32, _>(TryFromValueError::UnexpectedNullValue("u32")),
        String::from_value_spec(None) == Err::<String, _>(
            TryFromValueError::UnexpectedNullValue("String"),
        ),
        Date::from_value_spec(None) == Err::<Date, _>(
            TryFromValueError::UnexpectedNullValue("Date"),
        ),
{
}

/// A single-column row whose sole entry is absent converts to an
/// optional target as the empty value, while any bare target that
/// rejects NULL fails on the very same row with the row-level null
/// violation naming that target.
pub proof fn lemma_optional_and_bare_on_null_row<T: TryFromValue>(values: Seq<Option<Value>>)
    requires
        values.len() == 1,
        values[0] is None,
    ensures
        single_from_row_spec::<Option<T>>(values) == Ok::<Option<T>, RowConvertError>(None),
        T::from_value_spec(None) matches Err(TryFromValueError::UnexpectedNullValue(n))
            ==> single_from_row_spec::<T>(values) == Err::<T, RowConvertError>(
            RowConvertError::UnexpectedNullValue(n),
        ),
{
}

/// A single-column row whose sole entry fails to decode for any reason
/// other than a null rejection fails with that cause wrapped and
/// inspectable.
pub proof fn lemma_single_decode_failure_wrapped<T: TryFromValue>(values: Seq<Option<Value>>)
    requires
        values.len() == 1,
        T::from_value_spec(values[0]) is Err,
        !(T::from_value_spec(values[0]) matches Err(TryFromValueError::UnexpectedNullValue(_))),
    ensures
        T::from_value_spec(values[0]) matches Err(c) ==> single_from_row_spec::<T>(values)
            == Err::<T, RowConvertError>(RowConvertError::ValueConvertError(c)),
{
}

/// A single-scalar conversion of a row without exactly one column
/// always fails, and the error reports the expected count (one) and the
/// actual count faithfully.
pub proof fn lemma_single_arity_mismatch<T: TryFromValue>(values: Seq<Option<Value>>)
    requires
        values.len() != 1,
        values.len() <= usize::MAX,
    ensures
        single_from_row_spec::<T>(values) == Err::<T, RowConvertError>(
            RowConvertError::UnexpectedNumberOfColumns {
                expected: 1u16,
                got: values.len() as usize,
            },
        ),
{
}

/// A tuple arity-mismatch error reports the actual column count
/// faithfully whenever that count fits the error's count field.
pub proof fn lemma_tuple_arity_error_faithful(len: nat, tuple: &'static str)
    requires
        len <= u16::MAX,
    ensures
        tuple_arity_error_spec(len, tuple) == (RowConvertTupleError::UnexpectedNumberOfColumns {
            expected: len as u16,
            tuple,
        }),
{
}

/// A failing scalar decode propagates through a tuple position as a
/// wrapped, inspectable cause: the position fails exactly when the
/// scalar conversion fails, and the underlying error is carried
/// unchanged.
pub proof fn lemma_slot_wraps_cause<T: TryFromValue>(v: Option<Value>)
    ensures
        slot_spec::<T>(v) is Err <==> T::from_value_spec(v) is Err,
        T::from_value_spec(v) matches Err(c) ==> slot_spec::<T>(v) == Err::<
            T,
            RowConvertTupleError,
        >(RowConvertTupleError::ValueConvertError(c)),
        T::from_value_spec(v) matches Ok(t) ==> slot_spec::<T>(v) == Ok::<
            T,
            RowConvertTupleError,
        >(t),
{
}

/// Within a tuple, an optional-wrapped position maps an absent value to
/// the empty value, while a bare position's null rejection surfaces as
/// the wrapped cause: the tuple taxonomy carries no null-specific
/// variant.
pub proof fn lemma_tuple_position_null_handling<T: TryFromValue>(v: Option<Value>)
    requires
        v is None,
    ensures
        slot_spec::<Option<T>>(v) == Ok::<Option<T>, RowConvertTupleError>(None),
        T::from_value_spec(None) matches Err(c) ==> slot_spec::<T>(v) == Err::<
            T,
            RowConvertTupleError,
        >(RowConvertTupleError::ValueConvertError(c)),
{
}

/// Within a tuple, the first failing position decides the error: its
/// cause is carried unchanged and later positions do not matter.
/// Stated for pairs; the wider arities' contracts read identically,
/// position by position.
pub proof fn lemma_tuple_fails_fast<A: TryFromValue, B: TryFromValue>(values: Seq<Option<Value>>)
    requires
        values.len() == 2,
    ensures
        slot_spec::<A>(values[0]) matches Err(e) ==> tuple2_from_row_spec::<A, B>(values) == Err::<
            (A, B),
            RowConvertTupleError,
        >(e),
        slot_spec::<A>(values[0]) is Ok ==> (slot_spec::<B>(values[1]) matches Err(e)
            ==> tuple2_from_row_spec::<A, B>(values) == Err::<(A, B), RowConvertTupleError>(e)),
{
}

/// For every supported arity: conversion to a tuple succeeds exactly
/// when the row has as many columns as the tuple has positions and
/// every position's value converts.
pub proof fn lemma_tuple_succeeds_iff_arity_matches<A: TryFromValue, B: TryFromValue, C: TryFromValue, D: TryFromValue, E: TryFromValue, F: TryFromValue, G: TryFromValue, H: TryFromValue, I: TryFromValue, J: TryFromValue, K: TryFromValue, L: TryFromValue>(
    values: Seq<Option<Value>>,
)
    ensures
        tuple1_from_row_spec::<A>(values) is Ok <==> values.len() == 1
            && slot_spec::<A>(values[0]) is Ok,
        tuple2_from_row_spec::<A, B>(values) is Ok <==> values.len() == 2
            && slot_spec::<A>(values[0]) is Ok && slot_spec::<B>(values[1]) is Ok,
        tuple3_from_row_spec::<A, B, C>(values) is Ok <==> values.len() == 3
            && slot_spec::<A>(values[0]) is Ok && slot_spec::<B>(values[1]) is Ok && slot_spec::<C>(values[2]) is Ok,
        tuple4_from_row_spec::<A, B, C, D>(values) is Ok <==> values.len() == 4
            && slot_spec::<A>(values[0]) is Ok && slot_spec::<B>(values[1]) is Ok && slot_spec::<C>(values[2]) is Ok && slot_spec::<D>(values[3]) is Ok,
        tuple5_from_row_spec::<A, B, C, D, E>(values) is Ok <==> values.len() == 5
            && slot_spec::<A>(values[0]) is Ok && slot_spec::<B>(values[1]) is Ok && slot_spec::<C>(values[2]) is Ok && slot_spec::<D>(values[3]) is Ok && slot_spec::<E>(values[4]) is Ok,
        tuple6_from_row_spec::<A, B, C, D, E, F>(values) is Ok <==> values.len() == 6
            && slot_spec::<A>(values[0]) is Ok && slot_spec::<B>(values[1]) is Ok && slot_spec::<C>(values[2]) is Ok && slot_spec::<D>(values[3]) is Ok && slot_spec::<E>(values[4]) is Ok && slot_spec::<F>(values[5]) is Ok,
        tuple7_from_row_spec::<A, B, C, D, E, F, G>(values) is Ok <==> values.len() == 7
            && slot_spec::<A>(values[0]) is Ok && slot_spec::<B>(values[1]) is Ok && slot_spec::<C>(values[2]) is Ok && slot_spec::<D>(values[3]) is Ok && slot_spec::<E>(values[4]) is Ok && slot_spec::<F>(values[5]) is Ok && slot_spec::<G>(values[6]) is Ok,
        tuple8_from_row_spec::<A, B, C, D, E, F, G, H>(values) is Ok <==> values.len() == 8
            && slot_spec::<A>(values[0]) is Ok && slot_spec::<B>(values[1]) is Ok && slot_spec::<C>(values[2]) is Ok && slot_spec::<D>(values[3]) is Ok && slot_spec::<E>(values[4]) is Ok && slot_spec::<F>(values[5]) is Ok && slot_spec::<G>(values[6]) is Ok && slot_spec::<H>(values[7]) is Ok,
        tuple9_from_row_spec::<A, B, C, D, E, F, G, H, I>(values) is Ok <==> values.len() == 9
            && slot_spec::<A>(values[0]) is Ok && slot_spec::<B>(values[1]) is Ok && slot_spec::<C>(values[2]) is Ok && slot_spec::<D>(values[3]) is Ok && slot_spec::<E>(values[4]) is Ok && slot_spec::<F>(values[5]) is Ok && slot_spec::<G>(values[6]) is Ok && slot_spec::<H>(values[7]) is Ok && slot_spec::<I>(values[8]) is Ok,
        tuple10_from_row_spec::<A, B, C, D, E, F, G, H, I, J>(values) is Ok <==> values.len() == 10
            && slot_spec::<A>(values[0]) is Ok && slot_spec::<B>(values[1]) is Ok && slot_spec::<C>(values[2]) is Ok && slot_spec::<D>(values[3]) is Ok && slot_spec::<E>(values[4]) is Ok && slot_spec::<F>(values[5]) is Ok && slot_spec::<G>(values[6]) is Ok && slot_spec::<H>(values[7]) is Ok && slot_spec::<I>(values[8]) is Ok && slot_spec::<J>(values[9]) is Ok,
        tuple11_from_row_spec::<A, B, C, D, E, F, G, H, I, J, K>(values) is Ok <==> values.len() == 11
            && slot_spec::<A>(values[0]) is Ok && slot_spec::<B>(values[1]) is Ok && slot_spec::<C>(values[2]) is Ok && slot_spec::<D>(values[3]) is Ok && slot_spec::<E>(values[4]) is Ok && slot_spec::<F>(values[5]) is Ok && slot_spec::<G>(values[6]) is Ok && slot_spec::<H>(values[7]) is Ok && slot_spec::<I>(values[8]) is Ok && slot_spec::<J>(values[9]) is Ok && slot_spec::<K>(values[10]) is Ok,
        tuple12_from_row_spec::<A, B, C, D, E, F, G, H, I, J, K, L>(values) is Ok <==> values.len() == 12
            && slot_spec::<A>(values[0]) is Ok && slot_spec::<B>(values[1]) is Ok && slot_spec::<C>(values[2]) is Ok && slot_spec::<D>(values[3]) is Ok && slot_spec::<E>(values[4]) is Ok && slot_spec::<F>(values[5]) is Ok && slot_spec::<G>(values[6]) is Ok && slot_spec::<H>(values[7]) is Ok && slot_spec::<I>(values[8]) is Ok && slot_spec::<J>(values[9]) is Ok && slot_spec::<K>(values[10]) is Ok && slot_spec::<L>(values[11]) is Ok,
{
}

/// For every supported arity: on success, the column at each index
/// binds the tuple position of the same index, by that position's own
/// conversion rule; no reordering and no name-based matching.
pub proof fn lemma_tuple_positions_map_by_index<A: TryFromValue, B: TryFromValue, C: TryFromValue, D: TryFromValue, E: TryFromValue, F: TryFromValue, G: TryFromValue, H: TryFromValue, I: TryFromValue, J: TryFromValue, K: TryFromValue, L: TryFromValue>(
    values: Seq<Option<Value>>,
)
    ensures
        tuple1_from_row_spec::<A>(values) matches Ok(t) ==> t.0 == slot_spec::<A>(values[0])->Ok_0,
        tuple2_from_row_spec::<A, B>(values) matches Ok(t) ==> t.0 == slot_spec::<A>(values[0])->Ok_0 && t.1 == slot_spec::<B>(values[1])->Ok_0,
        tuple3_from_row_spec::<A, B, C>(values) matches Ok(t) ==> t.0 == slot_spec::<A>(values[0])->Ok_0 && t.1 == slot_spec::<B>(values[1])->Ok_0 && t.2 == slot_spec::<C>(values[2])->Ok_0,
        tuple4_from_row_spec::<A, B, C, D>(values) matches Ok(t) ==> t.0 == slot_spec::<A>(values[0])->Ok_0 && t.1 == slot_spec::<B>(values[1])->Ok_0 && t.2 == slot_spec::<C>(values[2])->Ok_0 && t.3 == slot_spec::<D>(values[3])->Ok_0,
        tuple5_from_row_spec::<A, B, C, D, E>(values) matches Ok(t) ==> t.0 == slot_spec::<A>(values[0])->Ok_0 && t.1 == slot_spec::<B>(values[1])->Ok_0 && t.2 == slot_spec::<C>(values[2])->Ok_0 && t.3 == slot_spec::<D>(values[3])->Ok_0 && t.4 == slot_spec::<E>(values[4])->Ok_0,
        tuple6_from_row_spec::<A, B, C, D, E, F>(values) matches Ok(t) ==> t.0 == slot_spec::<A>(values[0])->Ok_0 && t.1 == slot_spec::<B>(values[1])->Ok_0 && t.2 == slot_spec::<C>(values[2])->Ok_0 && t.3 == slot_spec::<D>(values[3])->Ok_0 && t.4 == slot_spec::<E>(values[4])->Ok_0 && t.5 == slot_spec::<F>(values[5])->Ok_0,
        tuple7_from_row_spec::<A, B, C, D, E, F, G>(values) matches Ok(t) ==> t.0 == slot_spec::<A>(values[0])->Ok_0 && t.1 == slot_spec::<B>(values[1])->Ok_0 && t.2 == slot_spec::<C>(values[2])->Ok_0 && t.3 == slot_spec::<D>(values[3])->Ok_0 && t.4 == slot_spec::<E>(values[4])->Ok_0 && t.5 == slot_spec::<F>(values[5])->Ok_0 && t.6 == slot_spec::<G>(values[6])->Ok_0,
        tuple8_from_row_spec::<A, B, C, D, E, F, G, H>(values) matches Ok(t) ==> t.0 == slot_spec::<A>(values[0])->Ok_0 && t.1 == slot_spec::<B>(values[1])->Ok_0 && t.2 == slot_spec::<C>(values[2])->Ok_0 && t.3 == slot_spec::<D>(values[3])->Ok_0 && t.4 == slot_spec::<E>(values[4])->Ok_0 && t.5 == slot_spec::<F>(values[5])->Ok_0 && t.6 == slot_spec::<G>(values[6])->Ok_0 && t.7 == slot_spec::<H>(values[7])->Ok_0,
        tuple9_from_row_spec::<A, B, C, D, E, F, G, H, I>(values) matches Ok(t) ==> t.0 == slot_spec::<A>(values[0])->Ok_0 && t.1 == slot_spec::<B>(values[1])->Ok_0 && t.2 == slot_spec::<C>(values[2])->Ok_0 && t.3 == slot_spec::<D>(values[3])->Ok_0 && t.4 == slot_spec::<E>(values[4])->Ok_0 && t.5 == slot_spec::<F>(values[5])->Ok_0 && t.6 == slot_spec::<G>(values[6])->Ok_0 && t.7 == slot_spec::<H>(values[7])->Ok_0 && t.8 == slot_spec::<I>(values[8])->Ok_0,
        tuple10_from_row_spec::<A, B, C, D, E, F, G, H, I, J>(values) matches Ok(t) ==> t.0 == slot_spec::<A>(values[0])->Ok_0 && t.1 == slot_spec::<B>(values[1])->Ok_0 && t.2 == slot_spec::<C>(values[2])->Ok_0 && t.3 == slot_spec::<D>(values[3])->Ok_0 && t.4 == slot_spec::<E>(values[4])->Ok_0 && t.5 == slot_spec::<F>(values[5])->Ok_0 && t.6 == slot_spec::<G>(values[6])->Ok_0 && t.7 == slot_spec::<H>(values[7])->Ok_0 && t.8 == slot_spec::<I>(values[8])->Ok_0 && t.9 == slot_spec::<J>(values[9])->Ok_0,
        tuple11_from_row_spec::<A, B, C, D, E, F, G, H, I, J, K>(values) matches Ok(t) ==> t.0 == slot_spec::<A>(values[0])->Ok_0 && t.1 == slot_spec::<B>(values[1])->Ok_0 && t.2 == slot_spec::<C>(values[2])->Ok_0 && t.3 == slot_spec::<D>(values[3])->Ok_0 && t.4 == slot_spec::<E>(values[4])->Ok_0 && t.5 == slot_spec::<F>(values[5])->Ok_0 && t.6 == slot_spec::<G>(values[6])->Ok_0 && t.7 == slot_spec::<H>(values[7])->Ok_0 && t.8 == slot_spec::<I>(values[8])->Ok_0 && t.9 == slot_spec::<J>(values[9])->Ok_0 && t.10 == slot_spec::<K>(values[10])->Ok_0,
        tuple12_from_row_spec::<A, B, C, D, E, F, G, H, I, J, K, L>(values) matches Ok(t) ==> t.0 == slot_spec::<A>(values[0])->Ok_0 && t.1 == slot_spec::<B>(values[1])->Ok_0 && t.2 == slot_spec::<C>(values[2])->Ok_0 && t.3 == slot_spec::<D>(values[3])->Ok_0 && t.4 == slot_spec::<E>(values[4])->Ok_0 && t.5 == slot_spec::<F>(values[5])->Ok_0 && t.6 == slot_spec::<G>(values[6])->Ok_0 && t.7 == slot_spec::<H>(values[7])->Ok_0 && t.8 == slot_spec::<I>(values[8])->Ok_0 && t.9 == slot_spec::<J>(values[9])->Ok_0 && t.10 == slot_spec::<K>(values[10])->Ok_0 && t.11 == slot_spec::<L>(values[11])->Ok_0,
{
}

} // verus!
