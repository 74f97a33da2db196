//! Laws that hold across the columns of this crate.

use vstd::prelude::*;

use crate::assoc::ArrowAssoc;
use crate::column::{
    boolean_rows, date32_rows, int32_rows, int64_rows, large_binary_rows, time64_micros_rows,
    time64_nanos_rows, timestamp_micros_rows, timestamp_nanos_rows, uint32_rows, uint64_rows,
    utf8_rows, BooleanColumn, Date32Column, Int32Column, Int64Column, LargeBinaryColumn,
    Time64MicrosecondColumn, Time64NanosecondColumn, TimestampMicrosecondColumn,
    TimestampNanosecondColumn, UInt32Column, UInt64Column, Utf8Column,
};
use crate::schema::FieldView;
use crate::temporal::{
    date32_of, instant_micros_of, instant_nanos_of, time64_micros_of, time64_nanos_of,
    timestamp_micros_of, timestamp_nanos_of, unix_seconds, UNIX_EPOCH_DAY, DateTime, DateTimeWrapperMicro,
    NaiveDate, NaiveDateTime, NaiveDateTimeWrapperMicro, NaiveTime, NaiveTimeWrapperMicro,
};

verus! {

/// `nullable` describes the same column as `plain`, admitting nulls where
/// `plain` does not.
pub open spec fn nullable_twin(plain: FieldView, nullable: FieldView) -> bool {
    &&& nullable.name == plain.name
    &&& nullable.data_type == plain.data_type
    &&& nullable.nullable
    &&& !plain.nullable
}

/// For every type `T` of a column, the field of `Option<T>` is the field of
/// `T` with nulls admitted, and the field of `T` admits none.
pub proof fn option_field_is_nullable_twin(header: Seq<char>)
    ensures
        nullable_twin(<u32 as ArrowAssoc>::field_of(header), <Option<u32> as ArrowAssoc>::field_of(header)),
        nullable_twin(<u64 as ArrowAssoc>::field_of(header), <Option<u64> as ArrowAssoc>::field_of(header)),
        nullable_twin(<i32 as ArrowAssoc>::field_of(header), <Option<i32> as ArrowAssoc>::field_of(header)),
        nullable_twin(<i64 as ArrowAssoc>::field_of(header), <Option<i64> as ArrowAssoc>::field_of(header)),
        nullable_twin(<bool as ArrowAssoc>::field_of(header), <Option<bool> as ArrowAssoc>::field_of(header)),
        nullable_twin(<Vec<i32> as ArrowAssoc>::field_of(header), <Option<Vec<i32>> as ArrowAssoc>::field_of(header)),
        nullable_twin(<Vec<i64> as ArrowAssoc>::field_of(header), <Option<Vec<i64>> as ArrowAssoc>::field_of(header)),
        nullable_twin(<&'static str as ArrowAssoc>::field_of(header), <Option<&'static str> as ArrowAssoc>::field_of(header)),
        nullable_twin(<String as ArrowAssoc>::field_of(header), <Option<String> as ArrowAssoc>::field_of(header)),
        nullable_twin(<DateTime as ArrowAssoc>::field_of(header), <Option<DateTime> as ArrowAssoc>::field_of(header)),
        nullable_twin(<DateTimeWrapperMicro as ArrowAssoc>::field_of(header), <Option<DateTimeWrapperMicro> as ArrowAssoc>::field_of(header)),
        nullable_twin(<NaiveDate as ArrowAssoc>::field_of(header), <Option<NaiveDate> as ArrowAssoc>::field_of(header)),
        nullable_twin(<NaiveDateTime as ArrowAssoc>::field_of(header), <Option<NaiveDateTime> as ArrowAssoc>::field_of(header)),
        nullable_twin(<NaiveDateTimeWrapperMicro as ArrowAssoc>::field_of(header), <Option<NaiveDateTimeWrapperMicro> as ArrowAssoc>::field_of(header)),
        nullable_twin(<NaiveTime as ArrowAssoc>::field_of(header), <Option<NaiveTime> as ArrowAssoc>::field_of(header)),
        nullable_twin(<NaiveTimeWrapperMicro as ArrowAssoc>::field_of(header), <Option<NaiveTimeWrapperMicro> as ArrowAssoc>::field_of(header)),
        nullable_twin(<Vec<u8> as ArrowAssoc>::field_of(header), <Option<Vec<u8>> as ArrowAssoc>::field_of(header)),
{
}

/// For every type `T` of a column, `Option<T>` uses the same builder as `T`,
/// made alike, and appending `Some(v)` through `Option<T>` is appending `v`
/// through `T`.
pub proof fn option_some_appends_like_value()
    ensures
        forall|before: UInt32Column, value: u32, after: UInt32Column|
            <Option<u32> as ArrowAssoc>::appended(before, Some(value), after) == <u32 as ArrowAssoc>::appended(before, value, after),
        forall|before: UInt32Column, value: u32|
            <Option<u32> as ArrowAssoc>::can_append(before, Some(value)) == <u32 as ArrowAssoc>::can_append(before, value),
        forall|nrows: usize| <Option<u32> as ArrowAssoc>::builder_fits(nrows) == <u32 as ArrowAssoc>::builder_fits(nrows),
        forall|nrows: usize, b: UInt32Column| <Option<u32> as ArrowAssoc>::fresh(nrows, b) == <u32 as ArrowAssoc>::fresh(nrows, b),
        forall|before: UInt64Column, value: u64, after: UInt64Column|
            <Option<u64> as ArrowAssoc>::appended(before, Some(value), after) == <u64 as ArrowAssoc>::appended(before, value, after),
        forall|before: UInt64Column, value: u64|
            <Option<u64> as ArrowAssoc>::can_append(before, Some(value)) == <u64 as ArrowAssoc>::can_append(before, value),
        forall|nrows: usize| <Option<u64> as ArrowAssoc>::builder_fits(nrows) == <u64 as ArrowAssoc>::builder_fits(nrows),
        forall|nrows: usize, b: UInt64Column| <Option<u64> as ArrowAssoc>::fresh(nrows, b) == <u64 as ArrowAssoc>::fresh(nrows, b),
        forall|before: Int32Column, value: i32, after: Int32Column|
            <Option<i32> as ArrowAssoc>::appended(before, Some(value), after) == <i32 as ArrowAssoc>::appended(before, value, after),
        forall|before: Int32Column, value: i32|
            <Option<i32> as ArrowAssoc>::can_append(before, Some(value)) == <i32 as ArrowAssoc>::can_append(before, value),
        forall|nrows: usize| <Option<i32> as ArrowAssoc>::builder_fits(nrows) == <i32 as ArrowAssoc>::builder_fits(nrows),
        forall|nrows: usize, b: Int32Column| <Option<i32> as ArrowAssoc>::fresh(nrows, b) == <i32 as ArrowAssoc>::fresh(nrows, b),
        forall|before: Int64Column, value: i64, after: Int64Column|
            <Option<i64> as ArrowAssoc>::appended(before, Some(value), after) == <i64 as ArrowAssoc>::appended(before, value, after),
        forall|before: Int64Column, value: i64|
            <Option<i64> as ArrowAssoc>::can_append(before, Some(value)) == <i64 as ArrowAssoc>::can_append(before, value),
        forall|nrows: usize| <Option<i64> as ArrowAssoc>::builder_fits(nrows) == <i64 as ArrowAssoc>::builder_fits(nrows),
        forall|nrows: usize, b: Int64Column| <Option<i64> as ArrowAssoc>::fresh(nrows, b) == <i64 as ArrowAssoc>::fresh(nrows, b),
        forall|before: BooleanColumn, value: bool, after: BooleanColumn|
            <Option<bool> as ArrowAssoc>::appended(before, Some(value), after) == <bool as ArrowAssoc>::appended(before, value, after),
        forall|before: BooleanColumn, value: bool|
            <Option<bool> as ArrowAssoc>::can_append(before, Some(value)) == <bool as ArrowAssoc>::can_append(before, value),
        forall|nrows: usize| <Option<bool> as ArrowAssoc>::builder_fits(nrows) == <bool as ArrowAssoc>::builder_fits(nrows),
        forall|nrows: usize, b: BooleanColumn| <Option<bool> as ArrowAssoc>::fresh(nrows, b) == <bool as ArrowAssoc>::fresh(nrows, b),
        forall|before: Int32Column, value: Vec<i32>, after: Int32Column|
            <Option<Vec<i32>> as ArrowAssoc>::appended(before, Some(value), after) == <Vec<i32> as ArrowAssoc>::appended(before, value, after),
        forall|before: Int32Column, value: Vec<i32>|
            <Option<Vec<i32>> as ArrowAssoc>::can_append(before, Some(value)) == <Vec<i32> as ArrowAssoc>::can_append(before, value),
        forall|nrows: usize| <Option<Vec<i32>> as ArrowAssoc>::builder_fits(nrows) == <Vec<i32> as ArrowAssoc>::builder_fits(nrows),
        forall|nrows: usize, b: Int32Column| <Option<Vec<i32>> as ArrowAssoc>::fresh(nrows, b) == <Vec<i32> as ArrowAssoc>::fresh(nrows, b),
        forall|before: Int64Column, value: Vec<i64>, after: Int64Column|
            <Option<Vec<i64>> as ArrowAssoc>::appended(before, Some(value), after) == <Vec<i64> as ArrowAssoc>::appended(before, value, after),
        forall|before: Int64Column, value: Vec<i64>|
            <Option<Vec<i64>> as ArrowAssoc>::can_append(before, Some(value)) == <Vec<i64> as ArrowAssoc>::can_append(before, value),
        forall|nrows: usize| <Option<Vec<i64>> as ArrowAssoc>::builder_fits(nrows) == <Vec<i64> as ArrowAssoc>::builder_fits(nrows),
        forall|nrows: usize, b: Int64Column| <Option<Vec<i64>> as ArrowAssoc>::fresh(nrows, b) == <Vec<i64> as ArrowAssoc>::fresh(nrows, b),
        forall|before: Utf8Column, value: &'static str, after: Utf8Column|
            <Option<&'static str> as ArrowAssoc>::appended(before, Some(value), after) == <&'static str as ArrowAssoc>::appended(before, value, after),
        forall|before: Utf8Column, value: &'static str|
            <Option<&'static str> as ArrowAssoc>::can_append(before, Some(value)) == <&'static str as ArrowAssoc>::can_append(before, value),
        forall|nrows: usize| <Option<&'static str> as ArrowAssoc>::builder_fits(nrows) == <&'static str as ArrowAssoc>::builder_fits(nrows),
        forall|nrows: usize, b: Utf8Column| <Option<&'static str> as ArrowAssoc>::fresh(nrows, b) == <&'static str as ArrowAssoc>::fresh(nrows, b),
        forall|before: Utf8Column, value: String, after: Utf8Column|
            <Option<String> as ArrowAssoc>::appended(before, Some(value), after) == <String as ArrowAssoc>::appended(before, value, after),
        forall|before: Utf8Column, value: String|
            <Option<String> as ArrowAssoc>::can_append(before, Some(value)) == <String as ArrowAssoc>::can_append(before, value),
        forall|nrows: usize| <Option<String> as ArrowAssoc>::builder_fits(nrows) == <String as ArrowAssoc>::builder_fits(nrows),
        forall|nrows: usize, b: Utf8Column| <Option<String> as ArrowAssoc>::fresh(nrows, b) == <String as ArrowAssoc>::fresh(nrows, b),
        forall|before: TimestampNanosecondColumn, value: DateTime, after: TimestampNanosecondColumn|
            <Option<DateTime> as ArrowAssoc>::appended(before, Some(value), after) == <DateTime as ArrowAssoc>::appended(before, value, after),
        forall|before: TimestampNanosecondColumn, value: DateTime|
            <Option<DateTime> as ArrowAssoc>::can_append(before, Some(value)) == <DateTime as ArrowAssoc>::can_append(before, value),
        forall|nrows: usize| <Option<DateTime> as ArrowAssoc>::builder_fits(nrows) == <DateTime as ArrowAssoc>::builder_fits(nrows),
        forall|nrows: usize, b: TimestampNanosecondColumn| <Option<DateTime> as ArrowAssoc>::fresh(nrows, b) == <DateTime as ArrowAssoc>::fresh(nrows, b),
        forall|before: TimestampMicrosecondColumn, value: DateTimeWrapperMicro, after: TimestampMicrosecondColumn|
            <Option<DateTimeWrapperMicro> as ArrowAssoc>::appended(before, Some(value), after) == <DateTimeWrapperMicro as ArrowAssoc>::appended(before, value, after),
        forall|before: TimestampMicrosecondColumn, value: DateTimeWrapperMicro|
            <Option<DateTimeWrapperMicro> as ArrowAssoc>::can_append(before, Some(value)) == <DateTimeWrapperMicro as ArrowAssoc>::can_append(before, value),
        forall|nrows: usize| <Option<DateTimeWrapperMicro> as ArrowAssoc>::builder_fits(nrows) == <DateTimeWrapperMicro as ArrowAssoc>::builder_fits(nrows),
        forall|nrows: usize, b: TimestampMicrosecondColumn| <Option<DateTimeWrapperMicro> as ArrowAssoc>::fresh(nrows, b) == <DateTimeWrapperMicro as ArrowAssoc>::fresh(nrows, b),
        forall|before: Date32Column, value: NaiveDate, after: Date32Column|
            <Option<NaiveDate> as ArrowAssoc>::appended(before, Some(value), after) == <NaiveDate as ArrowAssoc>::appended(before, value, after),
        forall|before: Date32Column, value: NaiveDate|
            <Option<NaiveDate> as ArrowAssoc>::can_append(before, Some(value)) == <NaiveDate as ArrowAssoc>::can_append(before, value),
        forall|nrows: usize| <Option<NaiveDate> as ArrowAssoc>::builder_fits(nrows) == <NaiveDate as ArrowAssoc>::builder_fits(nrows),
        forall|nrows: usize, b: Date32Column| <Option<NaiveDate> as ArrowAssoc>::fresh(nrows, b) == <NaiveDate as ArrowAssoc>::fresh(nrows, b),
        forall|before: TimestampNanosecondColumn, value: NaiveDateTime, after: TimestampNanosecondColumn|
            <Option<NaiveDateTime> as ArrowAssoc>::appended(before, Some(value), after) == <NaiveDateTime as ArrowAssoc>::appended(before, value, after),
        forall|before: TimestampNanosecondColumn, value: NaiveDateTime|
            <Option<NaiveDateTime> as ArrowAssoc>::can_append(before, Some(value)) == <NaiveDateTime as ArrowAssoc>::can_append(before, value),
        forall|nrows: usize| <Option<NaiveDateTime> as ArrowAssoc>::builder_fits(nrows) == <NaiveDateTime as ArrowAssoc>::builder_fits(nrows),
        forall|nrows: usize, b: TimestampNanosecondColumn| <Option<NaiveDateTime> as ArrowAssoc>::fresh(nrows, b) == <NaiveDateTime as ArrowAssoc>::fresh(nrows, b),
        forall|before: TimestampMicrosecondColumn, value: NaiveDateTimeWrapperMicro, after: TimestampMicrosecondColumn|
            <Option<NaiveDateTimeWrapperMicro> as ArrowAssoc>::appended(before, Some(value), after) == <NaiveDateTimeWrapperMicro as ArrowAssoc>::appended(before, value, after),
        forall|before: TimestampMicrosecondColumn, value: NaiveDateTimeWrapperMicro|
            <Option<NaiveDateTimeWrapperMicro> as ArrowAssoc>::can_append(before, Some(value)) == <NaiveDateTimeWrapperMicro as ArrowAssoc>::can_append(before, value),
        forall|nrows: usize| <Option<NaiveDateTimeWrapperMicro> as ArrowAssoc>::builder_fits(nrows) == <NaiveDateTimeWrapperMicro as ArrowAssoc>::builder_fits(nrows),
        forall|nrows: usize, b: TimestampMicrosecondColumn| <Option<NaiveDateTimeWrapperMicro> as ArrowAssoc>::fresh(nrows, b) == <NaiveDateTimeWrapperMicro as ArrowAssoc>::fresh(nrows, b),
        forall|before: Time64NanosecondColumn, value: NaiveTime, after: Time64NanosecondColumn|
            <Option<NaiveTime> as ArrowAssoc>::appended(before, Some(value), after) == <NaiveTime as ArrowAssoc>::appended(before, value, after),
        forall|before: Time64NanosecondColumn, value: NaiveTime|
            <Option<NaiveTime> as ArrowAssoc>::can_append(before, Some(value)) == <NaiveTime as ArrowAssoc>::can_append(before, value),
        forall|nrows: usize| <Option<NaiveTime> as ArrowAssoc>::builder_fits(nrows) == <NaiveTime as ArrowAssoc>::builder_fits(nrows),
        forall|nrows: usize, b: Time64NanosecondColumn| <Option<NaiveTime> as ArrowAssoc>::fresh(nrows, b) == <NaiveTime as ArrowAssoc>::fresh(nrows, b),
        forall|before: Time64MicrosecondColumn, value: NaiveTimeWrapperMicro, after: Time64MicrosecondColumn|
            <Option<NaiveTimeWrapperMicro> as ArrowAssoc>::appended(before, Some(value), after) == <NaiveTimeWrapperMicro as ArrowAssoc>::appended(before, value, after),
        forall|before: Time64MicrosecondColumn, value: NaiveTimeWrapperMicro|
            <Option<NaiveTimeWrapperMicro> as ArrowAssoc>::can_append(before, Some(value)) == <NaiveTimeWrapperMicro as ArrowAssoc>::can_append(before, value),
        forall|nrows: usize| <Option<NaiveTimeWrapperMicro> as ArrowAssoc>::builder_fits(nrows) == <NaiveTimeWrapperMicro as ArrowAssoc>::builder_fits(nrows),
        forall|nrows: usize, b: Time64MicrosecondColumn| <Option<NaiveTimeWrapperMicro> as ArrowAssoc>::fresh(nrows, b) == <NaiveTimeWrapperMicro as ArrowAssoc>::fresh(nrows, b),
        forall|before: LargeBinaryColumn, value: Vec<u8>, after: LargeBinaryColumn|
            <Option<Vec<u8>> as ArrowAssoc>::appended(before, Some(value), after) == <Vec<u8> as ArrowAssoc>::appended(before, value, after),
        forall|before: LargeBinaryColumn, value: Vec<u8>|
            <Option<Vec<u8>> as ArrowAssoc>::can_append(before, Some(value)) == <Vec<u8> as ArrowAssoc>::can_append(before, value),
        forall|nrows: usize| <Option<Vec<u8>> as ArrowAssoc>::builder_fits(nrows) == <Vec<u8> as ArrowAssoc>::builder_fits(nrows),
        forall|nrows: usize, b: LargeBinaryColumn| <Option<Vec<u8>> as ArrowAssoc>::fresh(nrows, b) == <Vec<u8> as ArrowAssoc>::fresh(nrows, b),
{
}

/// For every type `T` of a column, appending `None` through `Option<T>`
/// adds a single null row.
pub proof fn option_none_appends_one_null()
    ensures
        forall|before: UInt32Column, after: UInt32Column|
            <Option<u32> as ArrowAssoc>::appended(before, None, after) ==> uint32_rows(after) == uint32_rows(before).push(None),
        forall|before: UInt64Column, after: UInt64Column|
            <Option<u64> as ArrowAssoc>::appended(before, None, after) ==> uint64_rows(after) == uint64_rows(before).push(None),
        forall|before: Int32Column, after: Int32Column|
            <Option<i32> as ArrowAssoc>::appended(before, None, after) ==> int32_rows(after) == int32_rows(before).push(None),
        forall|before: Int64Column, after: Int64Column|
            <Option<i64> as ArrowAssoc>::appended(before, None, after) ==> int64_rows(after) == int64_rows(before).push(None),
        forall|before: BooleanColumn, after: BooleanColumn|
            <Option<bool> as ArrowAssoc>::appended(before, None, after) ==> boolean_rows(after) == boolean_rows(before).push(None),
        forall|before: Int32Column, after: Int32Column|
            <Option<Vec<i32>> as ArrowAssoc>::appended(before, None, after) ==> int32_rows(after) == int32_rows(before).push(None),
        forall|before: Int64Column, after: Int64Column|
            <Option<Vec<i64>> as ArrowAssoc>::appended(before, None, after) ==> int64_rows(after) == int64_rows(before).push(None),
        forall|before: Utf8Column, after: Utf8Column|
            <Option<&'static str> as ArrowAssoc>::appended(before, None, after) ==> utf8_rows(after) == utf8_rows(before).push(None),
        forall|before: Utf8Column, after: Utf8Column|
            <Option<String> as ArrowAssoc>::appended(before, None, after) ==> utf8_rows(after) == utf8_rows(before).push(None),
        forall|before: TimestampNanosecondColumn, after: TimestampNanosecondColumn|
            <Option<DateTime> as ArrowAssoc>::appended(before, None, after) ==> timestamp_nanos_rows(after) == timestamp_nanos_rows(before).push(None),
        forall|before: TimestampMicrosecondColumn, after: TimestampMicrosecondColumn|
            <Option<DateTimeWrapperMicro> as ArrowAssoc>::appended(before, None, after) ==> timestamp_micros_rows(after) == timestamp_micros_rows(before).push(None),
        forall|before: Date32Column, after: Date32Column|
            <Option<NaiveDate> as ArrowAssoc>::appended(before, None, after) ==> date32_rows(after) == date32_rows(before).push(None),
        forall|before: TimestampNanosecondColumn, after: TimestampNanosecondColumn|
            <Option<NaiveDateTime> as ArrowAssoc>::appended(before, None, after) ==> timestamp_nanos_rows(after) == timestamp_nanos_rows(before).push(None),
        forall|before: TimestampMicrosecondColumn, after: TimestampMicrosecondColumn|
            <Option<NaiveDateTimeWrapperMicro> as ArrowAssoc>::appended(before, None, after) ==> timestamp_micros_rows(after) == timestamp_micros_rows(before).push(None),
        forall|before: Time64NanosecondColumn, after: Time64NanosecondColumn|
            <Option<NaiveTime> as ArrowAssoc>::appended(before, None, after) ==> time64_nanos_rows(after) == time64_nanos_rows(before).push(None),
        forall|before: Time64MicrosecondColumn, after: Time64MicrosecondColumn|
            <Option<NaiveTimeWrapperMicro> as ArrowAssoc>::appended(before, None, after) ==> time64_micros_rows(after) == time64_micros_rows(before).push(None),
        forall|before: LargeBinaryColumn, after: LargeBinaryColumn|
            <Option<Vec<u8>> as ArrowAssoc>::appended(before, None, after) ==> large_binary_rows(after) == large_binary_rows(before).push(None),
{
}

/// A `String` and a `&str` with the same characters make the same row and
/// the same field.
pub proof fn string_and_str_agree(header: Seq<char>)
    ensures
        <String as ArrowAssoc>::field_of(header) == <&'static str as ArrowAssoc>::field_of(header),
        forall|before: Utf8Column, s: String, t: &'static str, after: Utf8Column|
            s@ == t@ ==> (<String as ArrowAssoc>::appended(before, s, after)
                == <&'static str as ArrowAssoc>::appended(before, t, after)),
{
}

/// An instant in UTC and the same date and time without a time zone make the
/// same nanosecond row in the same kind of field.
pub proof fn utc_instant_agrees_with_naive(header: Seq<char>)
    ensures
        <DateTime as ArrowAssoc>::field_of(header) == <NaiveDateTime as ArrowAssoc>::field_of(header),
        forall|before: TimestampNanosecondColumn, d: DateTime, n: NaiveDateTime, after: TimestampNanosecondColumn|
            d.days() == n.days() && d.secs() == n.secs() && d.nanos() == n.nanos() ==> (
            <DateTime as ArrowAssoc>::appended(before, d, after)
                == <NaiveDateTime as ArrowAssoc>::appended(before, n, after)),
{
}

/// `(a * 1000 + n) / 1000 == a + n / 1000` for every integer `a` and `n`.
proof fn thousand_shift(a: int, n: int)
    ensures
        (a * 1000 + n) / 1000 == a + n / 1000,
{
    assert((a * 1000 + n) / 1000 == a + n / 1000) by (nonlinear_arith);
}

/// A microsecond timestamp is its nanosecond timestamp rounded down to the
/// microsecond, wherever the nanosecond one exists.
pub proof fn micros_round_down_nanos(dt: NaiveDateTime)
    requires
        timestamp_nanos_of(dt) is Some,
    ensures
        timestamp_micros_of(dt) == timestamp_nanos_of(dt).unwrap() / 1000,
{
    thousand_shift(unix_seconds(dt.days(), dt.secs()) * 1_000_000, dt.nanos());
}

/// The same of an instant in UTC.
pub proof fn instant_micros_round_down_nanos(d: DateTime)
    requires
        instant_nanos_of(d) is Some,
    ensures
        instant_micros_of(d) == instant_nanos_of(d).unwrap() / 1000,
{
    thousand_shift(unix_seconds(d.days(), d.secs()) * 1_000_000, d.nanos());
}

/// A microsecond time of day is its nanosecond time rounded down to the
/// microsecond.
pub proof fn time_micros_round_down_nanos(t: NaiveTime)
    ensures
        time64_micros_of(t) == time64_nanos_of(t) / 1000,
{
    thousand_shift(t.secs() * 1_000_000, t.nanos());
}

/// The `Date32` value of a date is the number of whole days in the seconds
/// timestamp of any time on that date.
pub proof fn date32_counts_whole_days(d: NaiveDate, secs: int)
    requires
        0 <= secs < 86_400,
    ensures
        date32_of(d) == unix_seconds(d.days(), secs) / 86_400,
{
    assert((date32_of(d) * 86_400 + secs) / 86_400 == date32_of(d)) by (nonlinear_arith)
        requires
            0 <= secs < 86_400,
    ;
}

/// The date, second and nanosecond that a nanosecond timestamp `v` decodes
/// to: the nanosecond within the second, the second within the day, and the
/// day counted from 0001-01-01.
pub open spec fn decode_unix_nanos(v: int) -> (int, int, int) {
    let secs_total = v / 1_000_000_000;
    (secs_total / 86_400 + UNIX_EPOCH_DAY, secs_total % 86_400, v % 1_000_000_000)
}

/// Outside a leap second, the nanosecond timestamp of a date and time read
/// as UTC decodes back to that date and time, so no two of them share one.
pub proof fn nanos_timestamp_decodes(dt: NaiveDateTime)
    requires
        0 <= dt.secs() < 86_400,
        0 <= dt.nanos() < 1_000_000_000,
        timestamp_nanos_of(dt) is Some,
    ensures
        decode_unix_nanos(timestamp_nanos_of(dt).unwrap() as int) == (dt.days(), dt.secs(), dt.nanos()),
{
    let s = unix_seconds(dt.days(), dt.secs());
    vstd::arithmetic::div_mod::lemma_fundamental_div_mod_converse(
        s * 1_000_000_000 + dt.nanos(),
        1_000_000_000,
        s,
        dt.nanos(),
    );
    vstd::arithmetic::div_mod::lemma_fundamental_div_mod_converse(
        s,
        86_400,
        dt.days() - UNIX_EPOCH_DAY,
        dt.secs(),
    );
}

/// The same of an instant in UTC.
pub proof fn instant_nanos_timestamp_decodes(d: DateTime)
    requires
        0 <= d.secs() < 86_400,
        0 <= d.nanos() < 1_000_000_000,
        instant_nanos_of(d) is Some,
    ensures
        decode_unix_nanos(instant_nanos_of(d).unwrap() as int) == (d.days(), d.secs(), d.nanos()),
{
    let s = unix_seconds(d.days(), d.secs());
    vstd::arithmetic::div_mod::lemma_fundamental_div_mod_converse(
        s * 1_000_000_000 + d.nanos(),
        1_000_000_000,
        s,
        d.nanos(),
    );
    vstd::arithmetic::div_mod::lemma_fundamental_div_mod_converse(
        s,
        86_400,
        d.days() - UNIX_EPOCH_DAY,
        d.secs(),
    );
}

} // verus!
