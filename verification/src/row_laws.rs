//! What each append writes, stated from the value's own numbers: its day
//! number (0001-01-01 being day 1), its second of the day and its nanosecond
//! within the second.  Each law holds of every value a column accepts.

use vstd::prelude::*;

use crate::assoc::ArrowAssoc;
use crate::column::{
    boolean_capacity, date32_capacity, int32_capacity, int64_capacity, large_binary_capacity, time64_micros_capacity, time64_nanos_capacity, timestamp_micros_capacity, timestamp_nanos_capacity, uint32_capacity, uint64_capacity, utf8_capacity, boolean_rows, date32_rows, int32_rows, int64_rows, large_binary_rows, time64_micros_rows, time64_nanos_rows, timestamp_micros_rows, timestamp_nanos_rows, uint32_rows, uint64_rows, utf8_rows, BooleanColumn, Date32Column, Int32Column, Int64Column, LargeBinaryColumn, Time64MicrosecondColumn, Time64NanosecondColumn, TimestampMicrosecondColumn, TimestampNanosecondColumn, UInt32Column, UInt64Column, Utf8Column, timestamp_micros_timezone,
};
use crate::schema::{DataTypeView, TimeUnit};
use crate::temporal::{
    DateTime, DateTimeWrapperMicro, NaiveDate, NaiveDateTime, NaiveDateTimeWrapperMicro, NaiveTime,
    NaiveTimeWrapperMicro,
};

verus! {

/// `after` is `before` with the single row `row` added at its end.
pub open spec fn one_row_added<A>(before: Seq<A>, after: Seq<A>, row: A) -> bool {
    &&& after.len() == before.len() + 1
    &&& forall|i: int| 0 <= i < before.len() ==> after[i] == before[i]
    &&& after[before.len() as int] == row
}

/// A day, second and nanosecond that chrono can hold as a date and time.
pub open spec fn holds_date_time(days: int, secs: int, nanos: int) -> bool {
    &&& -95_746_129 <= days <= 95_745_399
    &&& 0 <= secs < 86_400
    &&& 0 <= nanos < 2_000_000_000
}

/// Nanoseconds from 1970-01-01T00:00:00 to the given day, second and
/// nanosecond.
pub open spec fn nanos_since_epoch(days: int, secs: int, nanos: int) -> int {
    ((days - 719_163) * 86_400 + secs) * 1_000_000_000 + nanos
}

/// Whole microseconds from 1970-01-01T00:00:00 to the given day, second and
/// nanosecond.
pub open spec fn micros_since_epoch(days: int, secs: int, nanos: int) -> int {
    ((days - 719_163) * 86_400 + secs) * 1_000_000 + nanos / 1_000
}

/// `(a * 1000 + n) / 1000 == a + n / 1000`.
proof fn thousand_split(a: int, n: int)
    ensures
        (a * 1000 + n) / 1000 == a + n / 1000,
{
    assert((a * 1000 + n) / 1000 == a + n / 1000) by (nonlinear_arith);
}

/// A date and time read as UTC is written to a nanosecond timestamp column as
/// the nanoseconds since the epoch, wherever they fit in an `i64`: negative
/// before 1970 (outside a leap second), and so on.
pub proof fn naive_datetime_row(
    before: TimestampNanosecondColumn,
    value: NaiveDateTime,
    after: TimestampNanosecondColumn,
)
    requires
        i64::MIN <= nanos_since_epoch(value.days(), value.secs(), value.nanos()) <= i64::MAX,
        <NaiveDateTime as ArrowAssoc>::appended(before, value, after),
    ensures
        <NaiveDateTime as ArrowAssoc>::can_append(before, value),
        one_row_added(
            timestamp_nanos_rows(before),
            timestamp_nanos_rows(after),
            Some(nanos_since_epoch(value.days(), value.secs(), value.nanos()) as i64),
        ),
        value.days() < 719_163 && value.secs() < 86_400 && value.nanos() < 1_000_000_000 ==> nanos_since_epoch(
            value.days(),
            value.secs(),
            value.nanos(),
        ) < 0,
{
}

/// The same through `Option<NaiveDateTime>`, `None` being a null row.
pub proof fn optional_naive_datetime_row(
    before: TimestampNanosecondColumn,
    value: Option<NaiveDateTime>,
    after: TimestampNanosecondColumn,
)
    requires
        value matches Some(v) ==> i64::MIN <= nanos_since_epoch(v.days(), v.secs(), v.nanos())
            <= i64::MAX,
        <Option<NaiveDateTime> as ArrowAssoc>::appended(before, value, after),
    ensures
        <Option<NaiveDateTime> as ArrowAssoc>::can_append(before, value),
        one_row_added(
            timestamp_nanos_rows(before),
            timestamp_nanos_rows(after),
            match value {
                Some(v) => Some(nanos_since_epoch(v.days(), v.secs(), v.nanos()) as i64),
                None => None,
            },
        ),
{
}

/// An instant in UTC is written to a nanosecond timestamp column as the
/// nanoseconds since the epoch, wherever they fit in an `i64`.
pub proof fn utc_instant_row(
    before: TimestampNanosecondColumn,
    value: DateTime,
    after: TimestampNanosecondColumn,
)
    requires
        i64::MIN <= nanos_since_epoch(value.days(), value.secs(), value.nanos()) <= i64::MAX,
        <DateTime as ArrowAssoc>::appended(before, value, after),
    ensures
        <DateTime as ArrowAssoc>::can_append(before, value),
        one_row_added(
            timestamp_nanos_rows(before),
            timestamp_nanos_rows(after),
            Some(nanos_since_epoch(value.days(), value.secs(), value.nanos()) as i64),
        ),
        value.days() < 719_163 && value.secs() < 86_400 && value.nanos() < 1_000_000_000 ==> nanos_since_epoch(
            value.days(),
            value.secs(),
            value.nanos(),
        ) < 0,
{
}

/// The same through `Option<DateTime>`, `None` being a null row.
pub proof fn optional_utc_instant_row(
    before: TimestampNanosecondColumn,
    value: Option<DateTime>,
    after: TimestampNanosecondColumn,
)
    requires
        value matches Some(v) ==> i64::MIN <= nanos_since_epoch(v.days(), v.secs(), v.nanos())
            <= i64::MAX,
        <Option<DateTime> as ArrowAssoc>::appended(before, value, after),
    ensures
        <Option<DateTime> as ArrowAssoc>::can_append(before, value),
        one_row_added(
            timestamp_nanos_rows(before),
            timestamp_nanos_rows(after),
            match value {
                Some(v) => Some(nanos_since_epoch(v.days(), v.secs(), v.nanos()) as i64),
                None => None,
            },
        ),
{
}

/// An instant for a microsecond column with a UTC zone is written as the
/// whole microseconds since the epoch, for every instant chrono holds; where
/// its nanosecond timestamp fits an `i64`, that is the nanosecond timestamp
/// rounded down to the microsecond.  The column keeps its zone.
pub proof fn utc_micro_row(
    before: TimestampMicrosecondColumn,
    value: DateTimeWrapperMicro,
    after: TimestampMicrosecondColumn,
)
    requires
        holds_date_time(value.0.days(), value.0.secs(), value.0.nanos()),
        <DateTimeWrapperMicro as ArrowAssoc>::appended(before, value, after),
    ensures
        one_row_added(
            timestamp_micros_rows(before),
            timestamp_micros_rows(after),
            Some(micros_since_epoch(value.0.days(), value.0.secs(), value.0.nanos()) as i64),
        ),
        i64::MIN <= micros_since_epoch(value.0.days(), value.0.secs(), value.0.nanos())
            <= i64::MAX,
        micros_since_epoch(value.0.days(), value.0.secs(), value.0.nanos()) == nanos_since_epoch(
            value.0.days(),
            value.0.secs(),
            value.0.nanos(),
        ) / 1000,
        timestamp_micros_timezone(after) == timestamp_micros_timezone(before),
{
    thousand_split(
        ((value.0.days() - 719_163) * 86_400 + value.0.secs()) * 1_000_000,
        value.0.nanos(),
    );
}

/// The same through `Option<DateTimeWrapperMicro>`, `None` being a null row.
pub proof fn optional_utc_micro_row(
    before: TimestampMicrosecondColumn,
    value: Option<DateTimeWrapperMicro>,
    after: TimestampMicrosecondColumn,
)
    requires
        value matches Some(v) ==> holds_date_time(v.0.days(), v.0.secs(), v.0.nanos()),
        <Option<DateTimeWrapperMicro> as ArrowAssoc>::appended(before, value, after),
    ensures
        one_row_added(
            timestamp_micros_rows(before),
            timestamp_micros_rows(after),
            match value {
                Some(v) => Some(micros_since_epoch(v.0.days(), v.0.secs(), v.0.nanos()) as i64),
                None => None,
            },
        ),
        value matches Some(v) ==> i64::MIN <= micros_since_epoch(v.0.days(), v.0.secs(), v.0.nanos())
            <= i64::MAX,
{
}

/// A date and time for a microsecond column is written as the whole
/// microseconds since the epoch, the nanosecond timestamp rounded down.
pub proof fn naive_micro_row(
    before: TimestampMicrosecondColumn,
    value: NaiveDateTimeWrapperMicro,
    after: TimestampMicrosecondColumn,
)
    requires
        holds_date_time(value.0.days(), value.0.secs(), value.0.nanos()),
        <NaiveDateTimeWrapperMicro as ArrowAssoc>::appended(before, value, after),
    ensures
        one_row_added(
            timestamp_micros_rows(before),
            timestamp_micros_rows(after),
            Some(micros_since_epoch(value.0.days(), value.0.secs(), value.0.nanos()) as i64),
        ),
        i64::MIN <= micros_since_epoch(value.0.days(), value.0.secs(), value.0.nanos())
            <= i64::MAX,
        micros_since_epoch(value.0.days(), value.0.secs(), value.0.nanos()) == nanos_since_epoch(
            value.0.days(),
            value.0.secs(),
            value.0.nanos(),
        ) / 1000,
{
    thousand_split(
        ((value.0.days() - 719_163) * 86_400 + value.0.secs()) * 1_000_000,
        value.0.nanos(),
    );
}

/// The same through `Option<NaiveDateTimeWrapperMicro>`, `None` being a null
/// row.
pub proof fn optional_naive_micro_row(
    before: TimestampMicrosecondColumn,
    value: Option<NaiveDateTimeWrapperMicro>,
    after: TimestampMicrosecondColumn,
)
    requires
        value matches Some(v) ==> holds_date_time(v.0.days(), v.0.secs(), v.0.nanos()),
        <Option<NaiveDateTimeWrapperMicro> as ArrowAssoc>::appended(before, value, after),
    ensures
        one_row_added(
            timestamp_micros_rows(before),
            timestamp_micros_rows(after),
            match value {
                Some(v) => Some(micros_since_epoch(v.0.days(), v.0.secs(), v.0.nanos()) as i64),
                None => None,
            },
        ),
{
}

/// A date is written to a `Date32` column as the days since 1970-01-01: the
/// whole days in the seconds timestamp of any time `secs` on that date.
pub proof fn date_row(before: Date32Column, value: NaiveDate, after: Date32Column, secs: int)
    requires
        -95_746_129 <= value.days() <= 95_745_399,
        0 <= secs < 86_400,
        <NaiveDate as ArrowAssoc>::appended(before, value, after),
    ensures
        one_row_added(
            date32_rows(before),
            date32_rows(after),
            Some((value.days() - 719_163) as i32),
        ),
        i32::MIN <= value.days() - 719_163 <= i32::MAX,
        value.days() - 719_163 == ((value.days() - 719_163) * 86_400 + secs) / 86_400,
{
    let d = value.days() - 719_163;
    assert((d * 86_400 + secs) / 86_400 == d) by (nonlinear_arith)
        requires
            0 <= secs < 86_400,
    ;
}

/// The same through `Option<NaiveDate>`, `None` being a null row.
pub proof fn optional_date_row(before: Date32Column, value: Option<NaiveDate>, after: Date32Column)
    requires
        value matches Some(v) ==> -95_746_129 <= v.days() <= 95_745_399,
        <Option<NaiveDate> as ArrowAssoc>::appended(before, value, after),
    ensures
        one_row_added(
            date32_rows(before),
            date32_rows(after),
            match value {
                Some(v) => Some((v.days() - 719_163) as i32),
                None => None,
            },
        ),
        value matches Some(v) ==> i32::MIN <= v.days() - 719_163 <= i32::MAX,
{
}

/// A time of day is written to a microsecond `Time64` column as the whole
/// microseconds since midnight: less than 86 401 seconds' worth, and the
/// nanoseconds since midnight rounded down.
pub proof fn micro_time_row(
    before: Time64MicrosecondColumn,
    value: NaiveTimeWrapperMicro,
    after: Time64MicrosecondColumn,
)
    requires
        0 <= value.0.secs() < 86_400,
        0 <= value.0.nanos() < 2_000_000_000,
        <NaiveTimeWrapperMicro as ArrowAssoc>::appended(before, value, after),
    ensures
        one_row_added(
            time64_micros_rows(before),
            time64_micros_rows(after),
            Some((value.0.secs() * 1_000_000 + value.0.nanos() / 1_000) as i64),
        ),
        0 <= value.0.secs() * 1_000_000 + value.0.nanos() / 1_000 < 86_401_000_000,
        value.0.secs() * 1_000_000 + value.0.nanos() / 1_000 == (value.0.secs() * 1_000_000_000
            + value.0.nanos()) / 1_000,
{
    thousand_split(value.0.secs() * 1_000_000, value.0.nanos());
}

/// The same through `Option<NaiveTimeWrapperMicro>`, `None` being a null row.
pub proof fn optional_micro_time_row(
    before: Time64MicrosecondColumn,
    value: Option<NaiveTimeWrapperMicro>,
    after: Time64MicrosecondColumn,
)
    requires
        value matches Some(v) ==> 0 <= v.0.secs() < 86_400 && 0 <= v.0.nanos() < 2_000_000_000,
        <Option<NaiveTimeWrapperMicro> as ArrowAssoc>::appended(before, value, after),
    ensures
        one_row_added(
            time64_micros_rows(before),
            time64_micros_rows(after),
            match value {
                Some(v) => Some((v.0.secs() * 1_000_000 + v.0.nanos() / 1_000) as i64),
                None => None,
            },
        ),
        value matches Some(v) ==> 0 <= v.0.secs() * 1_000_000 + v.0.nanos() / 1_000
            < 86_401_000_000,
{
}

/// A time of day is written to a nanosecond `Time64` column as the
/// nanoseconds since midnight, less than 86 401 seconds' worth.
pub proof fn nano_time_row(before: Time64NanosecondColumn, value: NaiveTime, after: Time64NanosecondColumn)
    requires
        0 <= value.secs() < 86_400,
        0 <= value.nanos() < 2_000_000_000,
        <NaiveTime as ArrowAssoc>::appended(before, value, after),
    ensures
        one_row_added(
            time64_nanos_rows(before),
            time64_nanos_rows(after),
            Some((value.secs() * 1_000_000_000 + value.nanos()) as i64),
        ),
        0 <= value.secs() * 1_000_000_000 + value.nanos() < 86_401_000_000_000,
{
}

/// The same through `Option<NaiveTime>`, `None` being a null row.
pub proof fn optional_nano_time_row(
    before: Time64NanosecondColumn,
    value: Option<NaiveTime>,
    after: Time64NanosecondColumn,
)
    requires
        value matches Some(v) ==> 0 <= v.secs() < 86_400 && 0 <= v.nanos() < 2_000_000_000,
        <Option<NaiveTime> as ArrowAssoc>::appended(before, value, after),
    ensures
        one_row_added(
            time64_nanos_rows(before),
            time64_nanos_rows(after),
            match value {
                Some(v) => Some((v.secs() * 1_000_000_000 + v.nanos()) as i64),
                None => None,
            },
        ),
{
}

/// `after` is `before` followed by one non-null row for each of `values`, in
/// order.
pub open spec fn rows_extended<A>(before: Seq<Option<A>>, after: Seq<Option<A>>, values: Seq<A>) -> bool {
    &&& after.len() == before.len() + values.len()
    &&& forall|i: int| 0 <= i < before.len() ==> after[i] == before[i]
    &&& forall|i: int| 0 <= i < values.len() ==> after[before.len() + i] == Some(values[i])
}

/// A list of `i64` values adds one non-null row per element, in order, and an
/// empty list adds none.
pub proof fn int64_list_rows(before: Int64Column, value: Vec<i64>, after: Int64Column)
    requires
        <Vec<i64> as ArrowAssoc>::appended(before, value, after),
    ensures
        rows_extended(int64_rows(before), int64_rows(after), value@),
        value@.len() == 0 ==> int64_rows(after) == int64_rows(before),
{
    assert(value@.len() == 0 ==> int64_rows(after) =~= int64_rows(before));
}

/// The same through `Option<Vec<i64>>`, `None` being a single null row.
pub proof fn optional_int64_list_rows(before: Int64Column, value: Option<Vec<i64>>, after: Int64Column)
    requires
        <Option<Vec<i64>> as ArrowAssoc>::appended(before, value, after),
    ensures
        value matches Some(v) ==> rows_extended(int64_rows(before), int64_rows(after), v@),
        value matches Some(v) && v@.len() == 0 ==> int64_rows(after) == int64_rows(before),
        value is None ==> one_row_added(int64_rows(before), int64_rows(after), None),
{
    match value {
        Some(v) => {
            assert(v@.len() == 0 ==> int64_rows(after) =~= int64_rows(before));
        },
        None => {},
    }
}

/// A list of `i32` values adds one non-null row per element, in order, and an
/// empty list adds none.
pub proof fn int32_list_rows(before: Int32Column, value: Vec<i32>, after: Int32Column)
    requires
        <Vec<i32> as ArrowAssoc>::appended(before, value, after),
    ensures
        rows_extended(int32_rows(before), int32_rows(after), value@),
        value@.len() == 0 ==> int32_rows(after) == int32_rows(before),
{
    assert(value@.len() == 0 ==> int32_rows(after) =~= int32_rows(before));
}

/// The same through `Option<Vec<i32>>`, `None` being a single null row.
pub proof fn optional_int32_list_rows(before: Int32Column, value: Option<Vec<i32>>, after: Int32Column)
    requires
        <Option<Vec<i32>> as ArrowAssoc>::appended(before, value, after),
    ensures
        value matches Some(v) ==> rows_extended(int32_rows(before), int32_rows(after), v@),
        value matches Some(v) && v@.len() == 0 ==> int32_rows(after) == int32_rows(before),
        value is None ==> one_row_added(int32_rows(before), int32_rows(after), None),
{
    match value {
        Some(v) => {
            assert(v@.len() == 0 ==> int32_rows(after) =~= int32_rows(before));
        },
        None => {},
    }
}

/// A `u32` is written as itself, one non-null row.
pub proof fn u32_value_row(before: UInt32Column, value: u32, after: UInt32Column)
    requires
        <u32 as ArrowAssoc>::appended(before, value, after),
    ensures
        one_row_added(uint32_rows(before), uint32_rows(after), Some(value)),
{
}

/// An `Option<u32>` is written as itself, `None` as a null row.
pub proof fn optional_u32_value_row(before: UInt32Column, value: Option<u32>, after: UInt32Column)
    requires
        <Option<u32> as ArrowAssoc>::appended(before, value, after),
    ensures
        one_row_added(uint32_rows(before), uint32_rows(after), value),
{
}

/// A `u64` is written as itself, one non-null row.
pub proof fn u64_value_row(before: UInt64Column, value: u64, after: UInt64Column)
    requires
        <u64 as ArrowAssoc>::appended(before, value, after),
    ensures
        one_row_added(uint64_rows(before), uint64_rows(after), Some(value)),
{
}

/// An `Option<u64>` is written as itself, `None` as a null row.
pub proof fn optional_u64_value_row(before: UInt64Column, value: Option<u64>, after: UInt64Column)
    requires
        <Option<u64> as ArrowAssoc>::appended(before, value, after),
    ensures
        one_row_added(uint64_rows(before), uint64_rows(after), value),
{
}

/// A `i32` is written as itself, one non-null row.
pub proof fn i32_value_row(before: Int32Column, value: i32, after: Int32Column)
    requires
        <i32 as ArrowAssoc>::appended(before, value, after),
    ensures
        one_row_added(int32_rows(before), int32_rows(after), Some(value)),
{
}

/// An `Option<i32>` is written as itself, `None` as a null row.
pub proof fn optional_i32_value_row(before: Int32Column, value: Option<i32>, after: Int32Column)
    requires
        <Option<i32> as ArrowAssoc>::appended(before, value, after),
    ensures
        one_row_added(int32_rows(before), int32_rows(after), value),
{
}

/// A `i64` is written as itself, one non-null row.
pub proof fn i64_value_row(before: Int64Column, value: i64, after: Int64Column)
    requires
        <i64 as ArrowAssoc>::appended(before, value, after),
    ensures
        one_row_added(int64_rows(before), int64_rows(after), Some(value)),
{
}

/// An `Option<i64>` is written as itself, `None` as a null row.
pub proof fn optional_i64_value_row(before: Int64Column, value: Option<i64>, after: Int64Column)
    requires
        <Option<i64> as ArrowAssoc>::appended(before, value, after),
    ensures
        one_row_added(int64_rows(before), int64_rows(after), value),
{
}

/// A `bool` is written as itself, one non-null row.
pub proof fn bool_value_row(before: BooleanColumn, value: bool, after: BooleanColumn)
    requires
        <bool as ArrowAssoc>::appended(before, value, after),
    ensures
        one_row_added(boolean_rows(before), boolean_rows(after), Some(value)),
{
}

/// An `Option<bool>` is written as itself, `None` as a null row.
pub proof fn optional_bool_value_row(before: BooleanColumn, value: Option<bool>, after: BooleanColumn)
    requires
        <Option<bool> as ArrowAssoc>::appended(before, value, after),
    ensures
        one_row_added(boolean_rows(before), boolean_rows(after), value),
{
}

/// A string is written as its characters, one non-null row, whether given
/// as `&str` or `String`; `None` is a null row.
pub proof fn string_rows(
    before: Utf8Column,
    s: &str,
    owned: String,
    maybe: Option<&str>,
    maybe_owned: Option<String>,
    after: Utf8Column,
)
    ensures
        <&str as ArrowAssoc>::appended(before, s, after) ==> one_row_added(
            utf8_rows(before),
            utf8_rows(after),
            Some(s@),
        ),
        <String as ArrowAssoc>::appended(before, owned, after) ==> one_row_added(
            utf8_rows(before),
            utf8_rows(after),
            Some(owned@),
        ),
        <Option<&str> as ArrowAssoc>::appended(before, maybe, after) ==> one_row_added(
            utf8_rows(before),
            utf8_rows(after),
            match maybe {
                Some(x) => Some(x@),
                None => None,
            },
        ),
        <Option<String> as ArrowAssoc>::appended(before, maybe_owned, after) ==> one_row_added(
            utf8_rows(before),
            utf8_rows(after),
            match maybe_owned {
                Some(x) => Some(x@),
                None => None,
            },
        ),
{
}

/// A byte vector is written as its bytes, one non-null row; `None` is a null
/// row.
pub proof fn binary_rows(before: LargeBinaryColumn, bytes: Vec<u8>, maybe: Option<Vec<u8>>, after: LargeBinaryColumn)
    ensures
        <Vec<u8> as ArrowAssoc>::appended(before, bytes, after) ==> one_row_added(
            large_binary_rows(before),
            large_binary_rows(after),
            Some(bytes@),
        ),
        <Option<Vec<u8>> as ArrowAssoc>::appended(before, maybe, after) ==> one_row_added(
            large_binary_rows(before),
            large_binary_rows(after),
            match maybe {
                Some(x) => Some(x@),
                None => None,
            },
        ),
{
}

/// The zone that a microsecond timestamp column is made with is the zone its
/// field declares: `UTC` for instants, none for naive date-times.
pub proof fn micro_builder_zone_matches_field(nrows: usize, b: TimestampMicrosecondColumn, header: Seq<char>)
    ensures
        <DateTimeWrapperMicro as ArrowAssoc>::fresh(nrows, b) ==> (
            <DateTimeWrapperMicro as ArrowAssoc>::field_of(header).data_type matches DataTypeView::Timestamp(
                TimeUnit::Microsecond,
                tz,
            ) && tz == timestamp_micros_timezone(b) && tz == Some("UTC"@)),
        <Option<DateTimeWrapperMicro> as ArrowAssoc>::fresh(nrows, b) ==> (
            <Option<DateTimeWrapperMicro> as ArrowAssoc>::field_of(header).data_type matches DataTypeView::Timestamp(
                TimeUnit::Microsecond,
                tz,
            ) && tz == timestamp_micros_timezone(b) && tz == Some("UTC"@)),
        <NaiveDateTimeWrapperMicro as ArrowAssoc>::fresh(nrows, b) ==> (
            <NaiveDateTimeWrapperMicro as ArrowAssoc>::field_of(header).data_type matches DataTypeView::Timestamp(
                TimeUnit::Microsecond,
                tz,
            ) && tz == timestamp_micros_timezone(b) && tz is None),
        <Option<NaiveDateTimeWrapperMicro> as ArrowAssoc>::fresh(nrows, b) ==> (
            <Option<NaiveDateTimeWrapperMicro> as ArrowAssoc>::field_of(header).data_type matches DataTypeView::Timestamp(
                TimeUnit::Microsecond,
                tz,
            ) && tz == timestamp_micros_timezone(b) && tz is None),
{
}

/// A builder made for `nrows` rows holds none, with room for `nrows` (and,
/// for strings and bytes, for 1024 values and `nrows` bytes).
pub proof fn fresh_builders_are_empty(nrows: usize)
    ensures
        forall|b: UInt32Column| #[trigger] <u32 as ArrowAssoc>::fresh(nrows, b) ==> uint32_rows(b).len() == 0 && uint32_capacity(b) == nrows as nat,
        forall|b: UInt32Column| #[trigger] <Option<u32> as ArrowAssoc>::fresh(nrows, b) ==> uint32_rows(b).len() == 0 && uint32_capacity(b) == nrows as nat,
        forall|b: UInt64Column| #[trigger] <u64 as ArrowAssoc>::fresh(nrows, b) ==> uint64_rows(b).len() == 0 && uint64_capacity(b) == nrows as nat,
        forall|b: UInt64Column| #[trigger] <Option<u64> as ArrowAssoc>::fresh(nrows, b) ==> uint64_rows(b).len() == 0 && uint64_capacity(b) == nrows as nat,
        forall|b: Int32Column| #[trigger] <i32 as ArrowAssoc>::fresh(nrows, b) ==> int32_rows(b).len() == 0 && int32_capacity(b) == nrows as nat,
        forall|b: Int32Column| #[trigger] <Option<i32> as ArrowAssoc>::fresh(nrows, b) ==> int32_rows(b).len() == 0 && int32_capacity(b) == nrows as nat,
        forall|b: Int64Column| #[trigger] <i64 as ArrowAssoc>::fresh(nrows, b) ==> int64_rows(b).len() == 0 && int64_capacity(b) == nrows as nat,
        forall|b: Int64Column| #[trigger] <Option<i64> as ArrowAssoc>::fresh(nrows, b) ==> int64_rows(b).len() == 0 && int64_capacity(b) == nrows as nat,
        forall|b: BooleanColumn| #[trigger] <bool as ArrowAssoc>::fresh(nrows, b) ==> boolean_rows(b).len() == 0 && boolean_capacity(b) == nrows as nat,
        forall|b: BooleanColumn| #[trigger] <Option<bool> as ArrowAssoc>::fresh(nrows, b) ==> boolean_rows(b).len() == 0 && boolean_capacity(b) == nrows as nat,
        forall|b: Int32Column| #[trigger] <Vec<i32> as ArrowAssoc>::fresh(nrows, b) ==> int32_rows(b).len() == 0 && int32_capacity(b) == nrows as nat,
        forall|b: Int32Column| #[trigger] <Option<Vec<i32>> as ArrowAssoc>::fresh(nrows, b) ==> int32_rows(b).len() == 0 && int32_capacity(b) == nrows as nat,
        forall|b: Int64Column| #[trigger] <Vec<i64> as ArrowAssoc>::fresh(nrows, b) ==> int64_rows(b).len() == 0 && int64_capacity(b) == nrows as nat,
        forall|b: Int64Column| #[trigger] <Option<Vec<i64>> as ArrowAssoc>::fresh(nrows, b) ==> int64_rows(b).len() == 0 && int64_capacity(b) == nrows as nat,
        forall|b: Utf8Column| #[trigger] <&'static str as ArrowAssoc>::fresh(nrows, b) ==> utf8_rows(b).len() == 0 && utf8_capacity(b) == (1024nat, nrows as nat),
        forall|b: Utf8Column| #[trigger] <Option<&'static str> as ArrowAssoc>::fresh(nrows, b) ==> utf8_rows(b).len() == 0 && utf8_capacity(b) == (1024nat, nrows as nat),
        forall|b: Utf8Column| #[trigger] <String as ArrowAssoc>::fresh(nrows, b) ==> utf8_rows(b).len() == 0 && utf8_capacity(b) == (1024nat, nrows as nat),
        forall|b: Utf8Column| #[trigger] <Option<String> as ArrowAssoc>::fresh(nrows, b) ==> utf8_rows(b).len() == 0 && utf8_capacity(b) == (1024nat, nrows as nat),
        forall|b: TimestampNanosecondColumn| #[trigger] <DateTime as ArrowAssoc>::fresh(nrows, b) ==> timestamp_nanos_rows(b).len() == 0 && timestamp_nanos_capacity(b) == nrows as nat,
        forall|b: TimestampNanosecondColumn| #[trigger] <Option<DateTime> as ArrowAssoc>::fresh(nrows, b) ==> timestamp_nanos_rows(b).len() == 0 && timestamp_nanos_capacity(b) == nrows as nat,
        forall|b: TimestampMicrosecondColumn| #[trigger] <DateTimeWrapperMicro as ArrowAssoc>::fresh(nrows, b) ==> timestamp_micros_rows(b).len() == 0 && timestamp_micros_capacity(b) == nrows as nat,
        forall|b: TimestampMicrosecondColumn| #[trigger] <Option<DateTimeWrapperMicro> as ArrowAssoc>::fresh(nrows, b) ==> timestamp_micros_rows(b).len() == 0 && timestamp_micros_capacity(b) == nrows as nat,
        forall|b: Date32Column| #[trigger] <NaiveDate as ArrowAssoc>::fresh(nrows, b) ==> date32_rows(b).len() == 0 && date32_capacity(b) == nrows as nat,
        forall|b: Date32Column| #[trigger] <Option<NaiveDate> as ArrowAssoc>::fresh(nrows, b) ==> date32_rows(b).len() == 0 && date32_capacity(b) == nrows as nat,
        forall|b: TimestampNanosecondColumn| #[trigger] <NaiveDateTime as ArrowAssoc>::fresh(nrows, b) ==> timestamp_nanos_rows(b).len() == 0 && timestamp_nanos_capacity(b) == nrows as nat,
        forall|b: TimestampNanosecondColumn| #[trigger] <Option<NaiveDateTime> as ArrowAssoc>::fresh(nrows, b) ==> timestamp_nanos_rows(b).len() == 0 && timestamp_nanos_capacity(b) == nrows as nat,
        forall|b: TimestampMicrosecondColumn| #[trigger] <NaiveDateTimeWrapperMicro as ArrowAssoc>::fresh(nrows, b) ==> timestamp_micros_rows(b).len() == 0 && timestamp_micros_capacity(b) == nrows as nat,
        forall|b: TimestampMicrosecondColumn| #[trigger] <Option<NaiveDateTimeWrapperMicro> as ArrowAssoc>::fresh(nrows, b) ==> timestamp_micros_rows(b).len() == 0 && timestamp_micros_capacity(b) == nrows as nat,
        forall|b: Time64NanosecondColumn| #[trigger] <NaiveTime as ArrowAssoc>::fresh(nrows, b) ==> time64_nanos_rows(b).len() == 0 && time64_nanos_capacity(b) == nrows as nat,
        forall|b: Time64NanosecondColumn| #[trigger] <Option<NaiveTime> as ArrowAssoc>::fresh(nrows, b) ==> time64_nanos_rows(b).len() == 0 && time64_nanos_capacity(b) == nrows as nat,
        forall|b: Time64MicrosecondColumn| #[trigger] <NaiveTimeWrapperMicro as ArrowAssoc>::fresh(nrows, b) ==> time64_micros_rows(b).len() == 0 && time64_micros_capacity(b) == nrows as nat,
        forall|b: Time64MicrosecondColumn| #[trigger] <Option<NaiveTimeWrapperMicro> as ArrowAssoc>::fresh(nrows, b) ==> time64_micros_rows(b).len() == 0 && time64_micros_capacity(b) == nrows as nat,
        forall|b: LargeBinaryColumn| #[trigger] <Vec<u8> as ArrowAssoc>::fresh(nrows, b) ==> large_binary_rows(b).len() == 0 && large_binary_capacity(b) == (1024nat, nrows as nat),
        forall|b: LargeBinaryColumn| #[trigger] <Option<Vec<u8>> as ArrowAssoc>::fresh(nrows, b) ==> large_binary_rows(b).len() == 0 && large_binary_capacity(b) == (1024nat, nrows as nat),
{
}

/// Every field is named by the header, and admits nulls exactly for `Option`
/// values.
pub proof fn fields_are_named_by_header(header: Seq<char>)
    ensures
        <u32 as ArrowAssoc>::field_of(header).name == header,
        <u32 as ArrowAssoc>::field_of(header).nullable == false,
        <Option<u32> as ArrowAssoc>::field_of(header).name == header,
        <Option<u32> as ArrowAssoc>::field_of(header).nullable == true,
        <u64 as ArrowAssoc>::field_of(header).name == header,
        <u64 as ArrowAssoc>::field_of(header).nullable == false,
        <Option<u64> as ArrowAssoc>::field_of(header).name == header,
        <Option<u64> as ArrowAssoc>::field_of(header).nullable == true,
        <i32 as ArrowAssoc>::field_of(header).name == header,
        <i32 as ArrowAssoc>::field_of(header).nullable == false,
        <Option<i32> as ArrowAssoc>::field_of(header).name == header,
        <Option<i32> as ArrowAssoc>::field_of(header).nullable == true,
        <i64 as ArrowAssoc>::field_of(header).name == header,
        <i64 as ArrowAssoc>::field_of(header).nullable == false,
        <Option<i64> as ArrowAssoc>::field_of(header).name == header,
        <Option<i64> as ArrowAssoc>::field_of(header).nullable == true,
        <bool as ArrowAssoc>::field_of(header).name == header,
        <bool as ArrowAssoc>::field_of(header).nullable == false,
        <Option<bool> as ArrowAssoc>::field_of(header).name == header,
        <Option<bool> as ArrowAssoc>::field_of(header).nullable == true,
        <Vec<i32> as ArrowAssoc>::field_of(header).name == header,
        <Vec<i32> as ArrowAssoc>::field_of(header).nullable == false,
        <Option<Vec<i32>> as ArrowAssoc>::field_of(header).name == header,
        <Option<Vec<i32>> as ArrowAssoc>::field_of(header).nullable == true,
        <Vec<i64> as ArrowAssoc>::field_of(header).name == header,
        <Vec<i64> as ArrowAssoc>::field_of(header).nullable == false,
        <Option<Vec<i64>> as ArrowAssoc>::field_of(header).name == header,
        <Option<Vec<i64>> as ArrowAssoc>::field_of(header).nullable == true,
        <&'static str as ArrowAssoc>::field_of(header).name == header,
        <&'static str as ArrowAssoc>::field_of(header).nullable == false,
        <Option<&'static str> as ArrowAssoc>::field_of(header).name == header,
        <Option<&'static str> as ArrowAssoc>::field_of(header).nullable == true,
        <String as ArrowAssoc>::field_of(header).name == header,
        <String as ArrowAssoc>::field_of(header).nullable == false,
        <Option<String> as ArrowAssoc>::field_of(header).name == header,
        <Option<String> as ArrowAssoc>::field_of(header).nullable == true,
        <DateTime as ArrowAssoc>::field_of(header).name == header,
        <DateTime as ArrowAssoc>::field_of(header).nullable == false,
        <Option<DateTime> as ArrowAssoc>::field_of(header).name == header,
        <Option<DateTime> as ArrowAssoc>::field_of(header).nullable == true,
        <DateTimeWrapperMicro as ArrowAssoc>::field_of(header).name == header,
        <DateTimeWrapperMicro as ArrowAssoc>::field_of(header).nullable == false,
        <Option<DateTimeWrapperMicro> as ArrowAssoc>::field_of(header).name == header,
        <Option<DateTimeWrapperMicro> as ArrowAssoc>::field_of(header).nullable == true,
        <NaiveDate as ArrowAssoc>::field_of(header).name == header,
        <NaiveDate as ArrowAssoc>::field_of(header).nullable == false,
        <Option<NaiveDate> as ArrowAssoc>::field_of(header).name == header,
        <Option<NaiveDate> as ArrowAssoc>::field_of(header).nullable == true,
        <NaiveDateTime as ArrowAssoc>::field_of(header).name == header,
        <NaiveDateTime as ArrowAssoc>::field_of(header).nullable == false,
        <Option<NaiveDateTime> as ArrowAssoc>::field_of(header).name == header,
        <Option<NaiveDateTime> as ArrowAssoc>::field_of(header).nullable == true,
        <NaiveDateTimeWrapperMicro as ArrowAssoc>::field_of(header).name == header,
        <NaiveDateTimeWrapperMicro as ArrowAssoc>::field_of(header).nullable == false,
        <Option<NaiveDateTimeWrapperMicro> as ArrowAssoc>::field_of(header).name == header,
        <Option<NaiveDateTimeWrapperMicro> as ArrowAssoc>::field_of(header).nullable == true,
        <NaiveTime as ArrowAssoc>::field_of(header).name == header,
        <NaiveTime as ArrowAssoc>::field_of(header).nullable == false,
        <Option<NaiveTime> as ArrowAssoc>::field_of(header).name == header,
        <Option<NaiveTime> as ArrowAssoc>::field_of(header).nullable == true,
        <NaiveTimeWrapperMicro as ArrowAssoc>::field_of(header).name == header,
        <NaiveTimeWrapperMicro as ArrowAssoc>::field_of(header).nullable == false,
        <Option<NaiveTimeWrapperMicro> as ArrowAssoc>::field_of(header).name == header,
        <Option<NaiveTimeWrapperMicro> as ArrowAssoc>::field_of(header).nullable == true,
        <Vec<u8> as ArrowAssoc>::field_of(header).name == header,
        <Vec<u8> as ArrowAssoc>::field_of(header).nullable == false,
        <Option<Vec<u8>> as ArrowAssoc>::field_of(header).name == header,
        <Option<Vec<u8>> as ArrowAssoc>::field_of(header).nullable == true,
{
}

} // verus!
