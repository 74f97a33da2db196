//! Arrow column builders.  Each builder of the `arrow` crate that this crate
//! fills is held in a struct of its own, whose rows (in the order appended,
//! `None` for a null) are named by a spec function.  The trusted methods call
//! the builder and state what its source shows of the rows.  Rows are added
//! with `append_option`, which the builders define as `append_value` for
//! `Some` and `append_null` for `None`.

use vstd::prelude::*;
use arrow::array::{
    BooleanBuilder, Date32Builder, Int32Builder, Int64Builder, LargeBinaryBuilder,
    StringBuilder, Time64MicrosecondBuilder, Time64NanosecondBuilder, TimestampMicrosecondBuilder,
    TimestampNanosecondBuilder, UInt32Builder, UInt64Builder,
};

verus! {

/// Bytes that `c` takes in UTF-8.
pub open spec fn utf8_width(c: char) -> nat {
    if (c as u32) < 0x80 {
        1
    } else if (c as u32) < 0x800 {
        2
    } else if (c as u32) < 0x10000 {
        3
    } else {
        4
    }
}

/// Bytes that `s` takes in UTF-8.
pub open spec fn utf8_len(s: Seq<char>) -> nat
    decreases s.len(),
{
    if s.len() == 0 {
        0
    } else {
        utf8_len(s.drop_last()) + utf8_width(s.last())
    }
}

/// Bytes of string data that the rows hold, nulls holding none.
pub open spec fn utf8_bytes(rows: Seq<Option<Seq<char>>>) -> nat
    decreases rows.len(),
{
    if rows.len() == 0 {
        0
    } else {
        utf8_bytes(rows.drop_last()) + match rows.last() {
            Some(s) => utf8_len(s),
            None => 0,
        }
    }
}

/// Bytes of binary data that the rows hold, nulls holding none.
pub open spec fn binary_bytes(rows: Seq<Option<Seq<u8>>>) -> nat
    decreases rows.len(),
{
    if rows.len() == 0 {
        0
    } else {
        binary_bytes(rows.drop_last()) + match rows.last() {
            Some(s) => s.len(),
            None => 0,
        }
    }
}

/// Appending a row adds its bytes, and a null none, to the string data.
pub proof fn lemma_utf8_bytes_push(rows: Seq<Option<Seq<char>>>, v: Option<Seq<char>>)
    ensures
        utf8_bytes(rows.push(v)) == utf8_bytes(rows) + match v {
            Some(s) => utf8_len(s),
            None => 0,
        },
{
    assert(rows.push(v).drop_last() == rows);
}

/// Appending a row adds its bytes, and a null none, to the binary data.
pub proof fn lemma_binary_bytes_push(rows: Seq<Option<Seq<u8>>>, v: Option<Seq<u8>>)
    ensures
        binary_bytes(rows.push(v)) == binary_bytes(rows) + match v {
            Some(s) => s.len(),
            None => 0,
        },
{
    assert(rows.push(v).drop_last() == rows);
}

/// Calls `str::len`: the bytes of `s`.  Trusted: a `str` is UTF-8, so it
/// takes `utf8_len` of its characters.
#[verifier::external_body]
fn str_byte_len(s: &str) -> (r: usize)
    ensures
        r == utf8_len(s@),
{
    s.len()
}

/// The bytes that `s` takes in UTF-8.
pub fn utf8_byte_len(s: &str) -> (r: usize)
    ensures
        r == utf8_len(s@),
{
    str_byte_len(s)
}

/// A column of `u32` values (Arrow `UInt32`) being built, in arrow's `UInt32Builder`.
#[verifier::external_body]
pub struct UInt32Column {
    builder: UInt32Builder,
}

/// The rows appended to a `UInt32Column`.
pub uninterp spec fn uint32_rows(c: UInt32Column) -> Seq<Option<u32>>;

/// The room for rows that a `UInt32Column` was made with.
pub uninterp spec fn uint32_capacity(c: UInt32Column) -> nat;

impl UInt32Column {
    /// Calls `UInt32Builder::with_capacity`, which makes an empty builder with room for
    /// `capacity` values and panics where that room exceeds `isize::MAX` bytes.
    /// Trusted: the builder holds no rows.
    #[verifier::external_body]
    pub(crate) fn with_capacity(capacity: usize) -> (r: Self)
        requires
            capacity * 4 <= isize::MAX,
        ensures
            uint32_rows(r) == Seq::<Option<u32>>::empty(),
            uint32_capacity(r) == capacity as nat,
    {
        UInt32Column { builder: UInt32Builder::with_capacity(capacity) }
    }

    /// Calls `UInt32Builder::append_option`, which appends a null for `None` and the
    /// value for `Some`.  Trusted: the rows gain `v` at their end.
    #[verifier::external_body]
    pub(crate) fn append_option(&mut self, v: Option<u32>)
        ensures
            uint32_rows(*final(self)) == uint32_rows(*old(self)).push(v),
            uint32_capacity(*final(self)) == uint32_capacity(*old(self)),
    {
        self.builder.append_option(v)
    }

    /// Calls `UInt32Builder::finish_cloned` and reads the array it builds, row by row.
    /// Trusted: the array holds the rows of the builder.
    #[verifier::external_body]
    fn finished_rows(&self) -> (r: Vec<Option<u32>>)
        ensures
            r@ == uint32_rows(*self),
    {
        self.builder.finish_cloned().iter().collect()
    }

    /// The rows appended so far, `None` for a null.
    pub fn rows(&self) -> (r: Vec<Option<u32>>)
        ensures
            r@ == uint32_rows(*self),
    {
        self.finished_rows()
    }

    /// Calls `capacity` of the held builder: the values it can hold without
    /// growing.  Trusted: its value buffer never shrinks, so this is at least
    /// the room the column was made with.
    #[verifier::external_body]
    fn allocated_capacity(&self) -> (r: usize)
        ensures
            r >= uint32_capacity(*self),
    {
        self.builder.capacity()
    }

    /// The values the column can hold without growing: at least the room
    /// that it was made with.
    pub fn capacity(&self) -> (r: usize)
        ensures
            r >= uint32_capacity(*self),
    {
        self.allocated_capacity()
    }
}

/// A column of `u64` values (Arrow `UInt64`) being built, in arrow's `UInt64Builder`.
#[verifier::external_body]
pub struct UInt64Column {
    builder: UInt64Builder,
}

/// The rows appended to a `UInt64Column`.
pub uninterp spec fn uint64_rows(c: UInt64Column) -> Seq<Option<u64>>;

/// The room for rows that a `UInt64Column` was made with.
pub uninterp spec fn uint64_capacity(c: UInt64Column) -> nat;

impl UInt64Column {
    /// Calls `UInt64Builder::with_capacity`, which makes an empty builder with room for
    /// `capacity` values and panics where that room exceeds `isize::MAX` bytes.
    /// Trusted: the builder holds no rows.
    #[verifier::external_body]
    pub(crate) fn with_capacity(capacity: usize) -> (r: Self)
        requires
            capacity * 8 <= isize::MAX,
        ensures
            uint64_rows(r) == Seq::<Option<u64>>::empty(),
            uint64_capacity(r) == capacity as nat,
    {
        UInt64Column { builder: UInt64Builder::with_capacity(capacity) }
    }

    /// Calls `UInt64Builder::append_option`, which appends a null for `None` and the
    /// value for `Some`.  Trusted: the rows gain `v` at their end.
    #[verifier::external_body]
    pub(crate) fn append_option(&mut self, v: Option<u64>)
        ensures
            uint64_rows(*final(self)) == uint64_rows(*old(self)).push(v),
            uint64_capacity(*final(self)) == uint64_capacity(*old(self)),
    {
        self.builder.append_option(v)
    }

    /// Calls `UInt64Builder::finish_cloned` and reads the array it builds, row by row.
    /// Trusted: the array holds the rows of the builder.
    #[verifier::external_body]
    fn finished_rows(&self) -> (r: Vec<Option<u64>>)
        ensures
            r@ == uint64_rows(*self),
    {
        self.builder.finish_cloned().iter().collect()
    }

    /// The rows appended so far, `None` for a null.
    pub fn rows(&self) -> (r: Vec<Option<u64>>)
        ensures
            r@ == uint64_rows(*self),
    {
        self.finished_rows()
    }

    /// Calls `capacity` of the held builder: the values it can hold without
    /// growing.  Trusted: its value buffer never shrinks, so this is at least
    /// the room the column was made with.
    #[verifier::external_body]
    fn allocated_capacity(&self) -> (r: usize)
        ensures
            r >= uint64_capacity(*self),
    {
        self.builder.capacity()
    }

    /// The values the column can hold without growing: at least the room
    /// that it was made with.
    pub fn capacity(&self) -> (r: usize)
        ensures
            r >= uint64_capacity(*self),
    {
        self.allocated_capacity()
    }
}

/// A column of `i32` values (Arrow `Int32`) being built, in arrow's `Int32Builder`.
#[verifier::external_body]
pub struct Int32Column {
    builder: Int32Builder,
}

/// The rows appended to a `Int32Column`.
pub uninterp spec fn int32_rows(c: Int32Column) -> Seq<Option<i32>>;

/// The room for rows that a `Int32Column` was made with.
pub uninterp spec fn int32_capacity(c: Int32Column) -> nat;

impl Int32Column {
    /// Calls `Int32Builder::with_capacity`, which makes an empty builder with room for
    /// `capacity` values and panics where that room exceeds `isize::MAX` bytes.
    /// Trusted: the builder holds no rows.
    #[verifier::external_body]
    pub(crate) fn with_capacity(capacity: usize) -> (r: Self)
        requires
            capacity * 4 <= isize::MAX,
        ensures
            int32_rows(r) == Seq::<Option<i32>>::empty(),
            int32_capacity(r) == capacity as nat,
    {
        Int32Column { builder: Int32Builder::with_capacity(capacity) }
    }

    /// Calls `Int32Builder::append_option`, which appends a null for `None` and the
    /// value for `Some`.  Trusted: the rows gain `v` at their end.
    #[verifier::external_body]
    pub(crate) fn append_option(&mut self, v: Option<i32>)
        ensures
            int32_rows(*final(self)) == int32_rows(*old(self)).push(v),
            int32_capacity(*final(self)) == int32_capacity(*old(self)),
    {
        self.builder.append_option(v)
    }

    /// Calls `Int32Builder::finish_cloned` and reads the array it builds, row by row.
    /// Trusted: the array holds the rows of the builder.
    #[verifier::external_body]
    fn finished_rows(&self) -> (r: Vec<Option<i32>>)
        ensures
            r@ == int32_rows(*self),
    {
        self.builder.finish_cloned().iter().collect()
    }

    /// The rows appended so far, `None` for a null.
    pub fn rows(&self) -> (r: Vec<Option<i32>>)
        ensures
            r@ == int32_rows(*self),
    {
        self.finished_rows()
    }

    /// Calls `capacity` of the held builder: the values it can hold without
    /// growing.  Trusted: its value buffer never shrinks, so this is at least
    /// the room the column was made with.
    #[verifier::external_body]
    fn allocated_capacity(&self) -> (r: usize)
        ensures
            r >= int32_capacity(*self),
    {
        self.builder.capacity()
    }

    /// The values the column can hold without growing: at least the room
    /// that it was made with.
    pub fn capacity(&self) -> (r: usize)
        ensures
            r >= int32_capacity(*self),
    {
        self.allocated_capacity()
    }
}

/// A column of `i64` values (Arrow `Int64`) being built, in arrow's `Int64Builder`.
#[verifier::external_body]
pub struct Int64Column {
    builder: Int64Builder,
}

/// The rows appended to a `Int64Column`.
pub uninterp spec fn int64_rows(c: Int64Column) -> Seq<Option<i64>>;

/// The room for rows that a `Int64Column` was made with.
pub uninterp spec fn int64_capacity(c: Int64Column) -> nat;

impl Int64Column {
    /// Calls `Int64Builder::with_capacity`, which makes an empty builder with room for
    /// `capacity` values and panics where that room exceeds `isize::MAX` bytes.
    /// Trusted: the builder holds no rows.
    #[verifier::external_body]
    pub(crate) fn with_capacity(capacity: usize) -> (r: Self)
        requires
            capacity * 8 <= isize::MAX,
        ensures
            int64_rows(r) == Seq::<Option<i64>>::empty(),
            int64_capacity(r) == capacity as nat,
    {
        Int64Column { builder: Int64Builder::with_capacity(capacity) }
    }

    /// Calls `Int64Builder::append_option`, which appends a null for `None` and the
    /// value for `Some`.  Trusted: the rows gain `v` at their end.
    #[verifier::external_body]
    pub(crate) fn append_option(&mut self, v: Option<i64>)
        ensures
            int64_rows(*final(self)) == int64_rows(*old(self)).push(v),
            int64_capacity(*final(self)) == int64_capacity(*old(self)),
    {
        self.builder.append_option(v)
    }

    /// Calls `Int64Builder::finish_cloned` and reads the array it builds, row by row.
    /// Trusted: the array holds the rows of the builder.
    #[verifier::external_body]
    fn finished_rows(&self) -> (r: Vec<Option<i64>>)
        ensures
            r@ == int64_rows(*self),
    {
        self.builder.finish_cloned().iter().collect()
    }

    /// The rows appended so far, `None` for a null.
    pub fn rows(&self) -> (r: Vec<Option<i64>>)
        ensures
            r@ == int64_rows(*self),
    {
        self.finished_rows()
    }

    /// Calls `capacity` of the held builder: the values it can hold without
    /// growing.  Trusted: its value buffer never shrinks, so this is at least
    /// the room the column was made with.
    #[verifier::external_body]
    fn allocated_capacity(&self) -> (r: usize)
        ensures
            r >= int64_capacity(*self),
    {
        self.builder.capacity()
    }

    /// The values the column can hold without growing: at least the room
    /// that it was made with.
    pub fn capacity(&self) -> (r: usize)
        ensures
            r >= int64_capacity(*self),
    {
        self.allocated_capacity()
    }
}

/// A column of days since 1970-01-01 (Arrow `Date32`) being built, in arrow's `Date32Builder`.
#[verifier::external_body]
pub struct Date32Column {
    builder: Date32Builder,
}

/// The rows appended to a `Date32Column`.
pub uninterp spec fn date32_rows(c: Date32Column) -> Seq<Option<i32>>;

/// The room for rows that a `Date32Column` was made with.
pub uninterp spec fn date32_capacity(c: Date32Column) -> nat;

impl Date32Column {
    /// Calls `Date32Builder::with_capacity`, which makes an empty builder with room for
    /// `capacity` values and panics where that room exceeds `isize::MAX` bytes.
    /// Trusted: the builder holds no rows.
    #[verifier::external_body]
    pub(crate) fn with_capacity(capacity: usize) -> (r: Self)
        requires
            capacity * 4 <= isize::MAX,
        ensures
            date32_rows(r) == Seq::<Option<i32>>::empty(),
            date32_capacity(r) == capacity as nat,
    {
        Date32Column { builder: Date32Builder::with_capacity(capacity) }
    }

    /// Calls `Date32Builder::append_option`, which appends a null for `None` and the
    /// value for `Some`.  Trusted: the rows gain `v` at their end.
    #[verifier::external_body]
    pub(crate) fn append_option(&mut self, v: Option<i32>)
        ensures
            date32_rows(*final(self)) == date32_rows(*old(self)).push(v),
            date32_capacity(*final(self)) == date32_capacity(*old(self)),
    {
        self.builder.append_option(v)
    }

    /// Calls `Date32Builder::finish_cloned` and reads the array it builds, row by row.
    /// Trusted: the array holds the rows of the builder.
    #[verifier::external_body]
    fn finished_rows(&self) -> (r: Vec<Option<i32>>)
        ensures
            r@ == date32_rows(*self),
    {
        self.builder.finish_cloned().iter().collect()
    }

    /// The rows appended so far, `None` for a null.
    pub fn rows(&self) -> (r: Vec<Option<i32>>)
        ensures
            r@ == date32_rows(*self),
    {
        self.finished_rows()
    }

    /// Calls `capacity` of the held builder: the values it can hold without
    /// growing.  Trusted: its value buffer never shrinks, so this is at least
    /// the room the column was made with.
    #[verifier::external_body]
    fn allocated_capacity(&self) -> (r: usize)
        ensures
            r >= date32_capacity(*self),
    {
        self.builder.capacity()
    }

    /// The values the column can hold without growing: at least the room
    /// that it was made with.
    pub fn capacity(&self) -> (r: usize)
        ensures
            r >= date32_capacity(*self),
    {
        self.allocated_capacity()
    }
}

/// A column of nanoseconds since 1970-01-01T00:00:00 (Arrow `Timestamp(Nanosecond)`) being built, in arrow's `TimestampNanosecondBuilder`.
#[verifier::external_body]
pub struct TimestampNanosecondColumn {
    builder: TimestampNanosecondBuilder,
}

/// The rows appended to a `TimestampNanosecondColumn`.
pub uninterp spec fn timestamp_nanos_rows(c: TimestampNanosecondColumn) -> Seq<Option<i64>>;

/// The room for rows that a `TimestampNanosecondColumn` was made with.
pub uninterp spec fn timestamp_nanos_capacity(c: TimestampNanosecondColumn) -> nat;

impl TimestampNanosecondColumn {
    /// Calls `TimestampNanosecondBuilder::with_capacity`, which makes an empty builder with room for
    /// `capacity` values and panics where that room exceeds `isize::MAX` bytes.
    /// Trusted: the builder holds no rows.
    #[verifier::external_body]
    pub(crate) fn with_capacity(capacity: usize) -> (r: Self)
        requires
            capacity * 8 <= isize::MAX,
        ensures
            timestamp_nanos_rows(r) == Seq::<Option<i64>>::empty(),
            timestamp_nanos_capacity(r) == capacity as nat,
    {
        TimestampNanosecondColumn { builder: TimestampNanosecondBuilder::with_capacity(capacity) }
    }

    /// Calls `TimestampNanosecondBuilder::append_option`, which appends a null for `None` and the
    /// value for `Some`.  Trusted: the rows gain `v` at their end.
    #[verifier::external_body]
    pub(crate) fn append_option(&mut self, v: Option<i64>)
        ensures
            timestamp_nanos_rows(*final(self)) == timestamp_nanos_rows(*old(self)).push(v),
            timestamp_nanos_capacity(*final(self)) == timestamp_nanos_capacity(*old(self)),
    {
        self.builder.append_option(v)
    }

    /// Calls `TimestampNanosecondBuilder::finish_cloned` and reads the array it builds, row by row.
    /// Trusted: the array holds the rows of the builder.
    #[verifier::external_body]
    fn finished_rows(&self) -> (r: Vec<Option<i64>>)
        ensures
            r@ == timestamp_nanos_rows(*self),
    {
        self.builder.finish_cloned().iter().collect()
    }

    /// The rows appended so far, `None` for a null.
    pub fn rows(&self) -> (r: Vec<Option<i64>>)
        ensures
            r@ == timestamp_nanos_rows(*self),
    {
        self.finished_rows()
    }

    /// Calls `capacity` of the held builder: the values it can hold without
    /// growing.  Trusted: its value buffer never shrinks, so this is at least
    /// the room the column was made with.
    #[verifier::external_body]
    fn allocated_capacity(&self) -> (r: usize)
        ensures
            r >= timestamp_nanos_capacity(*self),
    {
        self.builder.capacity()
    }

    /// The values the column can hold without growing: at least the room
    /// that it was made with.
    pub fn capacity(&self) -> (r: usize)
        ensures
            r >= timestamp_nanos_capacity(*self),
    {
        self.allocated_capacity()
    }
}

/// A column of microseconds since 1970-01-01T00:00:00 (Arrow `Timestamp(Microsecond)`) being built, in arrow's `TimestampMicrosecondBuilder`.
#[verifier::external_body]
pub struct TimestampMicrosecondColumn {
    builder: TimestampMicrosecondBuilder,
}

/// The rows appended to a `TimestampMicrosecondColumn`.
pub uninterp spec fn timestamp_micros_rows(c: TimestampMicrosecondColumn) -> Seq<Option<i64>>;

/// The room for rows that a `TimestampMicrosecondColumn` was made with.
pub uninterp spec fn timestamp_micros_capacity(c: TimestampMicrosecondColumn) -> nat;

/// The time zone of the Arrow type that a `TimestampMicrosecondColumn`
/// declares, `None` for a timestamp without one.
pub uninterp spec fn timestamp_micros_timezone(c: TimestampMicrosecondColumn) -> Option<Seq<char>>;

impl TimestampMicrosecondColumn {
    /// Calls `TimestampMicrosecondBuilder::with_capacity`, which makes an empty builder with room for
    /// `capacity` values and panics where that room exceeds `isize::MAX` bytes.
    /// Trusted: the builder holds no rows.
    #[verifier::external_body]
    pub(crate) fn with_capacity(capacity: usize) -> (r: Self)
        requires
            capacity * 8 <= isize::MAX,
        ensures
            timestamp_micros_rows(r) == Seq::<Option<i64>>::empty(),
            timestamp_micros_capacity(r) == capacity as nat,
            timestamp_micros_timezone(r) is None,
    {
        TimestampMicrosecondColumn { builder: TimestampMicrosecondBuilder::with_capacity(capacity) }
    }

    /// Calls `TimestampMicrosecondBuilder::append_option`, which appends a null for `None` and the
    /// value for `Some`.  Trusted: the rows gain `v` at their end.
    #[verifier::external_body]
    pub(crate) fn append_option(&mut self, v: Option<i64>)
        ensures
            timestamp_micros_rows(*final(self)) == timestamp_micros_rows(*old(self)).push(v),
            timestamp_micros_capacity(*final(self)) == timestamp_micros_capacity(*old(self)),
            timestamp_micros_timezone(*final(self)) == timestamp_micros_timezone(*old(self)),
    {
        self.builder.append_option(v)
    }

    /// Calls `TimestampMicrosecondBuilder::finish_cloned` and reads the array it builds, row by row.
    /// Trusted: the array holds the rows of the builder.
    #[verifier::external_body]
    fn finished_rows(&self) -> (r: Vec<Option<i64>>)
        ensures
            r@ == timestamp_micros_rows(*self),
    {
        self.builder.finish_cloned().iter().collect()
    }

    /// The rows appended so far, `None` for a null.
    pub fn rows(&self) -> (r: Vec<Option<i64>>)
        ensures
            r@ == timestamp_micros_rows(*self),
    {
        self.finished_rows()
    }

    /// Calls `TimestampMicrosecondBuilder::with_timezone`, which sets the time
    /// zone of the Arrow type that the builder declares.  Trusted: the rows
    /// stay, and the time zone becomes `timezone`.
    #[verifier::external_body]
    pub(crate) fn with_timezone(self, timezone: &str) -> (r: Self)
        ensures
            timestamp_micros_rows(r) == timestamp_micros_rows(self),
            timestamp_micros_timezone(r) == Some(timezone@),
            timestamp_micros_capacity(r) == timestamp_micros_capacity(self),
    {
        TimestampMicrosecondColumn { builder: self.builder.with_timezone(timezone) }
    }

    /// Calls `TimestampMicrosecondBuilder::finish_cloned` and reads the time
    /// zone of the array it builds.  Trusted: it is the builder's.
    #[verifier::external_body]
    fn finished_timezone(&self) -> (r: Option<String>)
        ensures
            match r {
                Some(s) => timestamp_micros_timezone(*self) == Some(s@),
                None => timestamp_micros_timezone(*self) is None,
            },
    {
        match self.builder.finish_cloned().timezone() {
            Some(tz) => Some(tz.to_owned()),
            None => None,
        }
    }

    /// The time zone of the timestamps, if one was set.
    pub fn timezone(&self) -> (r: Option<String>)
        ensures
            match r {
                Some(s) => timestamp_micros_timezone(*self) == Some(s@),
                None => timestamp_micros_timezone(*self) is None,
            },
    {
        self.finished_timezone()
    }

    /// Calls `capacity` of the held builder: the values it can hold without
    /// growing.  Trusted: its value buffer never shrinks, so this is at least
    /// the room the column was made with.
    #[verifier::external_body]
    fn allocated_capacity(&self) -> (r: usize)
        ensures
            r >= timestamp_micros_capacity(*self),
    {
        self.builder.capacity()
    }

    /// The values the column can hold without growing: at least the room
    /// that it was made with.
    pub fn capacity(&self) -> (r: usize)
        ensures
            r >= timestamp_micros_capacity(*self),
    {
        self.allocated_capacity()
    }
}

/// A column of nanoseconds since midnight (Arrow `Time64(Nanosecond)`) being built, in arrow's `Time64NanosecondBuilder`.
#[verifier::external_body]
pub struct Time64NanosecondColumn {
    builder: Time64NanosecondBuilder,
}

/// The rows appended to a `Time64NanosecondColumn`.
pub uninterp spec fn time64_nanos_rows(c: Time64NanosecondColumn) -> Seq<Option<i64>>;

/// The room for rows that a `Time64NanosecondColumn` was made with.
pub uninterp spec fn time64_nanos_capacity(c: Time64NanosecondColumn) -> nat;

impl Time64NanosecondColumn {
    /// Calls `Time64NanosecondBuilder::with_capacity`, which makes an empty builder with room for
    /// `capacity` values and panics where that room exceeds `isize::MAX` bytes.
    /// Trusted: the builder holds no rows.
    #[verifier::external_body]
    pub(crate) fn with_capacity(capacity: usize) -> (r: Self)
        requires
            capacity * 8 <= isize::MAX,
        ensures
            time64_nanos_rows(r) == Seq::<Option<i64>>::empty(),
            time64_nanos_capacity(r) == capacity as nat,
    {
        Time64NanosecondColumn { builder: Time64NanosecondBuilder::with_capacity(capacity) }
    }

    /// Calls `Time64NanosecondBuilder::append_option`, which appends a null for `None` and the
    /// value for `Some`.  Trusted: the rows gain `v` at their end.
    #[verifier::external_body]
    pub(crate) fn append_option(&mut self, v: Option<i64>)
        ensures
            time64_nanos_rows(*final(self)) == time64_nanos_rows(*old(self)).push(v),
            time64_nanos_capacity(*final(self)) == time64_nanos_capacity(*old(self)),
    {
        self.builder.append_option(v)
    }

    /// Calls `Time64NanosecondBuilder::finish_cloned` and reads the array it builds, row by row.
    /// Trusted: the array holds the rows of the builder.
    #[verifier::external_body]
    fn finished_rows(&self) -> (r: Vec<Option<i64>>)
        ensures
            r@ == time64_nanos_rows(*self),
    {
        self.builder.finish_cloned().iter().collect()
    }

    /// The rows appended so far, `None` for a null.
    pub fn rows(&self) -> (r: Vec<Option<i64>>)
        ensures
            r@ == time64_nanos_rows(*self),
    {
        self.finished_rows()
    }

    /// Calls `capacity` of the held builder: the values it can hold without
    /// growing.  Trusted: its value buffer never shrinks, so this is at least
    /// the room the column was made with.
    #[verifier::external_body]
    fn allocated_capacity(&self) -> (r: usize)
        ensures
            r >= time64_nanos_capacity(*self),
    {
        self.builder.capacity()
    }

    /// The values the column can hold without growing: at least the room
    /// that it was made with.
    pub fn capacity(&self) -> (r: usize)
        ensures
            r >= time64_nanos_capacity(*self),
    {
        self.allocated_capacity()
    }
}

/// A column of microseconds since midnight (Arrow `Time64(Microsecond)`) being built, in arrow's `Time64MicrosecondBuilder`.
#[verifier::external_body]
pub struct Time64MicrosecondColumn {
    builder: Time64MicrosecondBuilder,
}

/// The rows appended to a `Time64MicrosecondColumn`.
pub uninterp spec fn time64_micros_rows(c: Time64MicrosecondColumn) -> Seq<Option<i64>>;

/// The room for rows that a `Time64MicrosecondColumn` was made with.
pub uninterp spec fn time64_micros_capacity(c: Time64MicrosecondColumn) -> nat;

impl Time64MicrosecondColumn {
    /// Calls `Time64MicrosecondBuilder::with_capacity`, which makes an empty builder with room for
    /// `capacity` values and panics where that room exceeds `isize::MAX` bytes.
    /// Trusted: the builder holds no rows.
    #[verifier::external_body]
    pub(crate) fn with_capacity(capacity: usize) -> (r: Self)
        requires
            capacity * 8 <= isize::MAX,
        ensures
            time64_micros_rows(r) == Seq::<Option<i64>>::empty(),
            time64_micros_capacity(r) == capacity as nat,
    {
        Time64MicrosecondColumn { builder: Time64MicrosecondBuilder::with_capacity(capacity) }
    }

    /// Calls `Time64MicrosecondBuilder::append_option`, which appends a null for `None` and the
    /// value for `Some`.  Trusted: the rows gain `v` at their end.
    #[verifier::external_body]
    pub(crate) fn append_option(&mut self, v: Option<i64>)
        ensures
            time64_micros_rows(*final(self)) == time64_micros_rows(*old(self)).push(v),
            time64_micros_capacity(*final(self)) == time64_micros_capacity(*old(self)),
    {
        self.builder.append_option(v)
    }

    /// Calls `Time64MicrosecondBuilder::finish_cloned` and reads the array it builds, row by row.
    /// Trusted: the array holds the rows of the builder.
    #[verifier::external_body]
    fn finished_rows(&self) -> (r: Vec<Option<i64>>)
        ensures
            r@ == time64_micros_rows(*self),
    {
        self.builder.finish_cloned().iter().collect()
    }

    /// The rows appended so far, `None` for a null.
    pub fn rows(&self) -> (r: Vec<Option<i64>>)
        ensures
            r@ == time64_micros_rows(*self),
    {
        self.finished_rows()
    }

    /// Calls `capacity` of the held builder: the values it can hold without
    /// growing.  Trusted: its value buffer never shrinks, so this is at least
    /// the room the column was made with.
    #[verifier::external_body]
    fn allocated_capacity(&self) -> (r: usize)
        ensures
            r >= time64_micros_capacity(*self),
    {
        self.builder.capacity()
    }

    /// The values the column can hold without growing: at least the room
    /// that it was made with.
    pub fn capacity(&self) -> (r: usize)
        ensures
            r >= time64_micros_capacity(*self),
    {
        self.allocated_capacity()
    }
}

/// A column of `bool` values (Arrow `Boolean`) being built, in arrow's
/// `BooleanBuilder`.
#[verifier::external_body]
pub struct BooleanColumn {
    builder: BooleanBuilder,
}

/// The rows appended to a `BooleanColumn`.
pub uninterp spec fn boolean_rows(c: BooleanColumn) -> Seq<Option<bool>>;

/// The room for rows that a `BooleanColumn` was made with.
pub uninterp spec fn boolean_capacity(c: BooleanColumn) -> nat;

impl BooleanColumn {
    /// Calls `BooleanBuilder::with_capacity`, which makes an empty builder with
    /// room for `capacity` values.  Trusted: the builder holds no rows.
    #[verifier::external_body]
    pub(crate) fn with_capacity(capacity: usize) -> (r: Self)
        ensures
            boolean_rows(r) == Seq::<Option<bool>>::empty(),
            boolean_capacity(r) == capacity as nat,
    {
        BooleanColumn { builder: BooleanBuilder::with_capacity(capacity) }
    }

    /// Calls `BooleanBuilder::append_option`, which appends a null for `None`
    /// and the value for `Some`.  Trusted: the rows gain `v` at their end.
    #[verifier::external_body]
    pub(crate) fn append_option(&mut self, v: Option<bool>)
        ensures
            boolean_rows(*final(self)) == boolean_rows(*old(self)).push(v),
            boolean_capacity(*final(self)) == boolean_capacity(*old(self)),
    {
        self.builder.append_option(v)
    }

    /// Calls `BooleanBuilder::finish_cloned` and reads the array it builds,
    /// row by row.  Trusted: the array holds the rows of the builder.
    #[verifier::external_body]
    fn finished_rows(&self) -> (r: Vec<Option<bool>>)
        ensures
            r@ == boolean_rows(*self),
    {
        self.builder.finish_cloned().iter().collect()
    }

    /// The rows appended so far, `None` for a null.
    pub fn rows(&self) -> (r: Vec<Option<bool>>)
        ensures
            r@ == boolean_rows(*self),
    {
        self.finished_rows()
    }
}

/// The view of an optional string.
pub open spec fn opt_str_view(v: Option<&str>) -> Option<Seq<char>> {
    match v {
        Some(s) => Some(s@),
        None => None,
    }
}

/// The view of an optional owned string.
pub open spec fn opt_string_view(v: Option<String>) -> Option<Seq<char>> {
    match v {
        Some(s) => Some(s@),
        None => None,
    }
}

/// The view of an optional byte slice.
pub open spec fn opt_bytes_view(v: Option<&[u8]>) -> Option<Seq<u8>> {
    match v {
        Some(s) => Some(s@),
        None => None,
    }
}

/// The view of an optional byte vector.
pub open spec fn opt_byte_vec_view(v: Option<Vec<u8>>) -> Option<Seq<u8>> {
    match v {
        Some(s) => Some(s@),
        None => None,
    }
}

/// A column of UTF-8 strings with 32-bit offsets (Arrow `Utf8`) being built,
/// in arrow's `StringBuilder`.
#[verifier::external_body]
pub struct Utf8Column {
    builder: StringBuilder,
}

/// The rows appended to a `Utf8Column`.
pub uninterp spec fn utf8_rows(c: Utf8Column) -> Seq<Option<Seq<char>>>;

/// The room a `Utf8Column` was made with: for values, and for bytes of data.
pub uninterp spec fn utf8_capacity(c: Utf8Column) -> (nat, nat);

impl Utf8Column {
    /// Calls `StringBuilder::with_capacity`, which makes an empty builder with
    /// room for `item_capacity` strings and `data_capacity` bytes of string
    /// data, and panics where either room exceeds `isize::MAX` bytes.
    /// Trusted: the builder holds no rows.
    #[verifier::external_body]
    pub(crate) fn with_capacity(item_capacity: usize, data_capacity: usize) -> (r: Self)
        requires
            (item_capacity + 1) * 4 <= isize::MAX,
            data_capacity <= isize::MAX,
        ensures
            utf8_rows(r) == Seq::<Option<Seq<char>>>::empty(),
            utf8_capacity(r) == (item_capacity as nat, data_capacity as nat),
    {
        Utf8Column { builder: StringBuilder::with_capacity(item_capacity, data_capacity) }
    }

    /// Calls `StringBuilder::append_option`, which appends a null for `None`
    /// and the string for `Some`, and panics where the string data would pass
    /// `i32::MAX` bytes.  Trusted: the rows gain `v` at their end.
    #[verifier::external_body]
    pub(crate) fn append_option(&mut self, v: Option<&str>)
        requires
            utf8_bytes(utf8_rows(*old(self)).push(opt_str_view(v))) <= i32::MAX,
        ensures
            utf8_rows(*final(self)) == utf8_rows(*old(self)).push(opt_str_view(v)),
            utf8_capacity(*final(self)) == utf8_capacity(*old(self)),
    {
        self.builder.append_option(v)
    }

    /// Calls `StringBuilder::finish_cloned` and copies out the strings of the
    /// array it builds, row by row.  Trusted: the array holds the rows of the
    /// builder.
    #[verifier::external_body]
    fn finished_rows(&self) -> (r: Vec<Option<String>>)
        ensures
            r@.map_values(|v: Option<String>| opt_string_view(v)) == utf8_rows(*self),
    {
        self.builder.finish_cloned().iter().map(|v| v.map(|s| s.to_owned())).collect()
    }

    /// The rows appended so far, `None` for a null.
    pub fn rows(&self) -> (r: Vec<Option<String>>)
        ensures
            r@.map_values(|v: Option<String>| opt_string_view(v)) == utf8_rows(*self),
    {
        self.finished_rows()
    }

    /// Calls `StringBuilder::values_slice` and takes its length: the bytes
    /// of string data so far.  Trusted: they are the bytes of the rows.
    #[verifier::external_body]
    fn values_len(&self) -> (r: usize)
        ensures
            r == utf8_bytes(utf8_rows(*self)),
    {
        self.builder.values_slice().len()
    }

    /// The bytes of string data appended so far.
    pub fn data_bytes(&self) -> (r: usize)
        ensures
            r == utf8_bytes(utf8_rows(*self)),
    {
        self.values_len()
    }

    /// Whether appending `v` keeps the string data within `i32::MAX` bytes,
    /// the most that 32-bit offsets reach.
    pub fn fits(&self, v: Option<&str>) -> (r: bool)
        ensures
            r == (utf8_bytes(utf8_rows(*self).push(opt_str_view(v))) <= i32::MAX),
    {
        proof {
            lemma_utf8_bytes_push(utf8_rows(*self), opt_str_view(v));
        }
        let added: usize = match v {
            Some(s) => utf8_byte_len(s),
            None => 0,
        };
        match self.data_bytes().checked_add(added) {
            Some(total) => total <= 2_147_483_647usize,
            None => false,
        }
    }
}

/// A column of byte strings with 64-bit offsets (Arrow `LargeBinary`) being
/// built, in arrow's `LargeBinaryBuilder`.
#[verifier::external_body]
pub struct LargeBinaryColumn {
    builder: LargeBinaryBuilder,
}

/// The rows appended to a `LargeBinaryColumn`.
pub uninterp spec fn large_binary_rows(c: LargeBinaryColumn) -> Seq<Option<Seq<u8>>>;

/// The room a `LargeBinaryColumn` was made with: for values, and for bytes of data.
pub uninterp spec fn large_binary_capacity(c: LargeBinaryColumn) -> (nat, nat);

impl LargeBinaryColumn {
    /// Calls `LargeBinaryBuilder::with_capacity`, which makes an empty builder
    /// with room for `item_capacity` values and `data_capacity` bytes, and
    /// panics where either room exceeds `isize::MAX` bytes.  Trusted: the
    /// builder holds no rows.
    #[verifier::external_body]
    pub(crate) fn with_capacity(item_capacity: usize, data_capacity: usize) -> (r: Self)
        requires
            (item_capacity + 1) * 8 <= isize::MAX,
            data_capacity <= isize::MAX,
        ensures
            large_binary_rows(r) == Seq::<Option<Seq<u8>>>::empty(),
            large_binary_capacity(r) == (item_capacity as nat, data_capacity as nat),
    {
        LargeBinaryColumn { builder: LargeBinaryBuilder::with_capacity(item_capacity, data_capacity) }
    }

    /// Calls `LargeBinaryBuilder::append_option`, which appends a null for
    /// `None` and the bytes for `Some`, and panics where the data would pass
    /// `isize::MAX` bytes.  Trusted: the rows gain `v` at their end.
    #[verifier::external_body]
    pub(crate) fn append_option(&mut self, v: Option<&[u8]>)
        requires
            binary_bytes(large_binary_rows(*old(self)).push(opt_bytes_view(v))) <= isize::MAX,
        ensures
            large_binary_rows(*final(self)) == large_binary_rows(*old(self)).push(opt_bytes_view(v)),
            large_binary_capacity(*final(self)) == large_binary_capacity(*old(self)),
    {
        self.builder.append_option(v)
    }

    /// Calls `LargeBinaryBuilder::finish_cloned` and copies out the bytes of
    /// the array it builds, row by row.  Trusted: the array holds the rows of
    /// the builder.
    #[verifier::external_body]
    fn finished_rows(&self) -> (r: Vec<Option<Vec<u8>>>)
        ensures
            r@.map_values(|v: Option<Vec<u8>>| opt_byte_vec_view(v)) == large_binary_rows(*self),
    {
        self.builder.finish_cloned().iter().map(|v| v.map(|s| s.to_vec())).collect()
    }

    /// The rows appended so far, `None` for a null.
    pub fn rows(&self) -> (r: Vec<Option<Vec<u8>>>)
        ensures
            r@.map_values(|v: Option<Vec<u8>>| opt_byte_vec_view(v)) == large_binary_rows(*self),
    {
        self.finished_rows()
    }

    /// Calls `LargeBinaryBuilder::values_slice` and takes its length: the
    /// bytes of data so far.  Trusted: they are the bytes of the rows.
    #[verifier::external_body]
    fn values_len(&self) -> (r: usize)
        ensures
            r == binary_bytes(large_binary_rows(*self)),
    {
        self.builder.values_slice().len()
    }

    /// The bytes of data appended so far.
    pub fn data_bytes(&self) -> (r: usize)
        ensures
            r == binary_bytes(large_binary_rows(*self)),
    {
        self.values_len()
    }

    /// Whether appending `v` keeps the data within `isize::MAX` bytes.
    pub fn fits(&self, v: Option<&[u8]>) -> (r: bool)
        ensures
            r == (binary_bytes(large_binary_rows(*self).push(opt_bytes_view(v))) <= isize::MAX),
    {
        proof {
            lemma_binary_bytes_push(large_binary_rows(*self), opt_bytes_view(v));
        }
        let added: usize = match v {
            Some(s) => s.len(),
            None => 0,
        };
        match self.data_bytes().checked_add(added) {
            Some(total) => total <= isize::MAX as usize,
            None => false,
        }
    }
}

} // verus!
