//! The association of each native type with the Arrow builder that holds a
//! column of its values and the Arrow field that describes that column.

use vstd::prelude::*;
use vstd::pervasive::unreached;

use crate::column::{
    boolean_capacity, date32_capacity, int32_capacity, int64_capacity, large_binary_capacity, time64_micros_capacity, time64_nanos_capacity, timestamp_micros_capacity, timestamp_nanos_capacity, uint32_capacity, uint64_capacity, utf8_capacity,
    binary_bytes, boolean_rows, date32_rows, int32_rows, int64_rows, large_binary_rows,
    opt_byte_vec_view, opt_str_view, opt_string_view, time64_micros_rows, time64_nanos_rows,
    timestamp_micros_rows, timestamp_micros_timezone, timestamp_nanos_rows, uint32_rows,
    uint64_rows, utf8_bytes, utf8_rows, BooleanColumn, Date32Column, Int32Column, Int64Column,
    LargeBinaryColumn, Time64MicrosecondColumn, Time64NanosecondColumn,
    TimestampMicrosecondColumn, TimestampNanosecondColumn, UInt32Column, UInt64Column,
    Utf8Column,
};
use crate::errors::Result;
use crate::schema::{DataType, DataTypeView, Field, FieldView, TimeUnit};
use crate::temporal::{
    date32_of, instant_micros_of, instant_nanos_of, naive_date_to_arrow, naive_datetime_to_arrow,
    naive_datetime_to_arrow_micros, naive_time_to_arrow_micros, naive_time_to_arrow_nanos,
    time64_micros_of, time64_nanos_of, timestamp_micros_of, timestamp_nanos_of, DateTime,
    DateTimeWrapperMicro, NaiveDate, NaiveDateTime, NaiveDateTimeWrapperMicro, NaiveTime,
    NaiveTimeWrapperMicro,
};

verus! {

/// Associates a native type with the Arrow builder of a column of its values.
pub trait ArrowAssoc: Sized {
    /// The builder of a column of such values.
    type Builder;

    /// Whether a builder with room for `nrows` rows stays within the bytes
    /// that an allocation may span.
    spec fn builder_fits(nrows: usize) -> bool;

    /// Whether `b` is a builder as `builder(nrows)` makes it: empty, with
    /// room for `nrows` rows.
    spec fn fresh(nrows: usize, b: Self::Builder) -> bool;

    /// Whether `value` can be appended to `b`: its data stays within the
    /// offsets of the builder, and a timestamp fits its unit.
    spec fn can_append(b: Self::Builder, value: Self) -> bool;

    /// Whether `after` is `before` with `value` appended.
    spec fn appended(before: Self::Builder, value: Self, after: Self::Builder) -> bool;

    /// The field of a column of such values named `header`.
    spec fn field_of(header: Seq<char>) -> FieldView;

    /// An empty builder with room for `nrows` rows.
    fn builder(nrows: usize) -> (b: Self::Builder)
        requires
            Self::builder_fits(nrows),
        ensures
            Self::fresh(nrows, b),
    ;

    /// Appends `value` to the column.
    fn append(builder: &mut Self::Builder, value: Self) -> (r: Result<()>)
        requires
            Self::can_append(*old(builder), value),
        ensures
            r is Ok,
            Self::appended(*old(builder), value, *final(builder)),
    ;

    /// The field of a column of such values named `header`.
    fn field(header: &str) -> (f: Field)
        ensures
            f@ == Self::field_of(header@),
    ;
}

/// A field of large lists whose items `item` describes.
fn list_field(header: &str, item: Field, nullable: bool) -> (f: Field)
    ensures
        f@ == (FieldView {
            name: header@,
            data_type: DataTypeView::LargeList(Box::new(item@)),
            nullable,
        }),
{
    Field::new(header, DataType::LargeList(Box::new(item)), nullable)
}

/// Appends each value as a row of its own, in order.
fn extend_int32(builder: &mut Int32Column, values: &Vec<i32>)
    ensures
        int32_rows(*final(builder)) == int32_rows(*old(builder)) + values@.map_values(
            |x: i32| Some(x),
        ),
{
    let ghost start = int32_rows(*builder);
    let mut i: usize = 0;
    while i < values.len()
        invariant
            i <= values.len(),
            int32_rows(*builder) == start + values@.take(i as int).map_values(|x: i32| Some(x)),
        decreases values.len() - i,
    {
        builder.append_option(Some(values[i]));
        proof {
            assert(values@.take(i + 1) == values@.take(i as int).push(values@[i as int]));
            assert(values@.take(i + 1).map_values(|x: i32| Some(x)) == values@.take(
                i as int,
            ).map_values(|x: i32| Some(x)).push(Some(values@[i as int])));
        }
        i = i + 1;
    }
    proof {
        assert(values@.take(values.len() as int) == values@);
    }
}

/// Appends each value as a row of its own, in order.
fn extend_int64(builder: &mut Int64Column, values: &Vec<i64>)
    ensures
        int64_rows(*final(builder)) == int64_rows(*old(builder)) + values@.map_values(
            |x: i64| Some(x),
        ),
{
    let ghost start = int64_rows(*builder);
    let mut i: usize = 0;
    while i < values.len()
        invariant
            i <= values.len(),
            int64_rows(*builder) == start + values@.take(i as int).map_values(|x: i64| Some(x)),
        decreases values.len() - i,
    {
        builder.append_option(Some(values[i]));
        proof {
            assert(values@.take(i + 1) == values@.take(i as int).push(values@[i as int]));
            assert(values@.take(i + 1).map_values(|x: i64| Some(x)) == values@.take(
                i as int,
            ).map_values(|x: i64| Some(x)).push(Some(values@[i as int])));
        }
        i = i + 1;
    }
    proof {
        assert(values@.take(values.len() as int) == values@);
    }
}

impl ArrowAssoc for u32 {
    type Builder = UInt32Column;

    open spec fn builder_fits(nrows: usize) -> bool {
        nrows * 4 <= isize::MAX
    }

    open spec fn fresh(nrows: usize, b: UInt32Column) -> bool {
        uint32_rows(b) == Seq::<Option<u32>>::empty()
            && uint32_capacity(b) == nrows as nat
    }

    open spec fn can_append(b: UInt32Column, value: u32) -> bool {
        true
    }

    open spec fn appended(before: UInt32Column, value: u32, after: UInt32Column) -> bool {
        uint32_rows(after) == uint32_rows(before).push(Some(value))
    }

    open spec fn field_of(header: Seq<char>) -> FieldView {
        FieldView { name: header, data_type: DataTypeView::UInt32, nullable: false }
    }

    fn builder(nrows: usize) -> (b: UInt32Column) {
        UInt32Column::with_capacity(nrows)
    }

    fn append(builder: &mut UInt32Column, value: u32) -> (r: Result<()>) {
        builder.append_option(Some(value));
        Ok(())
    }

    fn field(header: &str) -> (f: Field) {
        Field::new(header, DataType::UInt32, false)
    }
}

impl ArrowAssoc for Option<u32> {
    type Builder = UInt32Column;

    open spec fn builder_fits(nrows: usize) -> bool {
        nrows * 4 <= isize::MAX
    }

    open spec fn fresh(nrows: usize, b: UInt32Column) -> bool {
        uint32_rows(b) == Seq::<Option<u32>>::empty()
            && uint32_capacity(b) == nrows as nat
    }

    open spec fn can_append(b: UInt32Column, value: Option<u32>) -> bool {
        true
    }

    open spec fn appended(before: UInt32Column, value: Option<u32>, after: UInt32Column) -> bool {
        uint32_rows(after) == uint32_rows(before).push(value)
    }

    open spec fn field_of(header: Seq<char>) -> FieldView {
        FieldView { name: header, data_type: DataTypeView::UInt32, nullable: true }
    }

    fn builder(nrows: usize) -> (b: UInt32Column) {
        UInt32Column::with_capacity(nrows)
    }

    fn append(builder: &mut UInt32Column, value: Option<u32>) -> (r: Result<()>) {
        builder.append_option(value);
        Ok(())
    }

    fn field(header: &str) -> (f: Field) {
        Field::new(header, DataType::UInt32, true)
    }
}

impl ArrowAssoc for u64 {
    type Builder = UInt64Column;

    open spec fn builder_fits(nrows: usize) -> bool {
        nrows * 8 <= isize::MAX
    }

    open spec fn fresh(nrows: usize, b: UInt64Column) -> bool {
        uint64_rows(b) == Seq::<Option<u64>>::empty()
            && uint64_capacity(b) == nrows as nat
    }

    open spec fn can_append(b: UInt64Column, value: u64) -> bool {
        true
    }

    open spec fn appended(before: UInt64Column, value: u64, after: UInt64Column) -> bool {
        uint64_rows(after) == uint64_rows(before).push(Some(value))
    }

    open spec fn field_of(header: Seq<char>) -> FieldView {
        FieldView { name: header, data_type: DataTypeView::UInt64, nullable: false }
    }

    fn builder(nrows: usize) -> (b: UInt64Column) {
        UInt64Column::with_capacity(nrows)
    }

    fn append(builder: &mut UInt64Column, value: u64) -> (r: Result<()>) {
        builder.append_option(Some(value));
        Ok(())
    }

    fn field(header: &str) -> (f: Field) {
        Field::new(header, DataType::UInt64, false)
    }
}

impl ArrowAssoc for Option<u64> {
    type Builder = UInt64Column;

    open spec fn builder_fits(nrows: usize) -> bool {
        nrows * 8 <= isize::MAX
    }

    open spec fn fresh(nrows: usize, b: UInt64Column) -> bool {
        uint64_rows(b) == Seq::<Option<u64>>::empty()
            && uint64_capacity(b) == nrows as nat
    }

    open spec fn can_append(b: UInt64Column, value: Option<u64>) -> bool {
        true
    }

    open spec fn appended(before: UInt64Column, value: Option<u64>, after: UInt64Column) -> bool {
        uint64_rows(after) == uint64_rows(before).push(value)
    }

    open spec fn field_of(header: Seq<char>) -> FieldView {
        FieldView { name: header, data_type: DataTypeView::UInt64, nullable: true }
    }

    fn builder(nrows: usize) -> (b: UInt64Column) {
        UInt64Column::with_capacity(nrows)
    }

    fn append(builder: &mut UInt64Column, value: Option<u64>) -> (r: Result<()>) {
        builder.append_option(value);
        Ok(())
    }

    fn field(header: &str) -> (f: Field) {
        Field::new(header, DataType::UInt64, true)
    }
}

impl ArrowAssoc for i32 {
    type Builder = Int32Column;

    open spec fn builder_fits(nrows: usize) -> bool {
        nrows * 4 <= isize::MAX
    }

    open spec fn fresh(nrows: usize, b: Int32Column) -> bool {
        int32_rows(b) == Seq::<Option<i32>>::empty()
            && int32_capacity(b) == nrows as nat
    }

    open spec fn can_append(b: Int32Column, value: i32) -> bool {
        true
    }

    open spec fn appended(before: Int32Column, value: i32, after: Int32Column) -> bool {
        int32_rows(after) == int32_rows(before).push(Some(value))
    }

    open spec fn field_of(header: Seq<char>) -> FieldView {
        FieldView { name: header, data_type: DataTypeView::Int32, nullable: false }
    }

    fn builder(nrows: usize) -> (b: Int32Column) {
        Int32Column::with_capacity(nrows)
    }

    fn append(builder: &mut Int32Column, value: i32) -> (r: Result<()>) {
        builder.append_option(Some(value));
        Ok(())
    }

    fn field(header: &str) -> (f: Field) {
        Field::new(header, DataType::Int32, false)
    }
}

impl ArrowAssoc for Option<i32> {
    type Builder = Int32Column;

    open spec fn builder_fits(nrows: usize) -> bool {
        nrows * 4 <= isize::MAX
    }

    open spec fn fresh(nrows: usize, b: Int32Column) -> bool {
        int32_rows(b) == Seq::<Option<i32>>::empty()
            && int32_capacity(b) == nrows as nat
    }

    open spec fn can_append(b: Int32Column, value: Option<i32>) -> bool {
        true
    }

    open spec fn appended(before: Int32Column, value: Option<i32>, after: Int32Column) -> bool {
        int32_rows(after) == int32_rows(before).push(value)
    }

    open spec fn field_of(header: Seq<char>) -> FieldView {
        FieldView { name: header, data_type: DataTypeView::Int32, nullable: true }
    }

    fn builder(nrows: usize) -> (b: Int32Column) {
        Int32Column::with_capacity(nrows)
    }

    fn append(builder: &mut Int32Column, value: Option<i32>) -> (r: Result<()>) {
        builder.append_option(value);
        Ok(())
    }

    fn field(header: &str) -> (f: Field) {
        Field::new(header, DataType::Int32, true)
    }
}

impl ArrowAssoc for i64 {
    type Builder = Int64Column;

    open spec fn builder_fits(nrows: usize) -> bool {
        nrows * 8 <= isize::MAX
    }

    open spec fn fresh(nrows: usize, b: Int64Column) -> bool {
        int64_rows(b) == Seq::<Option<i64>>::empty()
            && int64_capacity(b) == nrows as nat
    }

    open spec fn can_append(b: Int64Column, value: i64) -> bool {
        true
    }

    open spec fn appended(before: Int64Column, value: i64, after: Int64Column) -> bool {
        int64_rows(after) == int64_rows(before).push(Some(value))
    }

    open spec fn field_of(header: Seq<char>) -> FieldView {
        FieldView { name: header, data_type: DataTypeView::Int64, nullable: false }
    }

    fn builder(nrows: usize) -> (b: Int64Column) {
        Int64Column::with_capacity(nrows)
    }

    fn append(builder: &mut Int64Column, value: i64) -> (r: Result<()>) {
        builder.append_option(Some(value));
        Ok(())
    }

    fn field(header: &str) -> (f: Field) {
        Field::new(header, DataType::Int64, false)
    }
}

impl ArrowAssoc for Option<i64> {
    type Builder = Int64Column;

    open spec fn builder_fits(nrows: usize) -> bool {
        nrows * 8 <= isize::MAX
    }

    open spec fn fresh(nrows: usize, b: Int64Column) -> bool {
        int64_rows(b) == Seq::<Option<i64>>::empty()
            && int64_capacity(b) == nrows as nat
    }

    open spec fn can_append(b: Int64Column, value: Option<i64>) -> bool {
        true
    }

    open spec fn appended(before: Int64Column, value: Option<i64>, after: Int64Column) -> bool {
        int64_rows(after) == int64_rows(before).push(value)
    }

    open spec fn field_of(header: Seq<char>) -> FieldView {
        FieldView { name: header, data_type: DataTypeView::Int64, nullable: true }
    }

    fn builder(nrows: usize) -> (b: Int64Column) {
        Int64Column::with_capacity(nrows)
    }

    fn append(builder: &mut Int64Column, value: Option<i64>) -> (r: Result<()>) {
        builder.append_option(value);
        Ok(())
    }

    fn field(header: &str) -> (f: Field) {
        Field::new(header, DataType::Int64, true)
    }
}

impl ArrowAssoc for bool {
    type Builder = BooleanColumn;

    open spec fn builder_fits(nrows: usize) -> bool {
        true
    }

    open spec fn fresh(nrows: usize, b: BooleanColumn) -> bool {
        boolean_rows(b) == Seq::<Option<bool>>::empty()
            && boolean_capacity(b) == nrows as nat
    }

    open spec fn can_append(b: BooleanColumn, value: bool) -> bool {
        true
    }

    open spec fn appended(before: BooleanColumn, value: bool, after: BooleanColumn) -> bool {
        boolean_rows(after) == boolean_rows(before).push(Some(value))
    }

    open spec fn field_of(header: Seq<char>) -> FieldView {
        FieldView { name: header, data_type: DataTypeView::Boolean, nullable: false }
    }

    fn builder(nrows: usize) -> (b: BooleanColumn) {
        BooleanColumn::with_capacity(nrows)
    }

    fn append(builder: &mut BooleanColumn, value: bool) -> (r: Result<()>) {
        builder.append_option(Some(value));
        Ok(())
    }

    fn field(header: &str) -> (f: Field) {
        Field::new(header, DataType::Boolean, false)
    }
}

impl ArrowAssoc for Option<bool> {
    type Builder = BooleanColumn;

    open spec fn builder_fits(nrows: usize) -> bool {
        true
    }

    open spec fn fresh(nrows: usize, b: BooleanColumn) -> bool {
        boolean_rows(b) == Seq::<Option<bool>>::empty()
            && boolean_capacity(b) == nrows as nat
    }

    open spec fn can_append(b: BooleanColumn, value: Option<bool>) -> bool {
        true
    }

    open spec fn appended(before: BooleanColumn, value: Option<bool>, after: BooleanColumn) -> bool {
        boolean_rows(after) == boolean_rows(before).push(value)
    }

    open spec fn field_of(header: Seq<char>) -> FieldView {
        FieldView { name: header, data_type: DataTypeView::Boolean, nullable: true }
    }

    fn builder(nrows: usize) -> (b: BooleanColumn) {
        BooleanColumn::with_capacity(nrows)
    }

    fn append(builder: &mut BooleanColumn, value: Option<bool>) -> (r: Result<()>) {
        builder.append_option(value);
        Ok(())
    }

    fn field(header: &str) -> (f: Field) {
        Field::new(header, DataType::Boolean, true)
    }
}

impl ArrowAssoc for Vec<i32> {
    type Builder = Int32Column;

    open spec fn builder_fits(nrows: usize) -> bool {
        nrows * 4 <= isize::MAX
    }

    open spec fn fresh(nrows: usize, b: Int32Column) -> bool {
        int32_rows(b) == Seq::<Option<i32>>::empty()
            && int32_capacity(b) == nrows as nat
    }

    open spec fn can_append(b: Int32Column, value: Vec<i32>) -> bool {
        true
    }

    open spec fn appended(before: Int32Column, value: Vec<i32>, after: Int32Column) -> bool {
        int32_rows(after) == int32_rows(before) + value@.map_values(|x: i32| Some(x))
    }

    open spec fn field_of(header: Seq<char>) -> FieldView {
        FieldView { name: header, data_type: DataTypeView::LargeList(Box::new(FieldView { name: Seq::empty(), data_type: DataTypeView::Int32, nullable: false })), nullable: false }
    }

    fn builder(nrows: usize) -> (b: Int32Column) {
        Int32Column::with_capacity(nrows)
    }

    fn append(builder: &mut Int32Column, value: Vec<i32>) -> (r: Result<()>) {
        extend_int32(builder, &value);
        Ok(())
    }

    fn field(header: &str) -> (f: Field) {
        let inner = Field::new("", DataType::Int32, false);
        proof {
            reveal_strlit("");
            assert(inner@.name =~= Seq::<char>::empty());
        }
        list_field(header, inner, false)
    }
}

impl ArrowAssoc for Option<Vec<i32>> {
    type Builder = Int32Column;

    open spec fn builder_fits(nrows: usize) -> bool {
        nrows * 4 <= isize::MAX
    }

    open spec fn fresh(nrows: usize, b: Int32Column) -> bool {
        int32_rows(b) == Seq::<Option<i32>>::empty()
            && int32_capacity(b) == nrows as nat
    }

    open spec fn can_append(b: Int32Column, value: Option<Vec<i32>>) -> bool {
        true
    }

    open spec fn appended(before: Int32Column, value: Option<Vec<i32>>, after: Int32Column) -> bool {
        int32_rows(after) == match value {
            Some(values) => int32_rows(before) + values@.map_values(|x: i32| Some(x)),
            None => int32_rows(before).push(None),
        }
    }

    open spec fn field_of(header: Seq<char>) -> FieldView {
        FieldView { name: header, data_type: DataTypeView::LargeList(Box::new(FieldView { name: Seq::empty(), data_type: DataTypeView::Int32, nullable: false })), nullable: true }
    }

    fn builder(nrows: usize) -> (b: Int32Column) {
        Int32Column::with_capacity(nrows)
    }

    fn append(builder: &mut Int32Column, value: Option<Vec<i32>>) -> (r: Result<()>) {
        match value {
            Some(values) => extend_int32(builder, &values),
            None => builder.append_option(None),
        }
        Ok(())
    }

    fn field(header: &str) -> (f: Field) {
        let inner = Field::new("", DataType::Int32, false);
        proof {
            reveal_strlit("");
            assert(inner@.name =~= Seq::<char>::empty());
        }
        list_field(header, inner, true)
    }
}

impl ArrowAssoc for Vec<i64> {
    type Builder = Int64Column;

    open spec fn builder_fits(nrows: usize) -> bool {
        nrows * 8 <= isize::MAX
    }

    open spec fn fresh(nrows: usize, b: Int64Column) -> bool {
        int64_rows(b) == Seq::<Option<i64>>::empty()
            && int64_capacity(b) == nrows as nat
    }

    open spec fn can_append(b: Int64Column, value: Vec<i64>) -> bool {
        true
    }

    open spec fn appended(before: Int64Column, value: Vec<i64>, after: Int64Column) -> bool {
        int64_rows(after) == int64_rows(before) + value@.map_values(|x: i64| Some(x))
    }

    open spec fn field_of(header: Seq<char>) -> FieldView {
        FieldView { name: header, data_type: DataTypeView::LargeList(Box::new(FieldView { name: Seq::empty(), data_type: DataTypeView::Int64, nullable: false })), nullable: false }
    }

    fn builder(nrows: usize) -> (b: Int64Column) {
        Int64Column::with_capacity(nrows)
    }

    fn append(builder: &mut Int64Column, value: Vec<i64>) -> (r: Result<()>) {
        extend_int64(builder, &value);
        Ok(())
    }

    fn field(header: &str) -> (f: Field) {
        let inner = Field::new("", DataType::Int64, false);
        proof {
            reveal_strlit("");
            assert(inner@.name =~= Seq::<char>::empty());
        }
        list_field(header, inner, false)
    }
}

impl ArrowAssoc for Option<Vec<i64>> {
    type Builder = Int64Column;

    open spec fn builder_fits(nrows: usize) -> bool {
        nrows * 8 <= isize::MAX
    }

    open spec fn fresh(nrows: usize, b: Int64Column) -> bool {
        int64_rows(b) == Seq::<Option<i64>>::empty()
            && int64_capacity(b) == nrows as nat
    }

    open spec fn can_append(b: Int64Column, value: Option<Vec<i64>>) -> bool {
        true
    }

    open spec fn appended(before: Int64Column, value: Option<Vec<i64>>, after: Int64Column) -> bool {
        int64_rows(after) == match value {
            Some(values) => int64_rows(before) + values@.map_values(|x: i64| Some(x)),
            None => int64_rows(before).push(None),
        }
    }

    open spec fn field_of(header: Seq<char>) -> FieldView {
        FieldView { name: header, data_type: DataTypeView::LargeList(Box::new(FieldView { name: Seq::empty(), data_type: DataTypeView::Int64, nullable: false })), nullable: true }
    }

    fn builder(nrows: usize) -> (b: Int64Column) {
        Int64Column::with_capacity(nrows)
    }

    fn append(builder: &mut Int64Column, value: Option<Vec<i64>>) -> (r: Result<()>) {
        match value {
            Some(values) => extend_int64(builder, &values),
            None => builder.append_option(None),
        }
        Ok(())
    }

    fn field(header: &str) -> (f: Field) {
        let inner = Field::new("", DataType::Int64, false);
        proof {
            reveal_strlit("");
            assert(inner@.name =~= Seq::<char>::empty());
        }
        list_field(header, inner, true)
    }
}

impl<'a> ArrowAssoc for &'a str {
    type Builder = Utf8Column;

    open spec fn builder_fits(nrows: usize) -> bool {
        nrows <= isize::MAX
    }

    open spec fn fresh(nrows: usize, b: Utf8Column) -> bool {
        utf8_rows(b) == Seq::<Option<Seq<char>>>::empty()
            && utf8_capacity(b) == (1024nat, nrows as nat)
    }

    open spec fn can_append(b: Utf8Column, value: &'a str) -> bool {
        utf8_bytes(utf8_rows(b).push(Some(value@))) <= i32::MAX
    }

    open spec fn appended(before: Utf8Column, value: &'a str, after: Utf8Column) -> bool {
        utf8_rows(after) == utf8_rows(before).push(Some(value@))
    }

    open spec fn field_of(header: Seq<char>) -> FieldView {
        FieldView { name: header, data_type: DataTypeView::Utf8, nullable: false }
    }

    fn builder(nrows: usize) -> (b: Utf8Column) {
        Utf8Column::with_capacity(1024, nrows)
    }

    fn append(builder: &mut Utf8Column, value: &'a str) -> (r: Result<()>) {
        builder.append_option(Some(value));
        Ok(())
    }

    fn field(header: &str) -> (f: Field) {
        Field::new(header, DataType::Utf8, false)
    }
}

impl<'a> ArrowAssoc for Option<&'a str> {
    type Builder = Utf8Column;

    open spec fn builder_fits(nrows: usize) -> bool {
        nrows <= isize::MAX
    }

    open spec fn fresh(nrows: usize, b: Utf8Column) -> bool {
        utf8_rows(b) == Seq::<Option<Seq<char>>>::empty()
            && utf8_capacity(b) == (1024nat, nrows as nat)
    }

    open spec fn can_append(b: Utf8Column, value: Option<&'a str>) -> bool {
        utf8_bytes(utf8_rows(b).push(opt_str_view(value))) <= i32::MAX
    }

    open spec fn appended(before: Utf8Column, value: Option<&'a str>, after: Utf8Column) -> bool {
        utf8_rows(after) == utf8_rows(before).push(opt_str_view(value))
    }

    open spec fn field_of(header: Seq<char>) -> FieldView {
        FieldView { name: header, data_type: DataTypeView::Utf8, nullable: true }
    }

    fn builder(nrows: usize) -> (b: Utf8Column) {
        Utf8Column::with_capacity(1024, nrows)
    }

    fn append(builder: &mut Utf8Column, value: Option<&'a str>) -> (r: Result<()>) {
        builder.append_option(value);
        Ok(())
    }

    fn field(header: &str) -> (f: Field) {
        Field::new(header, DataType::Utf8, true)
    }
}

impl ArrowAssoc for String {
    type Builder = Utf8Column;

    open spec fn builder_fits(nrows: usize) -> bool {
        nrows <= isize::MAX
    }

    open spec fn fresh(nrows: usize, b: Utf8Column) -> bool {
        utf8_rows(b) == Seq::<Option<Seq<char>>>::empty()
            && utf8_capacity(b) == (1024nat, nrows as nat)
    }

    open spec fn can_append(b: Utf8Column, value: String) -> bool {
        utf8_bytes(utf8_rows(b).push(Some(value@))) <= i32::MAX
    }

    open spec fn appended(before: Utf8Column, value: String, after: Utf8Column) -> bool {
        utf8_rows(after) == utf8_rows(before).push(Some(value@))
    }

    open spec fn field_of(header: Seq<char>) -> FieldView {
        FieldView { name: header, data_type: DataTypeView::Utf8, nullable: false }
    }

    fn builder(nrows: usize) -> (b: Utf8Column) {
        Utf8Column::with_capacity(1024, nrows)
    }

    fn append(builder: &mut Utf8Column, value: String) -> (r: Result<()>) {
        builder.append_option(Some(value.as_str()));
        Ok(())
    }

    fn field(header: &str) -> (f: Field) {
        Field::new(header, DataType::Utf8, false)
    }
}

impl ArrowAssoc for Option<String> {
    type Builder = Utf8Column;

    open spec fn builder_fits(nrows: usize) -> bool {
        nrows <= isize::MAX
    }

    open spec fn fresh(nrows: usize, b: Utf8Column) -> bool {
        utf8_rows(b) == Seq::<Option<Seq<char>>>::empty()
            && utf8_capacity(b) == (1024nat, nrows as nat)
    }

    open spec fn can_append(b: Utf8Column, value: Option<String>) -> bool {
        utf8_bytes(utf8_rows(b).push(opt_string_view(value))) <= i32::MAX
    }

    open spec fn appended(before: Utf8Column, value: Option<String>, after: Utf8Column) -> bool {
        utf8_rows(after) == utf8_rows(before).push(opt_string_view(value))
    }

    open spec fn field_of(header: Seq<char>) -> FieldView {
        FieldView { name: header, data_type: DataTypeView::Utf8, nullable: true }
    }

    fn builder(nrows: usize) -> (b: Utf8Column) {
        Utf8Column::with_capacity(1024, nrows)
    }

    fn append(builder: &mut Utf8Column, value: Option<String>) -> (r: Result<()>) {
        match value {
            Some(s) => builder.append_option(Some(s.as_str())),
            None => builder.append_option(None),
        }
        Ok(())
    }

    fn field(header: &str) -> (f: Field) {
        Field::new(header, DataType::Utf8, true)
    }
}

impl ArrowAssoc for DateTime {
    type Builder = TimestampNanosecondColumn;

    open spec fn builder_fits(nrows: usize) -> bool {
        nrows * 8 <= isize::MAX
    }

    open spec fn fresh(nrows: usize, b: TimestampNanosecondColumn) -> bool {
        timestamp_nanos_rows(b) == Seq::<Option<i64>>::empty()
            && timestamp_nanos_capacity(b) == nrows as nat
    }

    open spec fn can_append(b: TimestampNanosecondColumn, value: DateTime) -> bool {
        instant_nanos_of(value) is Some
    }

    open spec fn appended(before: TimestampNanosecondColumn, value: DateTime, after: TimestampNanosecondColumn) -> bool {
        timestamp_nanos_rows(after) == timestamp_nanos_rows(before).push(instant_nanos_of(value))
    }

    open spec fn field_of(header: Seq<char>) -> FieldView {
        FieldView { name: header, data_type: DataTypeView::Timestamp(TimeUnit::Nanosecond, None), nullable: false }
    }

    fn builder(nrows: usize) -> (b: TimestampNanosecondColumn) {
        TimestampNanosecondColumn::with_capacity(nrows)
    }

    fn append(builder: &mut TimestampNanosecondColumn, value: DateTime) -> (r: Result<()>) {
        let ns = match value.timestamp_nanos_opt() {
            Some(ns) => ns,
            None => unreached(),
        };
        builder.append_option(Some(ns));
        Ok(())
    }

    fn field(header: &str) -> (f: Field) {
        Field::new(header, DataType::Timestamp(TimeUnit::Nanosecond, None), false)
    }
}

impl ArrowAssoc for Option<DateTime> {
    type Builder = TimestampNanosecondColumn;

    open spec fn builder_fits(nrows: usize) -> bool {
        nrows * 8 <= isize::MAX
    }

    open spec fn fresh(nrows: usize, b: TimestampNanosecondColumn) -> bool {
        timestamp_nanos_rows(b) == Seq::<Option<i64>>::empty()
            && timestamp_nanos_capacity(b) == nrows as nat
    }

    open spec fn can_append(b: TimestampNanosecondColumn, value: Option<DateTime>) -> bool {
        value matches Some(d) ==> instant_nanos_of(d) is Some
    }

    open spec fn appended(before: TimestampNanosecondColumn, value: Option<DateTime>, after: TimestampNanosecondColumn) -> bool {
        timestamp_nanos_rows(after) == timestamp_nanos_rows(before).push(match value {
            Some(d) => instant_nanos_of(d),
            None => None,
        })
    }

    open spec fn field_of(header: Seq<char>) -> FieldView {
        FieldView { name: header, data_type: DataTypeView::Timestamp(TimeUnit::Nanosecond, None), nullable: true }
    }

    fn builder(nrows: usize) -> (b: TimestampNanosecondColumn) {
        TimestampNanosecondColumn::with_capacity(nrows)
    }

    fn append(builder: &mut TimestampNanosecondColumn, value: Option<DateTime>) -> (r: Result<()>) {
        let v = match value {
            Some(d) => match d.timestamp_nanos_opt() {
                Some(ns) => Some(ns),
                None => unreached(),
            },
            None => None,
        };
        builder.append_option(v);
        Ok(())
    }

    fn field(header: &str) -> (f: Field) {
        Field::new(header, DataType::Timestamp(TimeUnit::Nanosecond, None), true)
    }
}

impl ArrowAssoc for DateTimeWrapperMicro {
    type Builder = TimestampMicrosecondColumn;

    open spec fn builder_fits(nrows: usize) -> bool {
        nrows * 8 <= isize::MAX
    }

    open spec fn fresh(nrows: usize, b: TimestampMicrosecondColumn) -> bool {
        timestamp_micros_rows(b) == Seq::<Option<i64>>::empty() && timestamp_micros_timezone(b) == Some("UTC"@)
            && timestamp_micros_capacity(b) == nrows as nat
    }

    open spec fn can_append(b: TimestampMicrosecondColumn, value: DateTimeWrapperMicro) -> bool {
        true
    }

    open spec fn appended(before: TimestampMicrosecondColumn, value: DateTimeWrapperMicro, after: TimestampMicrosecondColumn) -> bool {
        timestamp_micros_rows(after) == timestamp_micros_rows(before).push(Some(instant_micros_of(value.0) as i64))
            && timestamp_micros_timezone(after) == timestamp_micros_timezone(before)
    }

    open spec fn field_of(header: Seq<char>) -> FieldView {
        FieldView { name: header, data_type: DataTypeView::Timestamp(TimeUnit::Microsecond, Some("UTC"@)), nullable: false }
    }

    fn builder(nrows: usize) -> (b: TimestampMicrosecondColumn) {
        proof {
            reveal_strlit("UTC");
        }
        TimestampMicrosecondColumn::with_capacity(nrows).with_timezone("UTC")
    }

    fn append(builder: &mut TimestampMicrosecondColumn, value: DateTimeWrapperMicro) -> (r: Result<()>) {
        let v = Some(value.0.timestamp_micros());
        builder.append_option(v);
        Ok(())
    }

    fn field(header: &str) -> (f: Field) {
        Field::new(header, DataType::Timestamp(TimeUnit::Microsecond, Some("UTC".to_owned())), false)
    }
}

impl ArrowAssoc for Option<DateTimeWrapperMicro> {
    type Builder = TimestampMicrosecondColumn;

    open spec fn builder_fits(nrows: usize) -> bool {
        nrows * 8 <= isize::MAX
    }

    open spec fn fresh(nrows: usize, b: TimestampMicrosecondColumn) -> bool {
        timestamp_micros_rows(b) == Seq::<Option<i64>>::empty() && timestamp_micros_timezone(b) == Some("UTC"@)
            && timestamp_micros_capacity(b) == nrows as nat
    }

    open spec fn can_append(b: TimestampMicrosecondColumn, value: Option<DateTimeWrapperMicro>) -> bool {
        true
    }

    open spec fn appended(before: TimestampMicrosecondColumn, value: Option<DateTimeWrapperMicro>, after: TimestampMicrosecondColumn) -> bool {
        timestamp_micros_rows(after) == timestamp_micros_rows(before).push(match value {
            Some(d) => Some(instant_micros_of(d.0) as i64),
            None => None,
        })
            && timestamp_micros_timezone(after) == timestamp_micros_timezone(before)
    }

    open spec fn field_of(header: Seq<char>) -> FieldView {
        FieldView { name: header, data_type: DataTypeView::Timestamp(TimeUnit::Microsecond, Some("UTC"@)), nullable: true }
    }

    fn builder(nrows: usize) -> (b: TimestampMicrosecondColumn) {
        proof {
            reveal_strlit("UTC");
        }
        TimestampMicrosecondColumn::with_capacity(nrows).with_timezone("UTC")
    }

    fn append(builder: &mut TimestampMicrosecondColumn, value: Option<DateTimeWrapperMicro>) -> (r: Result<()>) {
        let v = match value {
            Some(d) => Some(d.0.timestamp_micros()),
            None => None,
        };
        builder.append_option(v);
        Ok(())
    }

    fn field(header: &str) -> (f: Field) {
        Field::new(header, DataType::Timestamp(TimeUnit::Microsecond, Some("UTC".to_owned())), true)
    }
}

impl ArrowAssoc for NaiveDateTimeWrapperMicro {
    type Builder = TimestampMicrosecondColumn;

    open spec fn builder_fits(nrows: usize) -> bool {
        nrows * 8 <= isize::MAX
    }

    open spec fn fresh(nrows: usize, b: TimestampMicrosecondColumn) -> bool {
        timestamp_micros_rows(b) == Seq::<Option<i64>>::empty() && timestamp_micros_timezone(b) is None
            && timestamp_micros_capacity(b) == nrows as nat
    }

    open spec fn can_append(b: TimestampMicrosecondColumn, value: NaiveDateTimeWrapperMicro) -> bool {
        true
    }

    open spec fn appended(before: TimestampMicrosecondColumn, value: NaiveDateTimeWrapperMicro, after: TimestampMicrosecondColumn) -> bool {
        timestamp_micros_rows(after) == timestamp_micros_rows(before).push(Some(timestamp_micros_of(value.0) as i64))
            && timestamp_micros_timezone(after) == timestamp_micros_timezone(before)
    }

    open spec fn field_of(header: Seq<char>) -> FieldView {
        FieldView { name: header, data_type: DataTypeView::Timestamp(TimeUnit::Microsecond, None), nullable: false }
    }

    fn builder(nrows: usize) -> (b: TimestampMicrosecondColumn) {
        TimestampMicrosecondColumn::with_capacity(nrows)
    }

    fn append(builder: &mut TimestampMicrosecondColumn, value: NaiveDateTimeWrapperMicro) -> (r: Result<()>) {
        let v = Some(naive_datetime_to_arrow_micros(value.0));
        builder.append_option(v);
        Ok(())
    }

    fn field(header: &str) -> (f: Field) {
        Field::new(header, DataType::Timestamp(TimeUnit::Microsecond, None), false)
    }
}

impl ArrowAssoc for Option<NaiveDateTimeWrapperMicro> {
    type Builder = TimestampMicrosecondColumn;

    open spec fn builder_fits(nrows: usize) -> bool {
        nrows * 8 <= isize::MAX
    }

    open spec fn fresh(nrows: usize, b: TimestampMicrosecondColumn) -> bool {
        timestamp_micros_rows(b) == Seq::<Option<i64>>::empty() && timestamp_micros_timezone(b) is None
            && timestamp_micros_capacity(b) == nrows as nat
    }

    open spec fn can_append(b: TimestampMicrosecondColumn, value: Option<NaiveDateTimeWrapperMicro>) -> bool {
        true
    }

    open spec fn appended(before: TimestampMicrosecondColumn, value: Option<NaiveDateTimeWrapperMicro>, after: TimestampMicrosecondColumn) -> bool {
        timestamp_micros_rows(after) == timestamp_micros_rows(before).push(match value {
            Some(d) => Some(timestamp_micros_of(d.0) as i64),
            None => None,
        })
            && timestamp_micros_timezone(after) == timestamp_micros_timezone(before)
    }

    open spec fn field_of(header: Seq<char>) -> FieldView {
        FieldView { name: header, data_type: DataTypeView::Timestamp(TimeUnit::Microsecond, None), nullable: true }
    }

    fn builder(nrows: usize) -> (b: TimestampMicrosecondColumn) {
        TimestampMicrosecondColumn::with_capacity(nrows)
    }

    fn append(builder: &mut TimestampMicrosecondColumn, value: Option<NaiveDateTimeWrapperMicro>) -> (r: Result<()>) {
        let v = match value {
            Some(v) => Some(naive_datetime_to_arrow_micros(v.0)),
            None => None,
        };
        builder.append_option(v);
        Ok(())
    }

    fn field(header: &str) -> (f: Field) {
        Field::new(header, DataType::Timestamp(TimeUnit::Microsecond, None), true)
    }
}

impl ArrowAssoc for NaiveDate {
    type Builder = Date32Column;

    open spec fn builder_fits(nrows: usize) -> bool {
        nrows * 4 <= isize::MAX
    }

    open spec fn fresh(nrows: usize, b: Date32Column) -> bool {
        date32_rows(b) == Seq::<Option<i32>>::empty()
            && date32_capacity(b) == nrows as nat
    }

    open spec fn can_append(b: Date32Column, value: NaiveDate) -> bool {
        true
    }

    open spec fn appended(before: Date32Column, value: NaiveDate, after: Date32Column) -> bool {
        date32_rows(after) == date32_rows(before).push(Some(date32_of(value) as i32))
    }

    open spec fn field_of(header: Seq<char>) -> FieldView {
        FieldView { name: header, data_type: DataTypeView::Date32, nullable: false }
    }

    fn builder(nrows: usize) -> (b: Date32Column) {
        Date32Column::with_capacity(nrows)
    }

    fn append(builder: &mut Date32Column, value: NaiveDate) -> (r: Result<()>) {
        builder.append_option(Some(naive_date_to_arrow(value)));
        Ok(())
    }

    fn field(header: &str) -> (f: Field) {
        Field::new(header, DataType::Date32, false)
    }
}

impl ArrowAssoc for Option<NaiveDate> {
    type Builder = Date32Column;

    open spec fn builder_fits(nrows: usize) -> bool {
        nrows * 4 <= isize::MAX
    }

    open spec fn fresh(nrows: usize, b: Date32Column) -> bool {
        date32_rows(b) == Seq::<Option<i32>>::empty()
            && date32_capacity(b) == nrows as nat
    }

    open spec fn can_append(b: Date32Column, value: Option<NaiveDate>) -> bool {
        true
    }

    open spec fn appended(before: Date32Column, value: Option<NaiveDate>, after: Date32Column) -> bool {
        date32_rows(after) == date32_rows(before).push(match value {
            Some(d) => Some(date32_of(d) as i32),
            None => None,
        })
    }

    open spec fn field_of(header: Seq<char>) -> FieldView {
        FieldView { name: header, data_type: DataTypeView::Date32, nullable: true }
    }

    fn builder(nrows: usize) -> (b: Date32Column) {
        Date32Column::with_capacity(nrows)
    }

    fn append(builder: &mut Date32Column, value: Option<NaiveDate>) -> (r: Result<()>) {
        let v = match value {
            Some(d) => Some(naive_date_to_arrow(d)),
            None => None,
        };
        builder.append_option(v);
        Ok(())
    }

    fn field(header: &str) -> (f: Field) {
        Field::new(header, DataType::Date32, true)
    }
}

impl ArrowAssoc for NaiveDateTime {
    type Builder = TimestampNanosecondColumn;

    open spec fn builder_fits(nrows: usize) -> bool {
        nrows * 8 <= isize::MAX
    }

    open spec fn fresh(nrows: usize, b: TimestampNanosecondColumn) -> bool {
        timestamp_nanos_rows(b) == Seq::<Option<i64>>::empty()
            && timestamp_nanos_capacity(b) == nrows as nat
    }

    open spec fn can_append(b: TimestampNanosecondColumn, value: NaiveDateTime) -> bool {
        timestamp_nanos_of(value) is Some
    }

    open spec fn appended(before: TimestampNanosecondColumn, value: NaiveDateTime, after: TimestampNanosecondColumn) -> bool {
        timestamp_nanos_rows(after) == timestamp_nanos_rows(before).push(timestamp_nanos_of(value))
    }

    open spec fn field_of(header: Seq<char>) -> FieldView {
        FieldView { name: header, data_type: DataTypeView::Timestamp(TimeUnit::Nanosecond, None), nullable: false }
    }

    fn builder(nrows: usize) -> (b: TimestampNanosecondColumn) {
        TimestampNanosecondColumn::with_capacity(nrows)
    }

    fn append(builder: &mut TimestampNanosecondColumn, value: NaiveDateTime) -> (r: Result<()>) {
        builder.append_option(Some(naive_datetime_to_arrow(value)));
        Ok(())
    }

    fn field(header: &str) -> (f: Field) {
        Field::new(header, DataType::Timestamp(TimeUnit::Nanosecond, None), false)
    }
}

impl ArrowAssoc for Option<NaiveDateTime> {
    type Builder = TimestampNanosecondColumn;

    open spec fn builder_fits(nrows: usize) -> bool {
        nrows * 8 <= isize::MAX
    }

    open spec fn fresh(nrows: usize, b: TimestampNanosecondColumn) -> bool {
        timestamp_nanos_rows(b) == Seq::<Option<i64>>::empty()
            && timestamp_nanos_capacity(b) == nrows as nat
    }

    open spec fn can_append(b: TimestampNanosecondColumn, value: Option<NaiveDateTime>) -> bool {
        value matches Some(d) ==> timestamp_nanos_of(d) is Some
    }

    open spec fn appended(before: TimestampNanosecondColumn, value: Option<NaiveDateTime>, after: TimestampNanosecondColumn) -> bool {
        timestamp_nanos_rows(after) == timestamp_nanos_rows(before).push(match value {
            Some(d) => timestamp_nanos_of(d),
            None => None,
        })
    }

    open spec fn field_of(header: Seq<char>) -> FieldView {
        FieldView { name: header, data_type: DataTypeView::Timestamp(TimeUnit::Nanosecond, None), nullable: true }
    }

    fn builder(nrows: usize) -> (b: TimestampNanosecondColumn) {
        TimestampNanosecondColumn::with_capacity(nrows)
    }

    fn append(builder: &mut TimestampNanosecondColumn, value: Option<NaiveDateTime>) -> (r: Result<()>) {
        let v = match value {
            Some(d) => Some(naive_datetime_to_arrow(d)),
            None => None,
        };
        builder.append_option(v);
        Ok(())
    }

    fn field(header: &str) -> (f: Field) {
        Field::new(header, DataType::Timestamp(TimeUnit::Nanosecond, None), true)
    }
}

impl ArrowAssoc for NaiveTime {
    type Builder = Time64NanosecondColumn;

    open spec fn builder_fits(nrows: usize) -> bool {
        nrows * 8 <= isize::MAX
    }

    open spec fn fresh(nrows: usize, b: Time64NanosecondColumn) -> bool {
        time64_nanos_rows(b) == Seq::<Option<i64>>::empty()
            && time64_nanos_capacity(b) == nrows as nat
    }

    open spec fn can_append(b: Time64NanosecondColumn, value: NaiveTime) -> bool {
        true
    }

    open spec fn appended(before: Time64NanosecondColumn, value: NaiveTime, after: Time64NanosecondColumn) -> bool {
        time64_nanos_rows(after) == time64_nanos_rows(before).push(Some(time64_nanos_of(value) as i64))
    }

    open spec fn field_of(header: Seq<char>) -> FieldView {
        FieldView { name: header, data_type: DataTypeView::Time64(TimeUnit::Nanosecond), nullable: false }
    }

    fn builder(nrows: usize) -> (b: Time64NanosecondColumn) {
        Time64NanosecondColumn::with_capacity(nrows)
    }

    fn append(builder: &mut Time64NanosecondColumn, value: NaiveTime) -> (r: Result<()>) {
        builder.append_option(Some(naive_time_to_arrow_nanos(value)));
        Ok(())
    }

    fn field(header: &str) -> (f: Field) {
        Field::new(header, DataType::Time64(TimeUnit::Nanosecond), false)
    }
}

impl ArrowAssoc for Option<NaiveTime> {
    type Builder = Time64NanosecondColumn;

    open spec fn builder_fits(nrows: usize) -> bool {
        nrows * 8 <= isize::MAX
    }

    open spec fn fresh(nrows: usize, b: Time64NanosecondColumn) -> bool {
        time64_nanos_rows(b) == Seq::<Option<i64>>::empty()
            && time64_nanos_capacity(b) == nrows as nat
    }

    open spec fn can_append(b: Time64NanosecondColumn, value: Option<NaiveTime>) -> bool {
        true
    }

    open spec fn appended(before: Time64NanosecondColumn, value: Option<NaiveTime>, after: Time64NanosecondColumn) -> bool {
        time64_nanos_rows(after) == time64_nanos_rows(before).push(match value {
            Some(t) => Some(time64_nanos_of(t) as i64),
            None => None,
        })
    }

    open spec fn field_of(header: Seq<char>) -> FieldView {
        FieldView { name: header, data_type: DataTypeView::Time64(TimeUnit::Nanosecond), nullable: true }
    }

    fn builder(nrows: usize) -> (b: Time64NanosecondColumn) {
        Time64NanosecondColumn::with_capacity(nrows)
    }

    fn append(builder: &mut Time64NanosecondColumn, value: Option<NaiveTime>) -> (r: Result<()>) {
        let v = match value {
            Some(t) => Some(naive_time_to_arrow_nanos(t)),
            None => None,
        };
        builder.append_option(v);
        Ok(())
    }

    fn field(header: &str) -> (f: Field) {
        Field::new(header, DataType::Time64(TimeUnit::Nanosecond), true)
    }
}

impl ArrowAssoc for NaiveTimeWrapperMicro {
    type Builder = Time64MicrosecondColumn;

    open spec fn builder_fits(nrows: usize) -> bool {
        nrows * 8 <= isize::MAX
    }

    open spec fn fresh(nrows: usize, b: Time64MicrosecondColumn) -> bool {
        time64_micros_rows(b) == Seq::<Option<i64>>::empty()
            && time64_micros_capacity(b) == nrows as nat
    }

    open spec fn can_append(b: Time64MicrosecondColumn, value: NaiveTimeWrapperMicro) -> bool {
        true
    }

    open spec fn appended(before: Time64MicrosecondColumn, value: NaiveTimeWrapperMicro, after: Time64MicrosecondColumn) -> bool {
        time64_micros_rows(after) == time64_micros_rows(before).push(Some(time64_micros_of(value.0) as i64))
    }

    open spec fn field_of(header: Seq<char>) -> FieldView {
        FieldView { name: header, data_type: DataTypeView::Time64(TimeUnit::Microsecond), nullable: false }
    }

    fn builder(nrows: usize) -> (b: Time64MicrosecondColumn) {
        Time64MicrosecondColumn::with_capacity(nrows)
    }

    fn append(builder: &mut Time64MicrosecondColumn, value: NaiveTimeWrapperMicro) -> (r: Result<()>) {
        builder.append_option(Some(naive_time_to_arrow_micros(value.0)));
        Ok(())
    }

    fn field(header: &str) -> (f: Field) {
        Field::new(header, DataType::Time64(TimeUnit::Microsecond), false)
    }
}

impl ArrowAssoc for Option<NaiveTimeWrapperMicro> {
    type Builder = Time64MicrosecondColumn;

    open spec fn builder_fits(nrows: usize) -> bool {
        nrows * 8 <= isize::MAX
    }

    open spec fn fresh(nrows: usize, b: Time64MicrosecondColumn) -> bool {
        time64_micros_rows(b) == Seq::<Option<i64>>::empty()
            && time64_micros_capacity(b) == nrows as nat
    }

    open spec fn can_append(b: Time64MicrosecondColumn, value: Option<NaiveTimeWrapperMicro>) -> bool {
        true
    }

    open spec fn appended(before: Time64MicrosecondColumn, value: Option<NaiveTimeWrapperMicro>, after: Time64MicrosecondColumn) -> bool {
        time64_micros_rows(after) == time64_micros_rows(before).push(match value {
            Some(t) => Some(time64_micros_of(t.0) as i64),
            None => None,
        })
    }

    open spec fn field_of(header: Seq<char>) -> FieldView {
        FieldView { name: header, data_type: DataTypeView::Time64(TimeUnit::Microsecond), nullable: true }
    }

    fn builder(nrows: usize) -> (b: Time64MicrosecondColumn) {
        Time64MicrosecondColumn::with_capacity(nrows)
    }

    fn append(builder: &mut Time64MicrosecondColumn, value: Option<NaiveTimeWrapperMicro>) -> (r: Result<()>) {
        let v = match value {
            Some(t) => Some(naive_time_to_arrow_micros(t.0)),
            None => None,
        };
        builder.append_option(v);
        Ok(())
    }

    fn field(header: &str) -> (f: Field) {
        Field::new(header, DataType::Time64(TimeUnit::Microsecond), true)
    }
}

impl ArrowAssoc for Option<Vec<u8>> {
    type Builder = LargeBinaryColumn;

    open spec fn builder_fits(nrows: usize) -> bool {
        nrows <= isize::MAX
    }

    open spec fn fresh(nrows: usize, b: LargeBinaryColumn) -> bool {
        large_binary_rows(b) == Seq::<Option<Seq<u8>>>::empty()
            && large_binary_capacity(b) == (1024nat, nrows as nat)
    }

    open spec fn can_append(b: LargeBinaryColumn, value: Option<Vec<u8>>) -> bool {
        binary_bytes(large_binary_rows(b).push(opt_byte_vec_view(value))) <= isize::MAX
    }

    open spec fn appended(before: LargeBinaryColumn, value: Option<Vec<u8>>, after: LargeBinaryColumn) -> bool {
        large_binary_rows(after) == large_binary_rows(before).push(opt_byte_vec_view(value))
    }

    open spec fn field_of(header: Seq<char>) -> FieldView {
        FieldView { name: header, data_type: DataTypeView::LargeBinary, nullable: true }
    }

    fn builder(nrows: usize) -> (b: LargeBinaryColumn) {
        LargeBinaryColumn::with_capacity(1024, nrows)
    }

    fn append(builder: &mut LargeBinaryColumn, value: Option<Vec<u8>>) -> (r: Result<()>) {
        match value {
            Some(v) => builder.append_option(Some(v.as_slice())),
            None => builder.append_option(None),
        }
        Ok(())
    }

    fn field(header: &str) -> (f: Field) {
        Field::new(header, DataType::LargeBinary, true)
    }
}

impl ArrowAssoc for Vec<u8> {
    type Builder = LargeBinaryColumn;

    open spec fn builder_fits(nrows: usize) -> bool {
        nrows <= isize::MAX
    }

    open spec fn fresh(nrows: usize, b: LargeBinaryColumn) -> bool {
        large_binary_rows(b) == Seq::<Option<Seq<u8>>>::empty()
            && large_binary_capacity(b) == (1024nat, nrows as nat)
    }

    open spec fn can_append(b: LargeBinaryColumn, value: Vec<u8>) -> bool {
        binary_bytes(large_binary_rows(b).push(Some(value@))) <= isize::MAX
    }

    open spec fn appended(before: LargeBinaryColumn, value: Vec<u8>, after: LargeBinaryColumn) -> bool {
        large_binary_rows(after) == large_binary_rows(before).push(Some(value@))
    }

    open spec fn field_of(header: Seq<char>) -> FieldView {
        FieldView { name: header, data_type: DataTypeView::LargeBinary, nullable: false }
    }

    fn builder(nrows: usize) -> (b: LargeBinaryColumn) {
        LargeBinaryColumn::with_capacity(1024, nrows)
    }

    fn append(builder: &mut LargeBinaryColumn, value: Vec<u8>) -> (r: Result<()>) {
        builder.append_option(Some(value.as_slice()));
        Ok(())
    }

    fn field(header: &str) -> (f: Field) {
        Field::new(header, DataType::LargeBinary, false)
    }
}

} // verus!
