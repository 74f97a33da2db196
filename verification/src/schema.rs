//! The description of an Arrow column: its name, the Arrow type of its values
//! and whether it may hold nulls, with the variants of Arrow's `DataType`
//! that the columns of this crate use.

use vstd::prelude::*;

verus! {

/// The unit of an Arrow time or timestamp type.
#[derive(Clone, Copy, Debug, PartialEq, Eq, Structural)]
pub enum TimeUnit {
    Second,
    Millisecond,
    Microsecond,
    Nanosecond,
}

/// The Arrow type of a column's values.
#[derive(Debug, PartialEq, Eq)]
pub enum DataType {
    Boolean,
    Int32,
    Int64,
    UInt32,
    UInt64,
    Float32,
    Float64,
    /// Days since 1970-01-01.
    Date32,
    /// Time of day since midnight.
    Time64(TimeUnit),
    /// Time since 1970-01-01T00:00:00 in the given unit, with an optional
    /// time zone.
    Timestamp(TimeUnit, Option<String>),
    /// UTF-8 strings with 32-bit offsets.
    Utf8,
    /// Byte strings with 64-bit offsets.
    LargeBinary,
    /// Lists with 64-bit offsets of values described by the inner field.
    LargeList(Box<Field>),
}

/// A named column of an Arrow schema.
#[derive(Debug, PartialEq, Eq)]
pub struct Field {
    pub name: String,
    pub data_type: DataType,
    pub nullable: bool,
}

/// The mathematical value of a `DataType`: its strings as sequences of chars.
pub enum DataTypeView {
    Boolean,
    Int32,
    Int64,
    UInt32,
    UInt64,
    Float32,
    Float64,
    Date32,
    Time64(TimeUnit),
    Timestamp(TimeUnit, Option<Seq<char>>),
    Utf8,
    LargeBinary,
    LargeList(Box<FieldView>),
}

/// The mathematical value of a `Field`.
pub struct FieldView {
    pub name: Seq<char>,
    pub data_type: DataTypeView,
    pub nullable: bool,
}

/// The view of a data type.
pub open spec fn data_type_view(d: DataType) -> DataTypeView
    decreases d,
{
    match d {
        DataType::Boolean => DataTypeView::Boolean,
        DataType::Int32 => DataTypeView::Int32,
        DataType::Int64 => DataTypeView::Int64,
        DataType::UInt32 => DataTypeView::UInt32,
        DataType::UInt64 => DataTypeView::UInt64,
        DataType::Float32 => DataTypeView::Float32,
        DataType::Float64 => DataTypeView::Float64,
        DataType::Date32 => DataTypeView::Date32,
        DataType::Time64(u) => DataTypeView::Time64(u),
        DataType::Timestamp(u, tz) => DataTypeView::Timestamp(
            u,
            match tz {
                Some(s) => Some(s@),
                None => None,
            },
        ),
        DataType::Utf8 => DataTypeView::Utf8,
        DataType::LargeBinary => DataTypeView::LargeBinary,
        DataType::LargeList(f) => DataTypeView::LargeList(Box::new(field_view(*f))),
    }
}

/// The view of a field.
pub open spec fn field_view(f: Field) -> FieldView
    decreases f,
{
    FieldView { name: f.name@, data_type: data_type_view(f.data_type), nullable: f.nullable }
}

impl View for DataType {
    type V = DataTypeView;

    open spec fn view(&self) -> DataTypeView {
        data_type_view(*self)
    }
}

impl View for Field {
    type V = FieldView;

    open spec fn view(&self) -> FieldView {
        field_view(*self)
    }
}

impl Field {
    /// A field with the given name, type and nullability.
    pub fn new(name: &str, data_type: DataType, nullable: bool) -> (r: Field)
        ensures
            r@ == (FieldView { name: name@, data_type: data_type@, nullable }),
    {
        Field { name: name.to_owned(), data_type, nullable }
    }
}

} // verus!
