//! The external schema type model: every type a schema document can name.
//!
//! Pure data. Each structure has a mathematical view (`*View`) over `Seq`
//! so that contracts can speak of values structurally.

use vstd::prelude::*;

verus! {

/// Granularity of a temporal value.
#[derive(Clone, Copy, PartialEq, Eq, Structural, Debug)]
pub enum TimeUnit {
    Second,
    Millisecond,
    Microsecond,
    Nanosecond,
}

impl DeepView for TimeUnit {
    type V = TimeUnit;

    open spec fn deep_view(&self) -> TimeUnit {
        *self
    }
}

/// Calendar-interval granularity.
#[derive(Clone, Copy, PartialEq, Eq, Structural, Debug)]
pub enum IntervalUnit {
    YearMonth,
    DayTime,
    MonthDayNano,
}

impl DeepView for IntervalUnit {
    type V = IntervalUnit;

    open spec fn deep_view(&self) -> IntervalUnit {
        *self
    }
}

/// Storage strategy of a tagged-union column: sparse allocates every member
/// array in full, dense indirects through an offset array.
#[derive(Clone, Copy, PartialEq, Eq, Structural, Debug)]
pub enum UnionMode {
    Sparse,
    Dense,
}

impl DeepView for UnionMode {
    type V = UnionMode;

    open spec fn deep_view(&self) -> UnionMode {
        *self
    }
}

/// Decimal parameters, carried opaquely: no bounds validation here.
#[derive(Clone, Copy, PartialEq, Eq, Structural, Debug)]
pub struct DecimalType {
    pub precision: u8,
    pub scale: i8,
}

impl DeepView for DecimalType {
    type V = DecimalType;

    open spec fn deep_view(&self) -> DecimalType {
        *self
    }
}

/// A timestamp: a unit and an optional time-zone name.
#[derive(PartialEq, Debug)]
pub struct TimestampType {
    pub unit: TimeUnit,
    pub timezone: Option<String>,
}

/// Mathematical image of [`TimestampType`].
pub struct TimestampTypeView {
    pub unit: TimeUnit,
    pub timezone: Option<Seq<char>>,
}

impl DeepView for TimestampType {
    type V = TimestampTypeView;

    open spec fn deep_view(&self) -> TimestampTypeView {
        TimestampTypeView { unit: self.unit, timezone: self.timezone.deep_view() }
    }
}

/// Elapsed time in a fixed unit.
#[derive(Clone, Copy, PartialEq, Eq, Structural, Debug)]
pub struct DurationType {
    pub unit: TimeUnit,
}

impl DeepView for DurationType {
    type V = DurationType;

    open spec fn deep_view(&self) -> DurationType {
        *self
    }
}

/// Time of day in a fixed unit.
#[derive(Clone, Copy, PartialEq, Eq, Structural, Debug)]
pub struct TimeType {
    pub unit: TimeUnit,
}

impl DeepView for TimeType {
    type V = TimeType;

    open spec fn deep_view(&self) -> TimeType {
        *self
    }
}

/// A calendar interval in a fixed unit.
#[derive(Clone, Copy, PartialEq, Eq, Structural, Debug)]
pub struct IntervalType {
    pub unit: IntervalUnit,
}

impl DeepView for IntervalType {
    type V = IntervalType;

    open spec fn deep_view(&self) -> IntervalType {
        *self
    }
}

/// A map type as a named pair of key and value types; `ordered` records
/// whether the map's keys are sorted.
#[derive(Debug)]
pub struct MapType {
    pub key: Box<DataType>,
    pub value: Box<DataType>,
    pub ordered: bool,
}

/// A tagged union: an ordered association of small-integer tags to member
/// types, and a storage mode.
#[derive(Debug)]
pub struct UnionType {
    pub types: Vec<(i8, DataType)>,
    pub mode: UnionMode,
}

/// Mathematical image of [`UnionType`].
pub struct UnionTypeView {
    pub types: Seq<(i8, DataTypeView)>,
    pub mode: UnionMode,
}

/// Every type expressible in the external schema format.
///
/// `Integer`, `Float`, `Decimal`, `Date` and `Time` are aliases: alternate
/// spellings that normalize to `Int64`, `Float64`, `Decimal256`, `Date64`
/// and `Time32` on conversion to the native representation.  `Unknown`
/// stands for any native type with no external representation.
#[derive(Debug)]
pub enum DataType {
    Unknown,
    Boolean,
    Int8,
    Int16,
    Int32,
    Int64,
    UInt8,
    UInt16,
    UInt32,
    UInt64,
    /// Alias of `Int64`.
    Integer,
    Float16,
    Float32,
    Float64,
    /// Alias of `Float64`.
    Float,
    Decimal128(DecimalType),
    Decimal256(DecimalType),
    /// Alias of `Decimal256`.
    Decimal(DecimalType),
    Timestamp(TimestampType),
    /// Elapsed time since the epoch in days.
    Date32,
    /// Elapsed time since the epoch in milliseconds.
    Date64,
    /// Alias of `Date64`.
    Date,
    /// Elapsed time since midnight in seconds or milliseconds.
    Time32(TimeType),
    /// Elapsed time since midnight in microseconds or nanoseconds.
    Time64(TimeType),
    /// Alias of `Time32`.
    Time(TimeType),
    Duration(DurationType),
    Interval(IntervalType),
    /// Variable-length string in Unicode with UTF-8 encoding.
    String,
    List(Box<DataType>),
    LargeList(Box<DataType>),
    MapOf(Box<DataType>, Box<DataType>),
    Struct(Vec<(String, DataType)>),
    Union(UnionType),
}

/// Mathematical image of [`DataType`]: the same variant tree with `Seq` in
/// place of `Vec` and `String`.
pub enum DataTypeView {
    Unknown,
    Boolean,
    Int8,
    Int16,
    Int32,
    Int64,
    UInt8,
    UInt16,
    UInt32,
    UInt64,
    Integer,
    Float16,
    Float32,
    Float64,
    Float,
    Decimal128(DecimalType),
    Decimal256(DecimalType),
    Decimal(DecimalType),
    Timestamp(TimestampTypeView),
    Date32,
    Date64,
    Date,
    Time32(TimeType),
    Time64(TimeType),
    Time(TimeType),
    Duration(DurationType),
    Interval(IntervalType),
    String,
    List(Box<DataTypeView>),
    LargeList(Box<DataTypeView>),
    MapOf(Box<DataTypeView>, Box<DataTypeView>),
    Struct(Seq<(Seq<char>, DataTypeView)>),
    Union(UnionTypeView),
}

impl DeepView for DataType {
    type V = DataTypeView;

    open spec fn deep_view(&self) -> DataTypeView {
        data_type_view(*self)
    }
}

/// Mathematical image of a struct member list: names as `Seq<char>`, member
/// types as views, in the same order.
pub open spec fn struct_fields_view(s: Seq<(String, DataType)>) -> Seq<(Seq<char>, DataTypeView)>
    decreases s,
{
    if s.len() == 0 {
        Seq::empty()
    } else {
        struct_fields_view(s.drop_last()).push((s.last().0@, data_type_view(s.last().1)))
    }
}

/// Mathematical image of a union member list: tags kept, member types as
/// views, in the same order.
pub open spec fn union_members_view(s: Seq<(i8, DataType)>) -> Seq<(i8, DataTypeView)>
    decreases s,
{
    if s.len() == 0 {
        Seq::empty()
    } else {
        union_members_view(s.drop_last()).push((s.last().0, data_type_view(s.last().1)))
    }
}

/// Mathematical image of a [`DataType`] value.
pub open spec fn data_type_view(t: DataType) -> DataTypeView
    decreases t,
{
    match t {
        DataType::Unknown => DataTypeView::Unknown,
        DataType::Boolean => DataTypeView::Boolean,
        DataType::Int8 => DataTypeView::Int8,
        DataType::Int16 => DataTypeView::Int16,
        DataType::Int32 => DataTypeView::Int32,
        DataType::Int64 => DataTypeView::Int64,
        DataType::UInt8 => DataTypeView::UInt8,
        DataType::UInt16 => DataTypeView::UInt16,
        DataType::UInt32 => DataTypeView::UInt32,
        DataType::UInt64 => DataTypeView::UInt64,
        DataType::Integer => DataTypeView::Integer,
        DataType::Float16 => DataTypeView::Float16,
        DataType::Float32 => DataTypeView::Float32,
        DataType::Float64 => DataTypeView::Float64,
        DataType::Float => DataTypeView::Float,
        DataType::Decimal128(d) => DataTypeView::Decimal128(d),
        DataType::Decimal256(d) => DataTypeView::Decimal256(d),
        DataType::Decimal(d) => DataTypeView::Decimal(d),
        DataType::Timestamp(ts) => DataTypeView::Timestamp(ts.deep_view()),
        DataType::Date32 => DataTypeView::Date32,
        DataType::Date64 => DataTypeView::Date64,
        DataType::Date => DataTypeView::Date,
        DataType::Time32(tt) => DataTypeView::Time32(tt),
        DataType::Time64(tt) => DataTypeView::Time64(tt),
        DataType::Time(tt) => DataTypeView::Time(tt),
        DataType::Duration(d) => DataTypeView::Duration(d),
        DataType::Interval(i) => DataTypeView::Interval(i),
        DataType::String => DataTypeView::String,
        DataType::List(c) => DataTypeView::List(Box::new(data_type_view(*c))),
        DataType::LargeList(c) => DataTypeView::LargeList(Box::new(data_type_view(*c))),
        DataType::MapOf(k, v) => DataTypeView::MapOf(
            Box::new(data_type_view(*k)),
            Box::new(data_type_view(*v)),
        ),
        DataType::Struct(fields) => DataTypeView::Struct(struct_fields_view(fields@)),
        DataType::Union(u) => DataTypeView::Union(
            UnionTypeView { types: union_members_view(u.types@), mode: u.mode },
        ),
    }
}

} // verus!
