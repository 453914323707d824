//! A structural model of the query engine's native type system.
//!
//! This is the conversion target and source: the subset of the engine's type
//! vocabulary that the external format can reach, plus [`NativeType::Other`]
//! for every native type with no external representation.  Values of these
//! types are plain data; the boundary that turns them into the engine's own
//! schema objects is outside the verified library.

use vstd::prelude::*;

verus! {

/// Granularity of a native temporal value.
#[derive(Clone, Copy, PartialEq, Eq, Structural, Debug)]
pub enum NativeTimeUnit {
    Second,
    Millisecond,
    Microsecond,
    Nanosecond,
}

impl DeepView for NativeTimeUnit {
    type V = NativeTimeUnit;

    open spec fn deep_view(&self) -> NativeTimeUnit {
        *self
    }
}

/// Granularity of a native calendar interval.
#[derive(Clone, Copy, PartialEq, Eq, Structural, Debug)]
pub enum NativeIntervalUnit {
    YearMonth,
    DayTime,
    MonthDayNano,
}

impl DeepView for NativeIntervalUnit {
    type V = NativeIntervalUnit;

    open spec fn deep_view(&self) -> NativeIntervalUnit {
        *self
    }
}

/// Storage mode of a native tagged-union column.
#[derive(Clone, Copy, PartialEq, Eq, Structural, Debug)]
pub enum NativeUnionMode {
    Sparse,
    Dense,
}

impl DeepView for NativeUnionMode {
    type V = NativeUnionMode;

    open spec fn deep_view(&self) -> NativeUnionMode {
        *self
    }
}

/// A named, typed, nullable member of a native nested type or schema.
#[derive(Debug)]
pub struct NativeField {
    pub name: String,
    pub data_type: NativeType,
    pub nullable: bool,
}

/// Mathematical image of [`NativeField`].
pub struct NativeFieldView {
    pub name: Seq<char>,
    pub data_type: NativeTypeView,
    pub nullable: bool,
}

/// The native types the conversion can produce or consume.
///
/// `Other` stands for every native type outside this vocabulary; importing
/// it yields the external `Unknown` type, and nothing exports to it.
#[derive(Debug)]
pub enum NativeType {
    Boolean,
    Int8,
    Int16,
    Int32,
    Int64,
    UInt8,
    UInt16,
    UInt32,
    UInt64,
    Float16,
    Float32,
    Float64,
    Decimal128(u8, i8),
    Decimal256(u8, i8),
    Timestamp(NativeTimeUnit, Option<String>),
    Date32,
    Date64,
    Time32(NativeTimeUnit),
    Time64(NativeTimeUnit),
    Duration(NativeTimeUnit),
    Interval(NativeIntervalUnit),
    Utf8,
    Binary,
    List(Box<NativeField>),
    LargeList(Box<NativeField>),
    /// A map column: the synthetic entry field wrapping the key/value
    /// struct, and whether the keys are sorted.
    MapOf(Box<NativeField>, bool),
    Struct(Vec<NativeField>),
    Union(Vec<(i8, NativeField)>, NativeUnionMode),
    Other,
}

/// Mathematical image of [`NativeType`].
pub enum NativeTypeView {
    Boolean,
    Int8,
    Int16,
    Int32,
    Int64,
    UInt8,
    UInt16,
    UInt32,
    UInt64,
    Float16,
    Float32,
    Float64,
    Decimal128(u8, i8),
    Decimal256(u8, i8),
    Timestamp(NativeTimeUnit, Option<Seq<char>>),
    Date32,
    Date64,
    Time32(NativeTimeUnit),
    Time64(NativeTimeUnit),
    Duration(NativeTimeUnit),
    Interval(NativeIntervalUnit),
    Utf8,
    Binary,
    List(Box<NativeFieldView>),
    LargeList(Box<NativeFieldView>),
    MapOf(Box<NativeFieldView>, bool),
    Struct(Seq<NativeFieldView>),
    Union(Seq<(i8, NativeFieldView)>, NativeUnionMode),
    Other,
}

/// Mathematical image of a native member list, in the same order.
pub open spec fn native_fields_view(s: Seq<NativeField>) -> Seq<NativeFieldView>
    decreases s,
{
    if s.len() == 0 {
        Seq::empty()
    } else {
        native_fields_view(s.drop_last()).push(native_field_view(s.last()))
    }
}

/// Mathematical image of a native union member list, in the same order.
pub open spec fn native_union_members_view(s: Seq<(i8, NativeField)>) -> Seq<
    (i8, NativeFieldView),
>
    decreases s,
{
    if s.len() == 0 {
        Seq::empty()
    } else {
        native_union_members_view(s.drop_last()).push(
            (s.last().0, native_field_view(s.last().1)),
        )
    }
}

/// Mathematical image of a [`NativeField`] value.
pub open spec fn native_field_view(f: NativeField) -> NativeFieldView
    decreases f,
{
    NativeFieldView {
        name: f.name@,
        data_type: native_type_view(f.data_type),
        nullable: f.nullable,
    }
}

/// Mathematical image of a [`NativeType`] value.
pub open spec fn native_type_view(t: NativeType) -> NativeTypeView
    decreases t,
{
    match t {
        NativeType::Boolean => NativeTypeView::Boolean,
        NativeType::Int8 => NativeTypeView::Int8,
        NativeType::Int16 => NativeTypeView::Int16,
        NativeType::Int32 => NativeTypeView::Int32,
        NativeType::Int64 => NativeTypeView::Int64,
        NativeType::UInt8 => NativeTypeView::UInt8,
        NativeType::UInt16 => NativeTypeView::UInt16,
        NativeType::UInt32 => NativeTypeView::UInt32,
        NativeType::UInt64 => NativeTypeView::UInt64,
        NativeType::Float16 => NativeTypeView::Float16,
        NativeType::Float32 => NativeTypeView::Float32,
        NativeType::Float64 => NativeTypeView::Float64,
        NativeType::Decimal128(p, s) => NativeTypeView::Decimal128(p, s),
        NativeType::Decimal256(p, s) => NativeTypeView::Decimal256(p, s),
        NativeType::Timestamp(u, tz) => NativeTypeView::Timestamp(u, tz.deep_view()),
        NativeType::Date32 => NativeTypeView::Date32,
        NativeType::Date64 => NativeTypeView::Date64,
        NativeType::Time32(u) => NativeTypeView::Time32(u),
        NativeType::Time64(u) => NativeTypeView::Time64(u),
        NativeType::Duration(u) => NativeTypeView::Duration(u),
        NativeType::Interval(u) => NativeTypeView::Interval(u),
        NativeType::Utf8 => NativeTypeView::Utf8,
        NativeType::Binary => NativeTypeView::Binary,
        NativeType::List(f) => NativeTypeView::List(Box::new(native_field_view(*f))),
        NativeType::LargeList(f) => NativeTypeView::LargeList(Box::new(native_field_view(*f))),
        NativeType::MapOf(f, sorted) => NativeTypeView::MapOf(
            Box::new(native_field_view(*f)),
            sorted,
        ),
        NativeType::Struct(fields) => NativeTypeView::Struct(native_fields_view(fields@)),
        NativeType::Union(members, mode) => NativeTypeView::Union(
            native_union_members_view(members@),
            mode,
        ),
        NativeType::Other => NativeTypeView::Other,
    }
}

impl DeepView for NativeType {
    type V = NativeTypeView;

    open spec fn deep_view(&self) -> NativeTypeView {
        native_type_view(*self)
    }
}

impl DeepView for NativeField {
    type V = NativeFieldView;

    open spec fn deep_view(&self) -> NativeFieldView {
        native_field_view(*self)
    }
}

/// An ordered native field list: the native form of a whole schema.
#[derive(Debug)]
pub struct NativeSchema {
    pub fields: Vec<NativeField>,
}

/// Mathematical image of [`NativeSchema`].
pub struct NativeSchemaView {
    pub fields: Seq<NativeFieldView>,
}

impl DeepView for NativeSchema {
    type V = NativeSchemaView;

    open spec fn deep_view(&self) -> NativeSchemaView {
        NativeSchemaView { fields: native_fields_view(self.fields@) }
    }
}

} // verus!
