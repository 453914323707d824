//! The translation between the external type model and the native model.
//!
//! Exporting ([`DataType::to_native`]) is total: aliases normalize to their
//! canonical variants, `Unknown` becomes the native binary type, and nested
//! types recurse structurally.  Importing ([`DataType::from_native`]) is
//! total except for a malformed native map entry, which is reported as a
//! [`SchemaError`]; native types outside the external vocabulary degrade to
//! `Unknown` rather than failing.

use vstd::prelude::*;

use crate::error::SchemaError;
use crate::model::{
    DataType, DataTypeView, DecimalType, DurationType, IntervalType, IntervalUnit, TimeType,
    TimeUnit, TimestampType, TimestampTypeView, UnionType, UnionTypeView,
};
use crate::model::{data_type_view, struct_fields_view, union_members_view};
use crate::native::{
    native_field_view, native_fields_view, native_type_view, native_union_members_view,
};
use crate::native::{
    NativeField, NativeFieldView, NativeIntervalUnit, NativeTimeUnit, NativeType, NativeTypeView,
    NativeUnionMode,
};
use crate::model::UnionMode;

verus! {

// ---------------------------------------------------------------------------
// Units
// ---------------------------------------------------------------------------

/// The native image of a temporal unit.
pub open spec fn time_unit_to_native_spec(u: TimeUnit) -> NativeTimeUnit {
    match u {
        TimeUnit::Second => NativeTimeUnit::Second,
        TimeUnit::Millisecond => NativeTimeUnit::Millisecond,
        TimeUnit::Microsecond => NativeTimeUnit::Microsecond,
        TimeUnit::Nanosecond => NativeTimeUnit::Nanosecond,
    }
}

/// The external image of a native temporal unit.
pub open spec fn time_unit_from_native_spec(u: NativeTimeUnit) -> TimeUnit {
    match u {
        NativeTimeUnit::Second => TimeUnit::Second,
        NativeTimeUnit::Millisecond => TimeUnit::Millisecond,
        NativeTimeUnit::Microsecond => TimeUnit::Microsecond,
        NativeTimeUnit::Nanosecond => TimeUnit::Nanosecond,
    }
}

/// The native image of an interval unit.
pub open spec fn interval_unit_to_native_spec(u: IntervalUnit) -> NativeIntervalUnit {
    match u {
        IntervalUnit::YearMonth => NativeIntervalUnit::YearMonth,
        IntervalUnit::DayTime => NativeIntervalUnit::DayTime,
        IntervalUnit::MonthDayNano => NativeIntervalUnit::MonthDayNano,
    }
}

/// The external image of a native interval unit.
pub open spec fn interval_unit_from_native_spec(u: NativeIntervalUnit) -> IntervalUnit {
    match u {
        NativeIntervalUnit::YearMonth => IntervalUnit::YearMonth,
        NativeIntervalUnit::DayTime => IntervalUnit::DayTime,
        NativeIntervalUnit::MonthDayNano => IntervalUnit::MonthDayNano,
    }
}

/// The native image of a union storage mode.
pub open spec fn union_mode_to_native_spec(m: UnionMode) -> NativeUnionMode {
    match m {
        UnionMode::Sparse => NativeUnionMode::Sparse,
        UnionMode::Dense => NativeUnionMode::Dense,
    }
}

/// The external image of a native union storage mode.
pub open spec fn union_mode_from_native_spec(m: NativeUnionMode) -> UnionMode {
    match m {
        NativeUnionMode::Sparse => UnionMode::Sparse,
        NativeUnionMode::Dense => UnionMode::Dense,
    }
}

impl TimeUnit {
    /// Translates this unit into the native vocabulary.
    pub fn to_native_time_unit(&self) -> (r: NativeTimeUnit)
        ensures
            r == time_unit_to_native_spec(*self),
    {
        match self {
            TimeUnit::Second => NativeTimeUnit::Second,
            TimeUnit::Millisecond => NativeTimeUnit::Millisecond,
            TimeUnit::Microsecond => NativeTimeUnit::Microsecond,
            TimeUnit::Nanosecond => NativeTimeUnit::Nanosecond,
        }
    }

    /// Reads a unit back from the native vocabulary.
    pub fn from_native_time_unit(u: &NativeTimeUnit) -> (r: Self)
        ensures
            r == time_unit_from_native_spec(*u),
    {
        match u {
            NativeTimeUnit::Second => TimeUnit::Second,
            NativeTimeUnit::Millisecond => TimeUnit::Millisecond,
            NativeTimeUnit::Microsecond => TimeUnit::Microsecond,
            NativeTimeUnit::Nanosecond => TimeUnit::Nanosecond,
        }
    }
}

impl IntervalUnit {
    /// Translates this unit into the native vocabulary.
    pub fn to_native_interval_unit(&self) -> (r: NativeIntervalUnit)
        ensures
            r == interval_unit_to_native_spec(*self),
    {
        match self {
            IntervalUnit::YearMonth => NativeIntervalUnit::YearMonth,
            IntervalUnit::DayTime => NativeIntervalUnit::DayTime,
            IntervalUnit::MonthDayNano => NativeIntervalUnit::MonthDayNano,
        }
    }

    /// Reads a unit back from the native vocabulary.
    pub fn from_native_interval_unit(u: &NativeIntervalUnit) -> (r: Self)
        ensures
            r == interval_unit_from_native_spec(*u),
    {
        match u {
            NativeIntervalUnit::YearMonth => IntervalUnit::YearMonth,
            NativeIntervalUnit::DayTime => IntervalUnit::DayTime,
            NativeIntervalUnit::MonthDayNano => IntervalUnit::MonthDayNano,
        }
    }
}

impl UnionMode {
    /// Translates this mode into the native vocabulary.
    pub fn to_native_union_mode(&self) -> (r: NativeUnionMode)
        ensures
            r == union_mode_to_native_spec(*self),
    {
        match self {
            UnionMode::Sparse => NativeUnionMode::Sparse,
            UnionMode::Dense => NativeUnionMode::Dense,
        }
    }

    /// Reads a mode back from the native vocabulary.
    pub fn from_native_union_mode(m: NativeUnionMode) -> (r: Self)
        ensures
            r == union_mode_from_native_spec(m),
    {
        match m {
            NativeUnionMode::Sparse => UnionMode::Sparse,
            NativeUnionMode::Dense => UnionMode::Dense,
        }
    }
}

// ---------------------------------------------------------------------------
// Export: external -> native, in specification
// ---------------------------------------------------------------------------

/// The native image of a struct member list: each `(name, type)` pair
/// becomes a native field of that name, always nullable.
pub open spec fn fields_to_native_spec(s: Seq<(Seq<char>, DataTypeView)>) -> Seq<NativeFieldView>
    decreases s,
{
    if s.len() == 0 {
        Seq::empty()
    } else {
        fields_to_native_spec(s.drop_last()).push(
            NativeFieldView {
                name: s.last().0,
                data_type: to_native_spec(s.last().1),
                nullable: true,
            },
        )
    }
}

/// The native image of a union member list: tags are kept in order, and
/// each member becomes an untagged-name native field (the tag carries
/// identity), always nullable.
pub open spec fn members_to_native_spec(s: Seq<(i8, DataTypeView)>) -> Seq<(i8, NativeFieldView)>
    decreases s,
{
    if s.len() == 0 {
        Seq::empty()
    } else {
        members_to_native_spec(s.drop_last()).push(
            (
                s.last().0,
                NativeFieldView {
                    name: Seq::empty(),
                    data_type: to_native_spec(s.last().1),
                    nullable: true,
                },
            ),
        )
    }
}

/// The native image of an external type.
///
/// Aliases normalize: `Integer` exports as 64-bit signed, `Float` as 64-bit
/// float, `Decimal` as the 256-bit decimal, `Date` as `Date64`, `Time` as
/// `Time32`.  `Unknown` exports as the native binary type.  A list wraps a
/// nullable element field named `item`; a map wraps a non-nullable entry
/// field named `entry` holding a struct of a non-nullable `key` and a
/// nullable `value`.
pub open spec fn to_native_spec(t: DataTypeView) -> NativeTypeView
    decreases t,
{
    match t {
        DataTypeView::Unknown => NativeTypeView::Binary,
        DataTypeView::Boolean => NativeTypeView::Boolean,
        DataTypeView::Int8 => NativeTypeView::Int8,
        DataTypeView::Int16 => NativeTypeView::Int16,
        DataTypeView::Int32 => NativeTypeView::Int32,
        DataTypeView::Int64 => NativeTypeView::Int64,
        DataTypeView::UInt8 => NativeTypeView::UInt8,
        DataTypeView::UInt16 => NativeTypeView::UInt16,
        DataTypeView::UInt32 => NativeTypeView::UInt32,
        DataTypeView::UInt64 => NativeTypeView::UInt64,
        DataTypeView::Integer => NativeTypeView::Int64,
        DataTypeView::Float16 => NativeTypeView::Float16,
        DataTypeView::Float32 => NativeTypeView::Float32,
        DataTypeView::Float64 => NativeTypeView::Float64,
        DataTypeView::Float => NativeTypeView::Float64,
        DataTypeView::Decimal128(d) => NativeTypeView::Decimal128(d.precision, d.scale),
        DataTypeView::Decimal256(d) => NativeTypeView::Decimal256(d.precision, d.scale),
        DataTypeView::Decimal(d) => NativeTypeView::Decimal256(d.precision, d.scale),
        DataTypeView::Timestamp(ts) => NativeTypeView::Timestamp(
            time_unit_to_native_spec(ts.unit),
            ts.timezone,
        ),
        DataTypeView::Date32 => NativeTypeView::Date32,
        DataTypeView::Date64 => NativeTypeView::Date64,
        DataTypeView::Date => NativeTypeView::Date64,
        DataTypeView::Time32(tt) => NativeTypeView::Time32(time_unit_to_native_spec(tt.unit)),
        DataTypeView::Time64(tt) => NativeTypeView::Time64(time_unit_to_native_spec(tt.unit)),
        DataTypeView::Time(tt) => NativeTypeView::Time32(time_unit_to_native_spec(tt.unit)),
        DataTypeView::Duration(d) => NativeTypeView::Duration(time_unit_to_native_spec(d.unit)),
        DataTypeView::Interval(i) => NativeTypeView::Interval(
            interval_unit_to_native_spec(i.unit),
        ),
        DataTypeView::String => NativeTypeView::Utf8,
        DataTypeView::List(c) => NativeTypeView::List(
            Box::new(
                NativeFieldView { name: "item"@, data_type: to_native_spec(*c), nullable: true },
            ),
        ),
        DataTypeView::LargeList(c) => NativeTypeView::LargeList(
            Box::new(
                NativeFieldView { name: "item"@, data_type: to_native_spec(*c), nullable: true },
            ),
        ),
        DataTypeView::MapOf(k, v) => NativeTypeView::MapOf(
            Box::new(
                NativeFieldView {
                    name: "entry"@,
                    data_type: NativeTypeView::Struct(
                        seq![
                            NativeFieldView {
                                name: "key"@,
                                data_type: to_native_spec(*k),
                                nullable: false,
                            },
                            NativeFieldView {
                                name: "value"@,
                                data_type: to_native_spec(*v),
                                nullable: true,
                            },
                        ],
                    ),
                    nullable: false,
                },
            ),
            false,
        ),
        DataTypeView::Struct(fields) => NativeTypeView::Struct(fields_to_native_spec(fields)),
        DataTypeView::Union(u) => NativeTypeView::Union(
            members_to_native_spec(u.types),
            union_mode_to_native_spec(u.mode),
        ),
    }
}

// ---------------------------------------------------------------------------
// Pointwise characterizations of the list-shaped specifications
// ---------------------------------------------------------------------------

/// `struct_fields_view` keeps length and maps each pair pointwise.
pub broadcast proof fn lemma_struct_fields_view(s: Seq<(String, DataType)>)
    ensures
        (#[trigger] struct_fields_view(s)).len() == s.len(),
        forall|i: int|
            0 <= i < s.len() ==> struct_fields_view(s)[i] == (s[i].0@, data_type_view(s[i].1)),
    decreases s,
{
    if s.len() > 0 {
        lemma_struct_fields_view(s.drop_last());
    }
}

/// `union_members_view` keeps length and maps each pair pointwise.
pub broadcast proof fn lemma_union_members_view(s: Seq<(i8, DataType)>)
    ensures
        (#[trigger] union_members_view(s)).len() == s.len(),
        forall|i: int|
            0 <= i < s.len() ==> union_members_view(s)[i] == (s[i].0, data_type_view(s[i].1)),
    decreases s,
{
    if s.len() > 0 {
        lemma_union_members_view(s.drop_last());
    }
}

/// `native_fields_view` keeps length and maps each field pointwise.
pub broadcast proof fn lemma_native_fields_view(s: Seq<NativeField>)
    ensures
        (#[trigger] native_fields_view(s)).len() == s.len(),
        forall|i: int|
            0 <= i < s.len() ==> native_fields_view(s)[i] == native_field_view(s[i]),
    decreases s,
{
    if s.len() > 0 {
        lemma_native_fields_view(s.drop_last());
    }
}

/// `native_union_members_view` keeps length and maps each pair pointwise.
pub broadcast proof fn lemma_native_union_members_view(s: Seq<(i8, NativeField)>)
    ensures
        (#[trigger] native_union_members_view(s)).len() == s.len(),
        forall|i: int|
            0 <= i < s.len() ==> native_union_members_view(s)[i] == (
                s[i].0,
                native_field_view(s[i].1),
            ),
    decreases s,
{
    if s.len() > 0 {
        lemma_native_union_members_view(s.drop_last());
    }
}

/// `fields_to_native_spec` keeps length and maps each pair pointwise.
pub broadcast proof fn lemma_fields_to_native_spec(s: Seq<(Seq<char>, DataTypeView)>)
    ensures
        (#[trigger] fields_to_native_spec(s)).len() == s.len(),
        forall|i: int|
            0 <= i < s.len() ==> fields_to_native_spec(s)[i] == (NativeFieldView {
                name: s[i].0,
                data_type: to_native_spec(s[i].1),
                nullable: true,
            }),
    decreases s,
{
    if s.len() > 0 {
        lemma_fields_to_native_spec(s.drop_last());
    }
}

/// `members_to_native_spec` keeps length and maps each pair pointwise.
pub broadcast proof fn lemma_members_to_native_spec(s: Seq<(i8, DataTypeView)>)
    ensures
        (#[trigger] members_to_native_spec(s)).len() == s.len(),
        forall|i: int|
            0 <= i < s.len() ==> members_to_native_spec(s)[i] == (
                s[i].0,
                NativeFieldView {
                    name: Seq::empty(),
                    data_type: to_native_spec(s[i].1),
                    nullable: true,
                },
            ),
    decreases s,
{
    if s.len() > 0 {
        lemma_members_to_native_spec(s.drop_last());
    }
}

// ---------------------------------------------------------------------------
// Export: external -> native, executable
// ---------------------------------------------------------------------------

impl Clone for TimestampType {
    /// An exact copy: the clone has the same unit and time zone.
    fn clone(&self) -> (r: Self)
        ensures
            r.deep_view() == self.deep_view(),
    {
        TimestampType {
            unit: self.unit,
            timezone: match &self.timezone {
                Option::Some(tz) => Option::Some(tz.clone()),
                Option::None => Option::None,
            },
        }
    }
}

impl TimestampType {
    /// Builds the native timestamp type carrying this unit and time zone.
    pub fn into_native_timestamp(self) -> (r: NativeType)
        ensures
            native_type_view(r) == NativeTypeView::Timestamp(
                time_unit_to_native_spec(self.unit),
                self.timezone.deep_view(),
            ),
    {
        NativeType::Timestamp(self.unit.to_native_time_unit(), self.timezone)
    }
}

impl DurationType {
    /// Builds the native duration type carrying this unit.
    pub fn into_native_duration(self) -> (r: NativeType)
        ensures
            native_type_view(r) == NativeTypeView::Duration(time_unit_to_native_spec(self.unit)),
    {
        NativeType::Duration(self.unit.to_native_time_unit())
    }
}

impl IntervalType {
    /// Builds the native interval type carrying this unit.
    pub fn into_native_interval(self) -> (r: NativeType)
        ensures
            native_type_view(r) == NativeTypeView::Interval(
                interval_unit_to_native_spec(self.unit),
            ),
    {
        NativeType::Interval(self.unit.to_native_interval_unit())
    }
}

impl DataType {
    /// Translates this external type into the native type system.
    ///
    /// Total: every external type has a native image, aliases included.
    #[verifier::rlimit(50)]
    #[verifier::loop_isolation(false)]
    pub fn to_native(&self) -> (r: NativeType)
        ensures
            native_type_view(r) == to_native_spec(data_type_view(*self)),
        decreases *self,
    {
        broadcast use lemma_struct_fields_view, lemma_union_members_view,
            lemma_native_fields_view, lemma_native_union_members_view,
            lemma_fields_to_native_spec, lemma_members_to_native_spec;

        match self {
            DataType::Unknown => NativeType::Binary,
            DataType::Boolean => NativeType::Boolean,
            DataType::Int8 => NativeType::Int8,
            DataType::Int16 => NativeType::Int16,
            DataType::Int32 => NativeType::Int32,
            DataType::Int64 | DataType::Integer => NativeType::Int64,
            DataType::UInt8 => NativeType::UInt8,
            DataType::UInt16 => NativeType::UInt16,
            DataType::UInt32 => NativeType::UInt32,
            DataType::UInt64 => NativeType::UInt64,
            DataType::Float16 => NativeType::Float16,
            DataType::Float32 => NativeType::Float32,
            DataType::Float64 | DataType::Float => NativeType::Float64,
            DataType::Decimal128(d) => NativeType::Decimal128(d.precision, d.scale),
            DataType::Decimal(d) | DataType::Decimal256(d) => NativeType::Decimal256(
                d.precision,
                d.scale,
            ),
            DataType::Timestamp(ts) => ts.clone().into_native_timestamp(),
            DataType::Date32 => NativeType::Date32,
            DataType::Date64 | DataType::Date => NativeType::Date64,
            DataType::Time32(tt) | DataType::Time(tt) => NativeType::Time32(
                tt.unit.to_native_time_unit(),
            ),
            DataType::Time64(tt) => NativeType::Time64(tt.unit.to_native_time_unit()),
            DataType::Duration(d) => d.into_native_duration(),
            DataType::Interval(i) => i.into_native_interval(),
            DataType::String => NativeType::Utf8,
            DataType::List(c) => NativeType::List(
                Box::new(
                    NativeField {
                        name: "item".to_string(),
                        data_type: (**c).to_native(),
                        nullable: true,
                    },
                ),
            ),
            DataType::LargeList(c) => NativeType::LargeList(
                Box::new(
                    NativeField {
                        name: "item".to_string(),
                        data_type: (**c).to_native(),
                        nullable: true,
                    },
                ),
            ),
            DataType::MapOf(k, v) => {
                let key_field = NativeField {
                    name: "key".to_string(),
                    data_type: (**k).to_native(),
                    nullable: false,
                };
                let value_field = NativeField {
                    name: "value".to_string(),
                    data_type: (**v).to_native(),
                    nullable: true,
                };
                let mut entries: Vec<NativeField> = Vec::new();
                entries.push(key_field);
                entries.push(value_field);
                proof {
                    assert(entries@ =~= seq![key_field, value_field]);
                }
                let entry_field = NativeField {
                    name: "entry".to_string(),
                    data_type: NativeType::Struct(entries),
                    nullable: false,
                };
                let ghost entry_view = native_field_view(entry_field);
                let r = NativeType::MapOf(Box::new(entry_field), false);
                proof {
                    assert(native_fields_view(entries@) =~= seq![
                        native_field_view(key_field),
                        native_field_view(value_field),
                    ]);
                    assert(data_type_view(*self) == DataTypeView::MapOf(
                        Box::new(data_type_view(**k)),
                        Box::new(data_type_view(**v)),
                    ));
                    assert(entry_view.data_type == NativeTypeView::Struct(
                        native_fields_view(entries@),
                    ));
                    assert(entry_view == (NativeFieldView {
                        name: "entry"@,
                        data_type: NativeTypeView::Struct(
                            seq![
                                NativeFieldView {
                                    name: "key"@,
                                    data_type: to_native_spec(data_type_view(**k)),
                                    nullable: false,
                                },
                                NativeFieldView {
                                    name: "value"@,
                                    data_type: to_native_spec(data_type_view(**v)),
                                    nullable: true,
                                },
                            ],
                        ),
                        nullable: false,
                    }));
                    assert(native_type_view(r) == NativeTypeView::MapOf(
                        Box::new(entry_view),
                        false,
                    ));
                    assert(native_type_view(r) == to_native_spec(data_type_view(*self)));
                }
                r
            },
            DataType::Struct(fields) => {
                let mut out: Vec<NativeField> = Vec::new();
                let mut i: usize = 0;
                while i < fields.len()
                    invariant
                        i <= fields.len(),
                        out@.len() == i,
                        forall|j: int|
                            0 <= j < i ==> native_field_view(out@[j]) == (NativeFieldView {
                                name: fields@[j].0@,
                                data_type: to_native_spec(data_type_view(fields@[j].1)),
                                nullable: true,
                            }),
                    decreases fields.len() - i,
                {
                    proof {
                        assert(decreases_to!(*self => self->Struct_0));
                        assert(self->Struct_0 == *fields);
                        assert(decreases_to!(*fields => fields@[i as int]));
                        assert(decreases_to!(*self => fields@[i as int].1));
                    }
                    let member = NativeField {
                        name: fields[i].0.clone(),
                        data_type: fields[i].1.to_native(),
                        nullable: true,
                    };
                    out.push(member);
                    i += 1;
                }
                let r = NativeType::Struct(out);
                proof {
                    broadcast use lemma_struct_fields_view, lemma_native_fields_view,
                        lemma_fields_to_native_spec;

                    assert(native_fields_view(out@) =~= fields_to_native_spec(
                        struct_fields_view(fields@),
                    ));
                }
                r
            },
            DataType::Union(u) => {
                let mut out: Vec<(i8, NativeField)> = Vec::new();
                let mut i: usize = 0;
                while i < u.types.len()
                    invariant
                        i <= u.types.len(),
                        out@.len() == i,
                        forall|j: int|
                            0 <= j < i ==> out@[j].0 == u.types@[j].0
                                && native_field_view(out@[j].1) == (NativeFieldView {
                                name: Seq::<char>::empty(),
                                data_type: to_native_spec(data_type_view(u.types@[j].1)),
                                nullable: true,
                            }),
                    decreases u.types.len() - i,
                {
                    proof {
                        assert(decreases_to!(*self => self->Union_0));
                        assert(decreases_to!(self->Union_0 => self->Union_0.types));
                        assert(self->Union_0.types == u.types);
                        assert(decreases_to!(u.types => u.types@[i as int]));
                        assert(decreases_to!(*self => u.types@[i as int].1));
                    }
                    let member = NativeField {
                        name: "".to_string(),
                        data_type: u.types[i].1.to_native(),
                        nullable: true,
                    };
                    proof {
                        reveal_strlit("");
                        assert(member.name@ =~= Seq::<char>::empty());
                    }
                    out.push((u.types[i].0, member));
                    i += 1;
                }
                let r = NativeType::Union(out, u.mode.to_native_union_mode());
                proof {
                    broadcast use lemma_union_members_view, lemma_native_union_members_view,
                        lemma_members_to_native_spec;

                    assert(native_union_members_view(out@) =~= members_to_native_spec(
                        union_members_view(u.types@),
                    ));
                }
                r
            },
        }
    }
}

// ---------------------------------------------------------------------------
// Import: native -> external, in specification
// ---------------------------------------------------------------------------

/// The external image of a native struct member list: names are kept, each
/// member type imports recursively, and any member failure fails the list.
pub open spec fn fields_from_native_spec(s: Seq<NativeFieldView>) -> Option<
    Seq<(Seq<char>, DataTypeView)>,
>
    decreases s,
{
    if s.len() == 0 {
        Option::Some(Seq::empty())
    } else {
        match (fields_from_native_spec(s.drop_last()), from_native_spec(s.last().data_type)) {
            (Option::Some(rest), Option::Some(d)) => Option::Some(rest.push((s.last().name, d))),
            _ => Option::None,
        }
    }
}

/// The external image of a native union member list: tags are kept, each
/// member type imports recursively, and any member failure fails the list.
pub open spec fn members_from_native_spec(s: Seq<(i8, NativeFieldView)>) -> Option<
    Seq<(i8, DataTypeView)>,
>
    decreases s,
{
    if s.len() == 0 {
        Option::Some(Seq::empty())
    } else {
        match (members_from_native_spec(s.drop_last()), from_native_spec(s.last().1.data_type)) {
            (Option::Some(rest), Option::Some(d)) => Option::Some(rest.push((s.last().0, d))),
            _ => Option::None,
        }
    }
}

/// The external image of a native type.
///
/// Total except for a native map whose entry type is not a struct of at
/// least two members: that shape yields `None` (reported as an error by the
/// executable importer).  A native type with no external counterpart
/// imports as `Unknown`, so introspection never fails on exotic types.
/// Aliases are never reconstructed: importing always yields canonical
/// variants.
pub open spec fn from_native_spec(t: NativeTypeView) -> Option<DataTypeView>
    decreases t,
{
    match t {
        NativeTypeView::Boolean => Option::Some(DataTypeView::Boolean),
        NativeTypeView::Int8 => Option::Some(DataTypeView::Int8),
        NativeTypeView::Int16 => Option::Some(DataTypeView::Int16),
        NativeTypeView::Int32 => Option::Some(DataTypeView::Int32),
        NativeTypeView::Int64 => Option::Some(DataTypeView::Int64),
        NativeTypeView::UInt8 => Option::Some(DataTypeView::UInt8),
        NativeTypeView::UInt16 => Option::Some(DataTypeView::UInt16),
        NativeTypeView::UInt32 => Option::Some(DataTypeView::UInt32),
        NativeTypeView::UInt64 => Option::Some(DataTypeView::UInt64),
        NativeTypeView::Float16 => Option::Some(DataTypeView::Float16),
        NativeTypeView::Float32 => Option::Some(DataTypeView::Float32),
        NativeTypeView::Float64 => Option::Some(DataTypeView::Float64),
        NativeTypeView::Decimal128(p, s) => Option::Some(
            DataTypeView::Decimal128(DecimalType { precision: p, scale: s }),
        ),
        NativeTypeView::Decimal256(p, s) => Option::Some(
            DataTypeView::Decimal256(DecimalType { precision: p, scale: s }),
        ),
        NativeTypeView::Timestamp(u, tz) => Option::Some(
            DataTypeView::Timestamp(
                TimestampTypeView { unit: time_unit_from_native_spec(u), timezone: tz },
            ),
        ),
        NativeTypeView::Date32 => Option::Some(DataTypeView::Date32),
        NativeTypeView::Date64 => Option::Some(DataTypeView::Date64),
        NativeTypeView::Time32(u) => Option::Some(
            DataTypeView::Time32(TimeType { unit: time_unit_from_native_spec(u) }),
        ),
        NativeTypeView::Time64(u) => Option::Some(
            DataTypeView::Time64(TimeType { unit: time_unit_from_native_spec(u) }),
        ),
        NativeTypeView::Duration(u) => Option::Some(
            DataTypeView::Duration(DurationType { unit: time_unit_from_native_spec(u) }),
        ),
        NativeTypeView::Interval(u) => Option::Some(
            DataTypeView::Interval(IntervalType { unit: interval_unit_from_native_spec(u) }),
        ),
        NativeTypeView::Utf8 => Option::Some(DataTypeView::String),
        NativeTypeView::Binary => Option::Some(DataTypeView::Unknown),
        NativeTypeView::Other => Option::Some(DataTypeView::Unknown),
        NativeTypeView::List(f) => match from_native_spec(f.data_type) {
            Option::Some(d) => Option::Some(DataTypeView::List(Box::new(d))),
            Option::None => Option::None,
        },
        NativeTypeView::LargeList(f) => match from_native_spec(f.data_type) {
            Option::Some(d) => Option::Some(DataTypeView::LargeList(Box::new(d))),
            Option::None => Option::None,
        },
        NativeTypeView::MapOf(entry, _sorted) => match entry.data_type {
            NativeTypeView::Struct(fs) => if fs.len() < 2 {
                Option::None
            } else {
                match (from_native_spec(fs[0].data_type), from_native_spec(fs[1].data_type)) {
                    (Option::Some(kd), Option::Some(vd)) => Option::Some(
                        DataTypeView::MapOf(Box::new(kd), Box::new(vd)),
                    ),
                    _ => Option::None,
                }
            },
            _ => Option::None,
        },
        NativeTypeView::Struct(fs) => match fields_from_native_spec(fs) {
            Option::Some(members) => Option::Some(DataTypeView::Struct(members)),
            Option::None => Option::None,
        },
        NativeTypeView::Union(members, mode) => match members_from_native_spec(members) {
            Option::Some(types) => Option::Some(
                DataTypeView::Union(
                    UnionTypeView { types, mode: union_mode_from_native_spec(mode) },
                ),
            ),
            Option::None => Option::None,
        },
    }
}

/// `fields_from_native_spec` succeeds exactly when every member imports,
/// and then keeps length, names and order.
pub broadcast proof fn lemma_fields_from_native_spec(s: Seq<NativeFieldView>)
    ensures
        ((#[trigger] fields_from_native_spec(s)) is Some <==> (forall|i: int|
            0 <= i < s.len() ==> from_native_spec(s[i].data_type) is Some)),
        fields_from_native_spec(s) is Some ==> fields_from_native_spec(s).unwrap().len()
            == s.len(),
        fields_from_native_spec(s) is Some ==> (forall|i: int|
            0 <= i < s.len() ==> fields_from_native_spec(s).unwrap()[i] == (
                s[i].name,
                from_native_spec(s[i].data_type).unwrap(),
            )),
    decreases s,
{
    if s.len() > 0 {
        lemma_fields_from_native_spec(s.drop_last());
        assert(forall|i: int| 0 <= i < s.len() - 1 ==> s.drop_last()[i] == s[i]);
        assert(s.last() == s[s.len() - 1]);
    }
}

/// `members_from_native_spec` succeeds exactly when every member imports,
/// and then keeps length, tags and order.
pub broadcast proof fn lemma_members_from_native_spec(s: Seq<(i8, NativeFieldView)>)
    ensures
        ((#[trigger] members_from_native_spec(s)) is Some <==> (forall|i: int|
            0 <= i < s.len() ==> from_native_spec(s[i].1.data_type) is Some)),
        members_from_native_spec(s) is Some ==> members_from_native_spec(s).unwrap().len()
            == s.len(),
        members_from_native_spec(s) is Some ==> (forall|i: int|
            0 <= i < s.len() ==> members_from_native_spec(s).unwrap()[i] == (
                s[i].0,
                from_native_spec(s[i].1.data_type).unwrap(),
            )),
    decreases s,
{
    if s.len() > 0 {
        lemma_members_from_native_spec(s.drop_last());
        assert(forall|i: int| 0 <= i < s.len() - 1 ==> s.drop_last()[i] == s[i]);
        assert(s.last() == s[s.len() - 1]);
    }
}

// ---------------------------------------------------------------------------
// Import: native -> external, executable
// ---------------------------------------------------------------------------

impl DataType {
    /// Reads an external type back from the native type system.
    ///
    /// Succeeds on every native type except a map whose entry type is not a
    /// struct of at least two members, which is reported as an error; a
    /// native type outside the external vocabulary comes back as `Unknown`.
    #[verifier::rlimit(50)]
    #[verifier::loop_isolation(false)]
    pub fn from_native(n: &NativeType) -> (r: Result<DataType, SchemaError>)
        ensures
            (r matches Ok(d) ==> from_native_spec(native_type_view(*n)) == Option::Some(
                data_type_view(d),
            )),
            (r matches Err(e) ==> from_native_spec(native_type_view(*n)) is None && e
                == SchemaError::UnsupportedNativeShape),
        decreases *n,
    {
        broadcast use lemma_native_fields_view, lemma_native_union_members_view,
            lemma_struct_fields_view, lemma_union_members_view, lemma_fields_from_native_spec,
            lemma_members_from_native_spec;

        match n {
            NativeType::Boolean => Ok(DataType::Boolean),
            NativeType::Int8 => Ok(DataType::Int8),
            NativeType::Int16 => Ok(DataType::Int16),
            NativeType::Int32 => Ok(DataType::Int32),
            NativeType::Int64 => Ok(DataType::Int64),
            NativeType::UInt8 => Ok(DataType::UInt8),
            NativeType::UInt16 => Ok(DataType::UInt16),
            NativeType::UInt32 => Ok(DataType::UInt32),
            NativeType::UInt64 => Ok(DataType::UInt64),
            NativeType::Float16 => Ok(DataType::Float16),
            NativeType::Float32 => Ok(DataType::Float32),
            NativeType::Float64 => Ok(DataType::Float64),
            NativeType::Decimal128(p, s) => Ok(
                DataType::Decimal128(DecimalType { precision: *p, scale: *s }),
            ),
            NativeType::Decimal256(p, s) => Ok(
                DataType::Decimal256(DecimalType { precision: *p, scale: *s }),
            ),
            NativeType::Timestamp(u, tz) => Ok(
                DataType::Timestamp(
                    TimestampType {
                        unit: TimeUnit::from_native_time_unit(u),
                        timezone: match tz {
                            Option::Some(z) => Option::Some(z.clone()),
                            Option::None => Option::None,
                        },
                    },
                ),
            ),
            NativeType::Date32 => Ok(DataType::Date32),
            NativeType::Date64 => Ok(DataType::Date64),
            NativeType::Time32(u) => Ok(
                DataType::Time32(TimeType { unit: TimeUnit::from_native_time_unit(u) }),
            ),
            NativeType::Time64(u) => Ok(
                DataType::Time64(TimeType { unit: TimeUnit::from_native_time_unit(u) }),
            ),
            NativeType::Duration(u) => Ok(
                DataType::Duration(DurationType { unit: TimeUnit::from_native_time_unit(u) }),
            ),
            NativeType::Interval(u) => Ok(
                DataType::Interval(
                    IntervalType { unit: IntervalUnit::from_native_interval_unit(u) },
                ),
            ),
            NativeType::Utf8 => Ok(DataType::String),
            NativeType::Binary => Ok(DataType::Unknown),
            NativeType::Other => Ok(DataType::Unknown),
            NativeType::List(f) => match Self::from_native(&f.data_type) {
                Ok(d) => Ok(DataType::List(Box::new(d))),
                Err(e) => Err(e),
            },
            NativeType::LargeList(f) => match Self::from_native(&f.data_type) {
                Ok(d) => Ok(DataType::LargeList(Box::new(d))),
                Err(e) => Err(e),
            },
            NativeType::MapOf(entry, sorted) => match &entry.data_type {
                NativeType::Struct(fs) => {
                    if fs.len() < 2 {
                        Err(SchemaError::UnsupportedNativeShape)
                    } else {
                        let kd = match Self::from_native(&fs[0].data_type) {
                            Ok(d) => d,
                            Err(e) => {
                                proof {
                                    assert(native_type_view(*n) == NativeTypeView::MapOf(
                                        Box::new(native_field_view(**entry)),
                                        *sorted,
                                    ));
                                    assert(native_field_view(**entry).data_type
                                        == NativeTypeView::Struct(native_fields_view(fs@)));
                                    assert(native_fields_view(fs@)[0]
                                        == native_field_view(fs@[0]));
                                    assert(from_native_spec(
                                        native_field_view(fs@[0]).data_type,
                                    ) is None);
                                }
                                return Err(e);
                            },
                        };
                        let vd = match Self::from_native(&fs[1].data_type) {
                            Ok(d) => d,
                            Err(e) => {
                                proof {
                                    assert(native_fields_view(fs@)[1]
                                        == native_field_view(fs@[1]));
                                    assert(from_native_spec(
                                        native_field_view(fs@[1]).data_type,
                                    ) is None);
                                }
                                return Err(e);
                            },
                        };
                        Ok(DataType::MapOf(Box::new(kd), Box::new(vd)))
                    }
                },
                _ => Err(SchemaError::UnsupportedNativeShape),
            },
            NativeType::Struct(fs) => {
                let mut out: Vec<(String, DataType)> = Vec::new();
                let mut i: usize = 0;
                while i < fs.len()
                    invariant
                        i <= fs.len(),
                        out@.len() == i,
                        forall|j: int|
                            0 <= j < i ==> from_native_spec(
                                native_field_view(fs@[j]).data_type,
                            ) is Some,
                        forall|j: int|
                            0 <= j < i ==> #[trigger] out@[j].0@ == fs@[j].name@
                                && data_type_view(out@[j].1) == from_native_spec(
                                native_field_view(fs@[j]).data_type,
                            ).unwrap(),
                    decreases fs.len() - i,
                {
                    proof {
                        assert(decreases_to!(*fs => fs@[i as int]));
                    }
                    let d = match Self::from_native(&fs[i].data_type) {
                        Ok(d) => d,
                        Err(e) => {
                            proof {
                                assert(from_native_spec(
                                    native_fields_view(fs@)[i as int].data_type,
                                ) is None);
                            }
                            return Err(e);
                        },
                    };
                    out.push((fs[i].name.clone(), d));
                    i += 1;
                }
                let r = DataType::Struct(out);
                proof {
                    assert(fields_from_native_spec(native_fields_view(fs@)) is Some);
                    assert(struct_fields_view(out@) =~= fields_from_native_spec(
                        native_fields_view(fs@),
                    ).unwrap());
                }
                Ok(r)
            },
            NativeType::Union(members, mode) => {
                let mut out: Vec<(i8, DataType)> = Vec::new();
                let mut i: usize = 0;
                while i < members.len()
                    invariant
                        i <= members.len(),
                        out@.len() == i,
                        forall|j: int|
                            0 <= j < i ==> from_native_spec(
                                native_field_view(members@[j].1).data_type,
                            ) is Some,
                        forall|j: int|
                            0 <= j < i ==> #[trigger] out@[j].0 == members@[j].0
                                && data_type_view(out@[j].1) == from_native_spec(
                                native_field_view(members@[j].1).data_type,
                            ).unwrap(),
                    decreases members.len() - i,
                {
                    proof {
                        assert(decreases_to!(*members => members@[i as int]));
                    }
                    let d = match Self::from_native(&members[i].1.data_type) {
                        Ok(d) => d,
                        Err(e) => {
                            proof {
                                assert(from_native_spec(
                                    native_union_members_view(members@)[i as int].1.data_type,
                                ) is None);
                            }
                            return Err(e);
                        },
                    };
                    out.push((members[i].0, d));
                    i += 1;
                }
                let r = DataType::Union(
                    UnionType { types: out, mode: UnionMode::from_native_union_mode(*mode) },
                );
                proof {
                    assert(members_from_native_spec(native_union_members_view(members@)) is Some);
                    assert(union_members_view(out@) =~= members_from_native_spec(
                        native_union_members_view(members@),
                    ).unwrap());
                }
                Ok(r)
            },
        }
    }
}


} // verus!
