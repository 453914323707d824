//! The laws the conversion obeys.
//!
//! Exporting an external type and importing the result always succeeds and
//! yields the type's canonical form: aliases normalize, everything else —
//! decimal parameters, union tags and modes, nesting of any depth — is kept
//! exactly.  On alias-free types the round trip is the identity.

use vstd::prelude::*;

use crate::convert::{
    fields_from_native_spec, fields_to_native_spec, from_native_spec, members_from_native_spec,
    members_to_native_spec, to_native_spec,
};
use crate::model::{DataTypeView, UnionTypeView};

verus! {

// ---------------------------------------------------------------------------
// Canonical forms
// ---------------------------------------------------------------------------

/// The canonical form of each member of a struct member list.
pub open spec fn canon_fields_spec(s: Seq<(Seq<char>, DataTypeView)>) -> Seq<
    (Seq<char>, DataTypeView),
>
    decreases s,
{
    if s.len() == 0 {
        Seq::empty()
    } else {
        canon_fields_spec(s.drop_last()).push((s.last().0, canon_spec(s.last().1)))
    }
}

/// The canonical form of each member of a union member list.
pub open spec fn canon_members_spec(s: Seq<(i8, DataTypeView)>) -> Seq<(i8, DataTypeView)>
    decreases s,
{
    if s.len() == 0 {
        Seq::empty()
    } else {
        canon_members_spec(s.drop_last()).push((s.last().0, canon_spec(s.last().1)))
    }
}

/// The canonical form of an external type: every alias replaced by its
/// canonical target, recursively.
pub open spec fn canon_spec(t: DataTypeView) -> DataTypeView
    decreases t,
{
    match t {
        DataTypeView::Integer => DataTypeView::Int64,
        DataTypeView::Float => DataTypeView::Float64,
        DataTypeView::Decimal(d) => DataTypeView::Decimal256(d),
        DataTypeView::Date => DataTypeView::Date64,
        DataTypeView::Time(tt) => DataTypeView::Time32(tt),
        DataTypeView::List(c) => DataTypeView::List(Box::new(canon_spec(*c))),
        DataTypeView::LargeList(c) => DataTypeView::LargeList(Box::new(canon_spec(*c))),
        DataTypeView::MapOf(k, v) => DataTypeView::MapOf(
            Box::new(canon_spec(*k)),
            Box::new(canon_spec(*v)),
        ),
        DataTypeView::Struct(fields) => DataTypeView::Struct(canon_fields_spec(fields)),
        DataTypeView::Union(u) => DataTypeView::Union(
            UnionTypeView { types: canon_members_spec(u.types), mode: u.mode },
        ),
        other => other,
    }
}

/// Whether a struct member list holds no alias anywhere.
pub open spec fn alias_free_fields(s: Seq<(Seq<char>, DataTypeView)>) -> bool
    decreases s,
{
    s.len() == 0 || (alias_free_fields(s.drop_last()) && alias_free(s.last().1))
}

/// Whether a union member list holds no alias anywhere.
pub open spec fn alias_free_members(s: Seq<(i8, DataTypeView)>) -> bool
    decreases s,
{
    s.len() == 0 || (alias_free_members(s.drop_last()) && alias_free(s.last().1))
}

/// Whether an external type holds no alias variant anywhere.
pub open spec fn alias_free(t: DataTypeView) -> bool
    decreases t,
{
    match t {
        DataTypeView::Integer => false,
        DataTypeView::Float => false,
        DataTypeView::Decimal(_) => false,
        DataTypeView::Date => false,
        DataTypeView::Time(_) => false,
        DataTypeView::List(c) => alias_free(*c),
        DataTypeView::LargeList(c) => alias_free(*c),
        DataTypeView::MapOf(k, v) => alias_free(*k) && alias_free(*v),
        DataTypeView::Struct(fields) => alias_free_fields(fields),
        DataTypeView::Union(u) => alias_free_members(u.types),
        _ => true,
    }
}

// ---------------------------------------------------------------------------
// Round trips
// ---------------------------------------------------------------------------

/// Exporting a struct member list and importing the result yields its
/// canonical form.
pub proof fn lemma_fields_round_trip(s: Seq<(Seq<char>, DataTypeView)>)
    ensures
        fields_from_native_spec(fields_to_native_spec(s)) == Option::Some(canon_fields_spec(s)),
    decreases s,
{
    if s.len() > 0 {
        lemma_fields_round_trip(s.drop_last());
        lemma_round_trip(s.last().1);
        assert(fields_to_native_spec(s).drop_last() =~= fields_to_native_spec(s.drop_last()));
    }
}

/// Exporting a union member list and importing the result yields its
/// canonical form.
pub proof fn lemma_members_round_trip(s: Seq<(i8, DataTypeView)>)
    ensures
        members_from_native_spec(members_to_native_spec(s)) == Option::Some(
            canon_members_spec(s),
        ),
    decreases s,
{
    if s.len() > 0 {
        lemma_members_round_trip(s.drop_last());
        lemma_round_trip(s.last().1);
        assert(members_to_native_spec(s).drop_last() =~= members_to_native_spec(s.drop_last()));
    }
}

/// Exporting any external type and importing the result succeeds and yields
/// exactly the type's canonical form: alias identity is the only loss, and
/// nested types of any depth, decimal parameters, union tags and modes,
/// names and the rest round-trip unchanged.
pub proof fn lemma_round_trip(t: DataTypeView)
    ensures
        from_native_spec(to_native_spec(t)) == Option::Some(canon_spec(t)),
    decreases t,
{
    match t {
        DataTypeView::List(c) => {
            lemma_round_trip(*c);
        },
        DataTypeView::LargeList(c) => {
            lemma_round_trip(*c);
        },
        DataTypeView::MapOf(k, v) => {
            lemma_round_trip(*k);
            lemma_round_trip(*v);
        },
        DataTypeView::Struct(fields) => {
            lemma_fields_round_trip(fields);
        },
        DataTypeView::Union(u) => {
            lemma_members_round_trip(u.types);
        },
        _ => {},
    }
}

/// On an alias-free struct member list, canonicalization is the identity.
pub proof fn lemma_alias_free_fields_canon(s: Seq<(Seq<char>, DataTypeView)>)
    requires
        alias_free_fields(s),
    ensures
        canon_fields_spec(s) == s,
    decreases s,
{
    if s.len() > 0 {
        lemma_alias_free_fields_canon(s.drop_last());
        lemma_alias_free_canon(s.last().1);
        assert(canon_fields_spec(s) =~= s);
    }
}

/// On an alias-free union member list, canonicalization is the identity.
pub proof fn lemma_alias_free_members_canon(s: Seq<(i8, DataTypeView)>)
    requires
        alias_free_members(s),
    ensures
        canon_members_spec(s) == s,
    decreases s,
{
    if s.len() > 0 {
        lemma_alias_free_members_canon(s.drop_last());
        lemma_alias_free_canon(s.last().1);
        assert(canon_members_spec(s) =~= s);
    }
}

/// On an alias-free type, canonicalization is the identity.
pub proof fn lemma_alias_free_canon(t: DataTypeView)
    requires
        alias_free(t),
    ensures
        canon_spec(t) == t,
    decreases t,
{
    match t {
        DataTypeView::List(c) => {
            lemma_alias_free_canon(*c);
        },
        DataTypeView::LargeList(c) => {
            lemma_alias_free_canon(*c);
        },
        DataTypeView::MapOf(k, v) => {
            lemma_alias_free_canon(*k);
            lemma_alias_free_canon(*v);
        },
        DataTypeView::Struct(fields) => {
            lemma_alias_free_fields_canon(fields);
        },
        DataTypeView::Union(u) => {
            lemma_alias_free_members_canon(u.types);
        },
        _ => {},
    }
}

/// On every alias-free type — every non-alias variant with alias-free
/// parameters — the export/import round trip is the identity, structurally.
pub proof fn lemma_round_trip_exact(t: DataTypeView)
    requires
        alias_free(t),
    ensures
        from_native_spec(to_native_spec(t)) == Option::Some(t),
{
    lemma_round_trip(t);
    lemma_alias_free_canon(t);
}

/// An alias exports exactly as its canonical target does, and importing
/// that export yields the canonical target, never the alias.
pub proof fn lemma_alias_exports_as_canon(t: DataTypeView)
    ensures
        to_native_spec(canon_spec(t)) == to_native_spec(t),
        from_native_spec(to_native_spec(t)) == Option::Some(canon_spec(t)),
    decreases t,
{
    lemma_round_trip(t);
    lemma_canon_export(t);
}

/// Canonicalization never changes the native image.
pub proof fn lemma_canon_export_fields(s: Seq<(Seq<char>, DataTypeView)>)
    ensures
        fields_to_native_spec(canon_fields_spec(s)) == fields_to_native_spec(s),
    decreases s,
{
    if s.len() > 0 {
        lemma_canon_export_fields(s.drop_last());
        lemma_canon_export(s.last().1);
        assert(canon_fields_spec(s).drop_last() =~= canon_fields_spec(s.drop_last()));
        assert(fields_to_native_spec(canon_fields_spec(s)) =~= fields_to_native_spec(s));
    }
}

/// Canonicalization never changes the native image.
pub proof fn lemma_canon_export_members(s: Seq<(i8, DataTypeView)>)
    ensures
        members_to_native_spec(canon_members_spec(s)) == members_to_native_spec(s),
    decreases s,
{
    if s.len() > 0 {
        lemma_canon_export_members(s.drop_last());
        lemma_canon_export(s.last().1);
        assert(canon_members_spec(s).drop_last() =~= canon_members_spec(s.drop_last()));
        assert(members_to_native_spec(canon_members_spec(s)) =~= members_to_native_spec(s));
    }
}

/// Canonicalization never changes the native image: a type and its
/// canonical form export identically.
pub proof fn lemma_canon_export(t: DataTypeView)
    ensures
        to_native_spec(canon_spec(t)) == to_native_spec(t),
    decreases t,
{
    match t {
        DataTypeView::List(c) => {
            lemma_canon_export(*c);
        },
        DataTypeView::LargeList(c) => {
            lemma_canon_export(*c);
        },
        DataTypeView::MapOf(k, v) => {
            lemma_canon_export(*k);
            lemma_canon_export(*v);
        },
        DataTypeView::Struct(fields) => {
            lemma_canon_export_fields(fields);
        },
        DataTypeView::Union(u) => {
            lemma_canon_export_members(u.types);
        },
        _ => {},
    }
}

/// Decimal parameters round-trip exactly, in both widths.
pub proof fn lemma_decimal_round_trip(d: crate::model::DecimalType)
    ensures
        from_native_spec(to_native_spec(DataTypeView::Decimal128(d))) == Option::Some(
            DataTypeView::Decimal128(d),
        ),
        from_native_spec(to_native_spec(DataTypeView::Decimal256(d))) == Option::Some(
            DataTypeView::Decimal256(d),
        ),
{
}

/// A union round-trips its tag-to-type associations and its mode exactly,
/// whatever the tags, whenever its members are alias-free.
pub proof fn lemma_union_round_trip(u: UnionTypeView)
    requires
        alias_free_members(u.types),
    ensures
        from_native_spec(to_native_spec(DataTypeView::Union(u))) == Option::Some(
            DataTypeView::Union(u),
        ),
{
    lemma_round_trip_exact(DataTypeView::Union(u));
}

} // verus!
