//! Named, typed, nullable fields, and whole schemas.
//!
//! A schema is an ordered field list; field names need not be unique here.
//! Converting a schema maps the field converter over the list, preserving
//! order.  A field exported without an explicit `nullable` defaults to
//! nullable; a field imported from the native form always carries an
//! explicit `nullable`.

use vstd::prelude::*;

use crate::convert::{from_native_spec, lemma_native_fields_view, to_native_spec};
use crate::error::SchemaError;
use crate::laws::canon_spec;
use crate::model::{data_type_view, DataType, DataTypeView};
use crate::native::{native_field_view, native_fields_view, NativeField, NativeFieldView,
    NativeSchema};

verus! {

/// A named, typed field of an external schema, with optional nullability.
#[derive(Debug)]
pub struct Field {
    pub name: String,
    pub data_type: DataType,
    pub nullable: Option<bool>,
}

/// Mathematical image of [`Field`].
pub struct FieldView {
    pub name: Seq<char>,
    pub data_type: DataTypeView,
    pub nullable: Option<bool>,
}

impl DeepView for Field {
    type V = FieldView;

    open spec fn deep_view(&self) -> FieldView {
        FieldView {
            name: self.name@,
            data_type: data_type_view(self.data_type),
            nullable: self.nullable,
        }
    }
}

/// The native image of a field: same name, converted type, and the explicit
/// nullability, defaulting to nullable when none was given.
pub open spec fn field_to_native_spec(f: FieldView) -> NativeFieldView {
    NativeFieldView {
        name: f.name,
        data_type: to_native_spec(f.data_type),
        nullable: match f.nullable {
            Option::Some(b) => b,
            Option::None => true,
        },
    }
}

/// The external image of a native field: same name, imported type, and an
/// always-explicit nullability taken from the native flag.
pub open spec fn field_from_native_spec(f: NativeFieldView) -> Option<FieldView> {
    match from_native_spec(f.data_type) {
        Option::Some(d) => Option::Some(
            FieldView { name: f.name, data_type: d, nullable: Option::Some(f.nullable) },
        ),
        Option::None => Option::None,
    }
}

/// The field an export/import round trip settles on: the same name, the
/// canonical type, and the nullability made explicit.
pub open spec fn field_normal_spec(f: FieldView) -> FieldView {
    FieldView {
        name: f.name,
        data_type: canon_spec(f.data_type),
        nullable: Option::Some(
            match f.nullable {
                Option::Some(b) => b,
                Option::None => true,
            },
        ),
    }
}

impl Field {
    /// Translates this field into the native type system; without an
    /// explicit `nullable` the native field is nullable.
    pub fn to_native(&self) -> (r: NativeField)
        ensures
            native_field_view(r) == field_to_native_spec(self.deep_view()),
    {
        NativeField {
            name: self.name.clone(),
            data_type: self.data_type.to_native(),
            nullable: match self.nullable {
                Option::Some(b) => b,
                Option::None => true,
            },
        }
    }

    /// Reads a field back from the native type system; the result always
    /// carries an explicit `nullable`, copied from the native flag.
    pub fn from_native(f: &NativeField) -> (r: Result<Field, SchemaError>)
        ensures
            (r matches Ok(fld) ==> field_from_native_spec(native_field_view(*f))
                == Option::Some(fld.deep_view())),
            (r matches Err(e) ==> field_from_native_spec(native_field_view(*f)) is None && e
                == SchemaError::UnsupportedNativeShape),
    {
        match DataType::from_native(&f.data_type) {
            Ok(d) => Ok(
                Field {
                    name: f.name.clone(),
                    data_type: d,
                    nullable: Option::Some(f.nullable),
                },
            ),
            Err(e) => Err(e),
        }
    }
}

/// An external schema: an ordered sequence of fields.
#[derive(Debug)]
pub struct DataSourceSchema {
    pub fields: Vec<Field>,
}

/// Mathematical image of [`DataSourceSchema`].
pub struct DataSourceSchemaView {
    pub fields: Seq<FieldView>,
}

/// Mathematical image of a field list, in order.
pub open spec fn schema_fields_view(s: Seq<Field>) -> Seq<FieldView>
    decreases s,
{
    if s.len() == 0 {
        Seq::empty()
    } else {
        schema_fields_view(s.drop_last()).push(s.last().deep_view())
    }
}

impl DeepView for DataSourceSchema {
    type V = DataSourceSchemaView;

    open spec fn deep_view(&self) -> DataSourceSchemaView {
        DataSourceSchemaView { fields: schema_fields_view(self.fields@) }
    }
}

/// The native image of a whole field list, in order.
pub open spec fn schema_to_native_spec(s: Seq<FieldView>) -> Seq<NativeFieldView>
    decreases s,
{
    if s.len() == 0 {
        Seq::empty()
    } else {
        schema_to_native_spec(s.drop_last()).push(field_to_native_spec(s.last()))
    }
}

/// The external image of a whole native field list: every field must
/// import, and any failure fails the schema.
pub open spec fn schema_from_native_spec(s: Seq<NativeFieldView>) -> Option<Seq<FieldView>>
    decreases s,
{
    if s.len() == 0 {
        Option::Some(Seq::empty())
    } else {
        match (schema_from_native_spec(s.drop_last()), field_from_native_spec(s.last())) {
            (Option::Some(rest), Option::Some(f)) => Option::Some(rest.push(f)),
            _ => Option::None,
        }
    }
}

/// `schema_fields_view` keeps length and maps each field pointwise.
pub broadcast proof fn lemma_schema_fields_view(s: Seq<Field>)
    ensures
        (#[trigger] schema_fields_view(s)).len() == s.len(),
        forall|i: int| 0 <= i < s.len() ==> schema_fields_view(s)[i] == s[i].deep_view(),
    decreases s,
{
    if s.len() > 0 {
        lemma_schema_fields_view(s.drop_last());
    }
}

/// `schema_to_native_spec` keeps length and maps each field pointwise.
pub broadcast proof fn lemma_schema_to_native_spec(s: Seq<FieldView>)
    ensures
        (#[trigger] schema_to_native_spec(s)).len() == s.len(),
        forall|i: int|
            0 <= i < s.len() ==> schema_to_native_spec(s)[i] == field_to_native_spec(s[i]),
    decreases s,
{
    if s.len() > 0 {
        lemma_schema_to_native_spec(s.drop_last());
    }
}

/// `schema_from_native_spec` succeeds exactly when every field imports, and
/// then keeps length and order.
pub broadcast proof fn lemma_schema_from_native_spec(s: Seq<NativeFieldView>)
    ensures
        ((#[trigger] schema_from_native_spec(s)) is Some <==> (forall|i: int|
            0 <= i < s.len() ==> field_from_native_spec(s[i]) is Some)),
        schema_from_native_spec(s) is Some ==> schema_from_native_spec(s).unwrap().len()
            == s.len(),
        schema_from_native_spec(s) is Some ==> (forall|i: int|
            0 <= i < s.len() ==> schema_from_native_spec(s).unwrap()[i]
                == field_from_native_spec(s[i]).unwrap()),
    decreases s,
{
    if s.len() > 0 {
        lemma_schema_from_native_spec(s.drop_last());
        assert(forall|i: int| 0 <= i < s.len() - 1 ==> s.drop_last()[i] == s[i]);
        assert(s.last() == s[s.len() - 1]);
    }
}

impl DataSourceSchema {
    /// Translates this schema into the native type system, field by field,
    /// preserving order.  Total: every external schema has a native image.
    #[verifier::loop_isolation(false)]
    pub fn to_native(&self) -> (r: NativeSchema)
        ensures
            native_fields_view(r.fields@) == schema_to_native_spec(
                schema_fields_view(self.fields@),
            ),
    {
        broadcast use lemma_schema_fields_view, lemma_schema_to_native_spec,
            lemma_native_fields_view;

        let mut schema_fields: Vec<NativeField> = Vec::new();
        let mut i: usize = 0;
        while i < self.fields.len()
            invariant
                i <= self.fields.len(),
                schema_fields@.len() == i,
                forall|j: int|
                    0 <= j < i ==> native_field_view(schema_fields@[j]) == field_to_native_spec(
                        self.fields@[j].deep_view(),
                    ),
            decreases self.fields.len() - i,
        {
            schema_fields.push(self.fields[i].to_native());
            i += 1;
        }
        let r = NativeSchema { fields: schema_fields };
        proof {
            assert(native_fields_view(r.fields@) =~= schema_to_native_spec(
                schema_fields_view(self.fields@),
            ));
        }
        r
    }

    /// Reads a schema back from the native type system, field by field,
    /// preserving order.  Fails only where a field's type fails to import;
    /// every imported field carries an explicit `nullable`.
    #[verifier::loop_isolation(false)]
    pub fn from_native(schema: &NativeSchema) -> (r: Result<DataSourceSchema, SchemaError>)
        ensures
            (r matches Ok(s) ==> schema_from_native_spec(native_fields_view(schema.fields@))
                == Option::Some(schema_fields_view(s.fields@))),
            (r matches Err(e) ==> schema_from_native_spec(
                native_fields_view(schema.fields@),
            ) is None && e == SchemaError::UnsupportedNativeShape),
    {
        broadcast use lemma_schema_fields_view, lemma_schema_from_native_spec,
            lemma_native_fields_view;

        let mut fields: Vec<Field> = Vec::new();
        let mut i: usize = 0;
        while i < schema.fields.len()
            invariant
                i <= schema.fields.len(),
                fields@.len() == i,
                forall|j: int|
                    0 <= j < i ==> field_from_native_spec(
                        native_field_view(schema.fields@[j]),
                    ) is Some,
                forall|j: int|
                    0 <= j < i ==> #[trigger] fields@[j].deep_view() == field_from_native_spec(
                        native_field_view(schema.fields@[j]),
                    ).unwrap(),
            decreases schema.fields.len() - i,
        {
            let f = match Field::from_native(&schema.fields[i]) {
                Ok(f) => f,
                Err(e) => {
                    proof {
                        assert(field_from_native_spec(
                            native_fields_view(schema.fields@)[i as int],
                        ) is None);
                    }
                    return Err(e);
                },
            };
            fields.push(f);
            i += 1;
        }
        let r = DataSourceSchema { fields };
        proof {
            assert(schema_from_native_spec(native_fields_view(schema.fields@)) is Some);
            assert(schema_fields_view(r.fields@) =~= schema_from_native_spec(
                native_fields_view(schema.fields@),
            ).unwrap());
        }
        Ok(r)
    }
}

/// Exporting a schema and importing the result always succeeds and yields
/// the same fields in the same order, each with its canonical type and an
/// explicit nullability.  An empty schema round-trips to an empty schema.
pub proof fn lemma_schema_round_trip(s: Seq<FieldView>)
    ensures
        schema_from_native_spec(schema_to_native_spec(s)) is Some,
        schema_from_native_spec(schema_to_native_spec(s)).unwrap().len() == s.len(),
        forall|i: int|
            0 <= i < s.len() ==> schema_from_native_spec(schema_to_native_spec(s)).unwrap()[i]
                == field_normal_spec(s[i]),
    decreases s,
{
    if s.len() == 0 {
    } else {
        lemma_schema_round_trip(s.drop_last());
        crate::laws::lemma_round_trip(s.last().data_type);
        assert(schema_to_native_spec(s).drop_last() =~= schema_to_native_spec(s.drop_last()));
        assert(forall|i: int| 0 <= i < s.len() - 1 ==> s.drop_last()[i] == s[i]);
    }
}

} // verus!
