//! Field and schema behaviour: nullability defaulting, explicit
//! nullability on import, order preservation, and the empty schema.

use schema_bridge::error::SchemaError;
use schema_bridge::model::DataType;
use schema_bridge::native::{NativeField, NativeSchema, NativeType};
use schema_bridge::schema::{DataSourceSchema, Field};

#[test]
fn field_without_nullable_exports_nullable() {
    let f = Field { name: "n".to_string(), data_type: DataType::Int32, nullable: None };
    let nf = f.to_native();
    assert_eq!(nf.name, "n");
    assert!(nf.nullable);
}

#[test]
fn field_with_explicit_nullable_keeps_it() {
    let f = Field { name: "n".to_string(), data_type: DataType::Int32, nullable: Some(false) };
    assert!(!f.to_native().nullable);
    let g = Field { name: "n".to_string(), data_type: DataType::Int32, nullable: Some(true) };
    assert!(g.to_native().nullable);
}

#[test]
fn imported_field_always_carries_explicit_nullable() {
    for flag in [true, false] {
        let nf = NativeField {
            name: "c".to_string(),
            data_type: NativeType::Utf8,
            nullable: flag,
        };
        let f = Field::from_native(&nf).unwrap();
        assert_eq!(f.name, "c");
        assert_eq!(f.nullable, Some(flag));
    }
}

#[test]
fn empty_schema_round_trips_empty() {
    let s = DataSourceSchema { fields: vec![] };
    let native = s.to_native();
    assert_eq!(native.fields.len(), 0);
    let back = DataSourceSchema::from_native(&native).unwrap();
    assert_eq!(back.fields.len(), 0);
}

#[test]
fn schema_keeps_field_order_and_names() {
    let s = DataSourceSchema {
        fields: vec![
            Field { name: "id".to_string(), data_type: DataType::Int64, nullable: Some(false) },
            Field { name: "name".to_string(), data_type: DataType::String, nullable: None },
            Field { name: "born".to_string(), data_type: DataType::Date32, nullable: Some(true) },
        ],
    };
    let native = s.to_native();
    assert_eq!(native.fields.len(), 3);
    assert_eq!(native.fields[0].name, "id");
    assert_eq!(native.fields[1].name, "name");
    assert_eq!(native.fields[2].name, "born");
    assert!(!native.fields[0].nullable);
    assert!(native.fields[1].nullable);

    let back = DataSourceSchema::from_native(&native).unwrap();
    assert_eq!(back.fields.len(), 3);
    assert_eq!(back.fields[0].name, "id");
    assert_eq!(back.fields[0].nullable, Some(false));
    assert_eq!(back.fields[1].name, "name");
    // the default was made explicit by the round trip
    assert_eq!(back.fields[1].nullable, Some(true));
    assert_eq!(back.fields[2].name, "born");
    assert_eq!(back.fields[2].nullable, Some(true));
}

#[test]
fn schema_with_alias_round_trips_to_canonical() {
    let s = DataSourceSchema {
        fields: vec![Field {
            name: "v".to_string(),
            data_type: DataType::Integer,
            nullable: None,
        }],
    };
    let back = DataSourceSchema::from_native(&s.to_native()).unwrap();
    assert!(matches!(back.fields[0].data_type, DataType::Int64));
}

#[test]
fn schema_import_reports_malformed_map() {
    let bad = NativeSchema {
        fields: vec![NativeField {
            name: "m".to_string(),
            data_type: NativeType::MapOf(
                Box::new(NativeField {
                    name: "entry".to_string(),
                    data_type: NativeType::Struct(vec![]),
                    nullable: false,
                }),
                false,
            ),
            nullable: true,
        }],
    };
    assert!(matches!(
        DataSourceSchema::from_native(&bad),
        Err(SchemaError::UnsupportedNativeShape)
    ));
}

#[test]
fn duplicate_field_names_are_allowed_and_kept() {
    let s = DataSourceSchema {
        fields: vec![
            Field { name: "x".to_string(), data_type: DataType::Int32, nullable: Some(true) },
            Field { name: "x".to_string(), data_type: DataType::String, nullable: Some(false) },
        ],
    };
    let back = DataSourceSchema::from_native(&s.to_native()).unwrap();
    assert_eq!(back.fields.len(), 2);
    assert_eq!(back.fields[0].name, "x");
    assert_eq!(back.fields[1].name, "x");
    assert!(matches!(back.fields[0].data_type, DataType::Int32));
    assert!(matches!(back.fields[1].data_type, DataType::String));
}
