//! Conversion behaviour on concrete values: round trips, alias
//! normalization, map encoding, and the malformed-map error.

use schema_bridge::error::SchemaError;
use schema_bridge::model::{
    DataType, DecimalType, DurationType, IntervalType, IntervalUnit, TimeType, TimeUnit,
    TimestampType, UnionMode, UnionType,
};
use schema_bridge::native::{NativeField, NativeTimeUnit, NativeType, NativeUnionMode};

fn assert_same(a: &DataType, b: &DataType) {
    assert_eq!(format!("{:?}", a), format!("{:?}", b));
}

fn round_trip(t: &DataType) -> DataType {
    DataType::from_native(&t.to_native()).expect("round trip must succeed")
}

#[test]
fn primitives_round_trip() {
    let cases = vec![
        DataType::Boolean,
        DataType::Int8,
        DataType::Int16,
        DataType::Int32,
        DataType::Int64,
        DataType::UInt8,
        DataType::UInt16,
        DataType::UInt32,
        DataType::UInt64,
        DataType::Float16,
        DataType::Float32,
        DataType::Float64,
        DataType::Date32,
        DataType::Date64,
        DataType::String,
        DataType::Unknown,
    ];
    for t in &cases {
        assert_same(t, &round_trip(t));
    }
}

#[test]
fn parametric_round_trip() {
    let cases = vec![
        DataType::Timestamp(TimestampType {
            unit: TimeUnit::Nanosecond,
            timezone: Some("+09:00".to_string()),
        }),
        DataType::Timestamp(TimestampType { unit: TimeUnit::Second, timezone: None }),
        DataType::Time32(TimeType { unit: TimeUnit::Millisecond }),
        DataType::Time64(TimeType { unit: TimeUnit::Microsecond }),
        DataType::Duration(DurationType { unit: TimeUnit::Second }),
        DataType::Interval(IntervalType { unit: IntervalUnit::YearMonth }),
        DataType::Interval(IntervalType { unit: IntervalUnit::DayTime }),
        DataType::Interval(IntervalType { unit: IntervalUnit::MonthDayNano }),
    ];
    for t in &cases {
        assert_same(t, &round_trip(t));
    }
}

#[test]
fn decimal_round_trip_exact() {
    for (precision, scale) in [(38u8, 10i8), (1, -128), (255, 127), (0, 0)] {
        let d = DecimalType { precision, scale };
        match round_trip(&DataType::Decimal128(d)) {
            DataType::Decimal128(r) => {
                assert_eq!(r.precision, precision);
                assert_eq!(r.scale, scale);
            }
            other => panic!("expected Decimal128, got {:?}", other),
        }
        match round_trip(&DataType::Decimal256(d)) {
            DataType::Decimal256(r) => {
                assert_eq!(r.precision, precision);
                assert_eq!(r.scale, scale);
            }
            other => panic!("expected Decimal256, got {:?}", other),
        }
    }
}

#[test]
fn aliases_export_as_canonical() {
    let d = DecimalType { precision: 76, scale: 2 };
    let tt = TimeType { unit: TimeUnit::Second };
    let pairs: Vec<(DataType, DataType)> = vec![
        (DataType::Integer, DataType::Int64),
        (DataType::Float, DataType::Float64),
        (DataType::Decimal(d), DataType::Decimal256(d)),
        (DataType::Date, DataType::Date64),
        (DataType::Time(TimeType { unit: tt.unit }), DataType::Time32(tt)),
    ];
    for (alias, canonical) in &pairs {
        assert_eq!(
            format!("{:?}", alias.to_native()),
            format!("{:?}", canonical.to_native()),
        );
        // alias identity is not recoverable: the round trip yields the
        // canonical variant
        assert_same(&round_trip(alias), canonical);
    }
}

#[test]
fn unknown_exports_as_binary_and_back() {
    match DataType::Unknown.to_native() {
        NativeType::Binary => {}
        other => panic!("expected Binary, got {:?}", other),
    }
    match DataType::from_native(&NativeType::Binary).unwrap() {
        DataType::Unknown => {}
        other => panic!("expected Unknown, got {:?}", other),
    }
}

#[test]
fn exotic_native_type_imports_as_unknown() {
    match DataType::from_native(&NativeType::Other).unwrap() {
        DataType::Unknown => {}
        other => panic!("expected Unknown, got {:?}", other),
    }
}

#[test]
fn deep_nesting_round_trip() {
    let mut t = DataType::Struct(vec![
        ("a".to_string(), DataType::Int32),
        ("b".to_string(), DataType::String),
    ]);
    for _ in 0..12 {
        t = DataType::List(Box::new(t));
    }
    assert_same(&t, &round_trip(&t));
}

#[test]
fn large_list_round_trip() {
    let t = DataType::LargeList(Box::new(DataType::MapOf(
        Box::new(DataType::String),
        Box::new(DataType::Date32),
    )));
    assert_same(&t, &round_trip(&t));
}

#[test]
fn union_round_trip_with_noncontiguous_descending_tags() {
    for mode in [UnionMode::Sparse, UnionMode::Dense] {
        let t = DataType::Union(UnionType {
            types: vec![
                (7, DataType::Int32),
                (3, DataType::String),
                (-2, DataType::Boolean),
            ],
            mode,
        });
        assert_same(&t, &round_trip(&t));
    }
}

#[test]
fn union_export_keeps_tags_and_mode() {
    let t = DataType::Union(UnionType {
        types: vec![(5, DataType::Int8), (1, DataType::String)],
        mode: UnionMode::Dense,
    });
    match t.to_native() {
        NativeType::Union(members, NativeUnionMode::Dense) => {
            assert_eq!(members.len(), 2);
            assert_eq!(members[0].0, 5);
            assert_eq!(members[1].0, 1);
            // the untagged display name of each member is empty by design
            assert_eq!(members[0].1.name, "");
            assert!(members[0].1.nullable);
        }
        other => panic!("expected a dense union, got {:?}", other),
    }
}

#[test]
fn map_exports_struct_wrapped_entry() {
    let t = DataType::MapOf(Box::new(DataType::String), Box::new(DataType::Int32));
    match t.to_native() {
        NativeType::MapOf(entry, sorted) => {
            assert!(!sorted);
            assert_eq!(entry.name, "entry");
            assert!(!entry.nullable);
            match &entry.data_type {
                NativeType::Struct(members) => {
                    assert_eq!(members.len(), 2);
                    assert_eq!(members[0].name, "key");
                    assert!(!members[0].nullable);
                    assert!(matches!(members[0].data_type, NativeType::Utf8));
                    assert_eq!(members[1].name, "value");
                    assert!(members[1].nullable);
                    assert!(matches!(members[1].data_type, NativeType::Int32));
                }
                other => panic!("expected a struct entry, got {:?}", other),
            }
        }
        other => panic!("expected a map, got {:?}", other),
    }
    // and it imports back to the same map type
    assert_same(&t, &round_trip(&t));
}

#[test]
fn list_element_field_is_nullable_item() {
    match DataType::List(Box::new(DataType::Int16)).to_native() {
        NativeType::List(element) => {
            assert_eq!(element.name, "item");
            assert!(element.nullable);
            assert!(matches!(element.data_type, NativeType::Int16));
        }
        other => panic!("expected a list, got {:?}", other),
    }
}

#[test]
fn struct_members_export_nullable_with_names() {
    let t = DataType::Struct(vec![
        ("x".to_string(), DataType::Int64),
        ("y".to_string(), DataType::Boolean),
    ]);
    match t.to_native() {
        NativeType::Struct(members) => {
            assert_eq!(members.len(), 2);
            assert_eq!(members[0].name, "x");
            assert!(members[0].nullable);
            assert_eq!(members[1].name, "y");
            assert!(members[1].nullable);
        }
        other => panic!("expected a struct, got {:?}", other),
    }
    assert_same(&t, &round_trip(&t));
}

#[test]
fn malformed_map_entry_is_a_reported_error() {
    // fewer than two members in the entry struct
    let one_member = NativeType::MapOf(
        Box::new(NativeField {
            name: "entry".to_string(),
            data_type: NativeType::Struct(vec![NativeField {
                name: "key".to_string(),
                data_type: NativeType::Utf8,
                nullable: false,
            }]),
            nullable: false,
        }),
        false,
    );
    assert!(matches!(
        DataType::from_native(&one_member),
        Err(SchemaError::UnsupportedNativeShape)
    ));

    // an entry that is not a struct at all
    let not_a_struct = NativeType::MapOf(
        Box::new(NativeField {
            name: "entry".to_string(),
            data_type: NativeType::Utf8,
            nullable: false,
        }),
        false,
    );
    assert!(matches!(
        DataType::from_native(&not_a_struct),
        Err(SchemaError::UnsupportedNativeShape)
    ));
}

#[test]
fn malformed_map_error_propagates_from_nesting() {
    let bad = NativeType::MapOf(
        Box::new(NativeField {
            name: "entry".to_string(),
            data_type: NativeType::Struct(vec![]),
            nullable: false,
        }),
        false,
    );
    let nested = NativeType::List(Box::new(NativeField {
        name: "item".to_string(),
        data_type: bad,
        nullable: true,
    }));
    assert!(matches!(
        DataType::from_native(&nested),
        Err(SchemaError::UnsupportedNativeShape)
    ));
}

#[test]
fn time_units_map_one_to_one() {
    let units = [
        (TimeUnit::Second, NativeTimeUnit::Second),
        (TimeUnit::Millisecond, NativeTimeUnit::Millisecond),
        (TimeUnit::Microsecond, NativeTimeUnit::Microsecond),
        (TimeUnit::Nanosecond, NativeTimeUnit::Nanosecond),
    ];
    for (ours, native) in units {
        assert_eq!(ours.to_native_time_unit(), native);
        assert_eq!(TimeUnit::from_native_time_unit(&native), ours);
    }
}

#[test]
fn error_message_names_the_shape() {
    let m = SchemaError::UnsupportedNativeShape.message();
    assert_eq!(m, "native map entry is not a struct of at least two members");
}
