use schema_bridge::error::ConversionError;
use schema_bridge::physical::{PhysicalField, PhysicalSchema, PhysicalType, TimeUnit};
use schema_bridge::schema::{
    ArrayType, DataType, DecimalType, DictionaryType, MapType, MetadataValue, PrimitiveType,
    StructField, StructType,
};
use schema_bridge::to_logical::{physical_to_field, physical_to_type, schema_to_logical};
use schema_bridge::to_physical::{
    array_to_physical_field, dictionary_to_physical, field_to_physical, map_to_physical_field,
    primitive_to_physical,
    schema_to_physical, type_to_physical,
};

fn string_type() -> DataType {
    DataType::Primitive(PrimitiveType::String)
}

fn integer_type() -> DataType {
    DataType::Primitive(PrimitiveType::Integer)
}

fn plain_physical_field(name: &str, data_type: PhysicalType, nullable: bool) -> PhysicalField {
    PhysicalField { name: name.to_owned(), data_type, nullable, metadata: Vec::new() }
}

#[test]
fn test_metadata_string_conversion() {
    let mut metadata = Vec::new();
    metadata.push((
        "description".to_string(),
        MetadataValue::String("hello world".to_owned()),
    ));
    let struct_field = StructField::not_null("name".to_string(), string_type()).with_metadata(
        metadata,
    );

    let physical_field = field_to_physical(&struct_field).unwrap();
    let new_metadata = &physical_field.metadata;

    let mut found = None;
    for (k, v) in new_metadata.iter() {
        if k == "description" {
            found = Some(v.clone());
        }
    }
    assert_eq!(found.unwrap(), "hello world".to_owned());
}

#[test]
fn primitive_round_trip_identity() {
    let kinds = vec![
        PrimitiveType::String,
        PrimitiveType::Long,
        PrimitiveType::ULong,
        PrimitiveType::Integer,
        PrimitiveType::UInteger,
        PrimitiveType::Short,
        PrimitiveType::UShort,
        PrimitiveType::Byte,
        PrimitiveType::UByte,
        PrimitiveType::Float,
        PrimitiveType::Double,
        PrimitiveType::Boolean,
        PrimitiveType::Binary,
        PrimitiveType::Decimal(DecimalType::try_new(10, 2).unwrap()),
        PrimitiveType::Date,
        PrimitiveType::Timestamp,
        PrimitiveType::TimestampNs,
        PrimitiveType::TimestampNtz,
    ];
    for kind in kinds {
        let physical = primitive_to_physical(&kind);
        let back = physical_to_type(&physical).unwrap();
        assert_eq!(back, DataType::Primitive(kind));
    }
}

#[test]
fn forward_primitive_table() {
    assert_eq!(primitive_to_physical(&PrimitiveType::String), PhysicalType::Utf8);
    assert_eq!(primitive_to_physical(&PrimitiveType::Long), PhysicalType::Int64);
    assert_eq!(primitive_to_physical(&PrimitiveType::ULong), PhysicalType::UInt64);
    assert_eq!(primitive_to_physical(&PrimitiveType::Integer), PhysicalType::Int32);
    assert_eq!(primitive_to_physical(&PrimitiveType::UInteger), PhysicalType::UInt32);
    assert_eq!(primitive_to_physical(&PrimitiveType::Short), PhysicalType::Int16);
    assert_eq!(primitive_to_physical(&PrimitiveType::UShort), PhysicalType::UInt16);
    assert_eq!(primitive_to_physical(&PrimitiveType::Byte), PhysicalType::Int8);
    assert_eq!(primitive_to_physical(&PrimitiveType::UByte), PhysicalType::UInt8);
    assert_eq!(primitive_to_physical(&PrimitiveType::Float), PhysicalType::Float32);
    assert_eq!(primitive_to_physical(&PrimitiveType::Double), PhysicalType::Float64);
    assert_eq!(primitive_to_physical(&PrimitiveType::Boolean), PhysicalType::Boolean);
    assert_eq!(primitive_to_physical(&PrimitiveType::Binary), PhysicalType::Binary);
    assert_eq!(primitive_to_physical(&PrimitiveType::Date), PhysicalType::Date32);
    assert_eq!(
        primitive_to_physical(&PrimitiveType::Timestamp),
        PhysicalType::Timestamp(TimeUnit::Microsecond, Some("UTC".to_owned()))
    );
    assert_eq!(
        primitive_to_physical(&PrimitiveType::TimestampNs),
        PhysicalType::Timestamp(TimeUnit::Nanosecond, Some("UTC".to_owned()))
    );
    assert_eq!(
        primitive_to_physical(&PrimitiveType::TimestampNtz),
        PhysicalType::Timestamp(TimeUnit::Microsecond, None)
    );
}

#[test]
fn many_to_one_collapses() {
    let string = DataType::Primitive(PrimitiveType::String);
    assert_eq!(physical_to_type(&PhysicalType::Utf8).unwrap(), string);
    assert_eq!(physical_to_type(&PhysicalType::LargeUtf8).unwrap(), string);
    assert_eq!(physical_to_type(&PhysicalType::Utf8View).unwrap(), string);

    let binary = DataType::Primitive(PrimitiveType::Binary);
    assert_eq!(physical_to_type(&PhysicalType::Binary).unwrap(), binary);
    assert_eq!(physical_to_type(&PhysicalType::FixedSizeBinary(16)).unwrap(), binary);
    assert_eq!(physical_to_type(&PhysicalType::LargeBinary).unwrap(), binary);
    assert_eq!(physical_to_type(&PhysicalType::BinaryView).unwrap(), binary);

    let date = DataType::Primitive(PrimitiveType::Date);
    assert_eq!(physical_to_type(&PhysicalType::Date32).unwrap(), date);
    assert_eq!(physical_to_type(&PhysicalType::Date64).unwrap(), date);
}

#[test]
fn timestamp_round_trips_and_collapses() {
    // timestamp (with timezone) through micro + "UTC"
    let ts = physical_to_type(&PhysicalType::Timestamp(
        TimeUnit::Microsecond,
        Some("UTC".to_owned()),
    ))
    .unwrap();
    assert_eq!(ts, DataType::Primitive(PrimitiveType::Timestamp));

    // timestamp-ntz through micro + no timezone
    let ntz = physical_to_type(&PhysicalType::Timestamp(TimeUnit::Microsecond, None)).unwrap();
    assert_eq!(ntz, DataType::Primitive(PrimitiveType::TimestampNtz));

    // timestamp-ns both through nano + no timezone and nano + "UTC"
    let ns_plain = physical_to_type(&PhysicalType::Timestamp(TimeUnit::Nanosecond, None)).unwrap();
    assert_eq!(ns_plain, DataType::Primitive(PrimitiveType::TimestampNs));
    let ns_utc = physical_to_type(&PhysicalType::Timestamp(
        TimeUnit::Nanosecond,
        Some("UTC".to_owned()),
    ))
    .unwrap();
    assert_eq!(ns_utc, DataType::Primitive(PrimitiveType::TimestampNs));

    // the timezone check is case-insensitive
    let lower = physical_to_type(&PhysicalType::Timestamp(
        TimeUnit::Microsecond,
        Some("utc".to_owned()),
    ))
    .unwrap();
    assert_eq!(lower, DataType::Primitive(PrimitiveType::Timestamp));
}

#[test]
fn unsupported_timestamps_rejected() {
    let err = physical_to_type(&PhysicalType::Timestamp(
        TimeUnit::Microsecond,
        Some("Europe/Paris".to_owned()),
    ))
    .unwrap_err();
    assert_eq!(err, ConversionError::UnsupportedPhysicalType);

    let err = physical_to_type(&PhysicalType::Timestamp(TimeUnit::Second, None)).unwrap_err();
    assert_eq!(err, ConversionError::UnsupportedPhysicalType);

    let err = physical_to_type(&PhysicalType::Timestamp(
        TimeUnit::Millisecond,
        Some("UTC".to_owned()),
    ))
    .unwrap_err();
    assert_eq!(err, ConversionError::UnsupportedPhysicalType);
}

#[test]
fn scenario_struct_round_trip() {
    // struct{name: string not-null, age: integer nullable}
    let fields = vec![
        StructField::not_null("name".to_string(), string_type()),
        StructField::nullable("age".to_string(), integer_type()),
    ];
    let schema = StructType::try_new(fields).unwrap();

    let physical = schema_to_physical(&schema).unwrap();
    assert_eq!(physical.fields.len(), 2);
    assert_eq!(physical.fields[0].name, "name");
    assert!(!physical.fields[0].nullable);
    assert_eq!(physical.fields[0].data_type, PhysicalType::Utf8);
    assert_eq!(physical.fields[1].name, "age");
    assert!(physical.fields[1].nullable);
    assert_eq!(physical.fields[1].data_type, PhysicalType::Int32);

    let back = schema_to_logical(&physical).unwrap();
    assert_eq!(back, StructType::try_new(vec![
        StructField::not_null("name".to_string(), string_type()),
        StructField::nullable("age".to_string(), integer_type()),
    ]).unwrap());
}

#[test]
fn scenario_decimal_round_trip() {
    let decimal = DataType::Primitive(PrimitiveType::Decimal(DecimalType::try_new(10, 2).unwrap()));
    let physical = type_to_physical(&decimal).unwrap();
    assert_eq!(physical, PhysicalType::Decimal128(10, 2));
    let back = physical_to_type(&physical).unwrap();
    assert_eq!(back, decimal);
}

#[test]
fn scenario_array_of_string_round_trip() {
    let array = DataType::Array(Box::new(ArrayType {
        element_type: string_type(),
        contains_null: true,
    }));
    let physical = type_to_physical(&array).unwrap();
    match &physical {
        PhysicalType::List(child) => {
            assert_eq!(child.name, "item");
            assert!(child.nullable);
            assert_eq!(child.data_type, PhysicalType::Utf8);
        }
        other => panic!("expected a list, got {:?}", other),
    }
    let back = physical_to_type(&physical).unwrap();
    assert_eq!(back, DataType::Array(Box::new(ArrayType {
        element_type: string_type(),
        contains_null: true,
    })));
}

#[test]
fn scenario_negative_scale_rejected() {
    let err = physical_to_type(&PhysicalType::Decimal128(5, -1)).unwrap_err();
    assert_eq!(err, ConversionError::InvalidDecimal);
}

#[test]
fn negative_scale_rejected_for_all_precisions() {
    for precision in [0u8, 1, 5, 38, 255] {
        let err = physical_to_type(&PhysicalType::Decimal128(precision, -3)).unwrap_err();
        assert_eq!(err, ConversionError::InvalidDecimal);
    }
}

#[test]
fn out_of_range_decimals_rejected() {
    assert_eq!(
        physical_to_type(&PhysicalType::Decimal128(0, 0)).unwrap_err(),
        ConversionError::InvalidDecimal
    );
    assert_eq!(
        physical_to_type(&PhysicalType::Decimal128(39, 0)).unwrap_err(),
        ConversionError::InvalidDecimal
    );
    assert_eq!(
        physical_to_type(&PhysicalType::Decimal128(10, 39)).unwrap_err(),
        ConversionError::InvalidDecimal
    );
    assert!(DecimalType::try_new(38, 38).is_ok());
    assert_eq!(DecimalType::try_new(0, 1).unwrap_err(), ConversionError::InvalidDecimal);
    assert_eq!(DecimalType::try_new(39, 1).unwrap_err(), ConversionError::InvalidDecimal);
}

#[test]
fn struct_field_order_and_nullability_preserved() {
    let fields = vec![
        StructField::not_null("a".to_string(), string_type()),
        StructField::nullable("b".to_string(), integer_type()),
        StructField::not_null("c".to_string(), DataType::Primitive(PrimitiveType::Boolean)),
    ];
    let schema = StructType::try_new(fields).unwrap();
    let physical = schema_to_physical(&schema).unwrap();
    let names: Vec<&str> = physical.fields.iter().map(|f| f.name.as_str()).collect();
    assert_eq!(names, vec!["a", "b", "c"]);
    let nullables: Vec<bool> = physical.fields.iter().map(|f| f.nullable).collect();
    assert_eq!(nullables, vec![false, true, false]);

    let back = schema_to_logical(&physical).unwrap();
    let back_names: Vec<&str> = back.fields().iter().map(|f| f.name.as_str()).collect();
    assert_eq!(back_names, vec!["a", "b", "c"]);
    let back_nullables: Vec<bool> = back.fields().iter().map(|f| f.nullable).collect();
    assert_eq!(back_nullables, vec![false, true, false]);
}

#[test]
fn map_outer_field_always_non_nullable() {
    let map = MapType {
        key_type: string_type(),
        value_type: integer_type(),
        value_contains_null: true,
    };
    let outer = map_to_physical_field(&map).unwrap();
    assert_eq!(outer.name, "key_value");
    assert!(!outer.nullable);
    match &outer.data_type {
        PhysicalType::Struct(entries) => {
            assert_eq!(entries.len(), 2);
            assert_eq!(entries[0].name, "key");
            assert!(!entries[0].nullable);
            assert_eq!(entries[1].name, "value");
            assert!(entries[1].nullable);
        }
        other => panic!("expected a struct, got {:?}", other),
    }

    // value not nullable: key child still non-null, value child follows
    let map2 = MapType {
        key_type: string_type(),
        value_type: integer_type(),
        value_contains_null: false,
    };
    let outer2 = map_to_physical_field(&map2).unwrap();
    assert!(!outer2.nullable);
    match &outer2.data_type {
        PhysicalType::Struct(entries) => {
            assert!(!entries[0].nullable);
            assert!(!entries[1].nullable);
        }
        other => panic!("expected a struct, got {:?}", other),
    }
}

#[test]
fn map_round_trip() {
    let map = DataType::Mapping(Box::new(MapType {
        key_type: string_type(),
        value_type: integer_type(),
        value_contains_null: true,
    }));
    let physical = type_to_physical(&map).unwrap();
    let back = physical_to_type(&physical).unwrap();
    assert_eq!(back, DataType::Mapping(Box::new(MapType {
        key_type: string_type(),
        value_type: integer_type(),
        value_contains_null: true,
    })));
}

#[test]
fn map_with_wrong_child_is_structural_violation() {
    let bad = PhysicalType::Mapping(
        Box::new(plain_physical_field("key_value", PhysicalType::Int32, false)),
        false,
    );
    assert_eq!(physical_to_type(&bad).unwrap_err(), ConversionError::StructuralViolation);

    let three = PhysicalType::Mapping(
        Box::new(plain_physical_field(
            "key_value",
            PhysicalType::Struct(vec![
                plain_physical_field("key", PhysicalType::Utf8, false),
                plain_physical_field("value", PhysicalType::Int32, true),
                plain_physical_field("extra", PhysicalType::Int32, true),
            ]),
            false,
        )),
        false,
    );
    assert_eq!(physical_to_type(&three).unwrap_err(), ConversionError::StructuralViolation);
}

#[test]
fn dictionary_reverse_always_ordered() {
    let dict = DataType::Dictionary(Box::new(DictionaryType {
        key_type: integer_type(),
        value_type: string_type(),
        ordered: true,
    }));
    let physical = type_to_physical(&dict).unwrap();
    // the logical ordered flag is not carried forward
    assert_eq!(
        physical,
        PhysicalType::Dictionary(Box::new(PhysicalType::Int32), Box::new(PhysicalType::Utf8), false)
    );
    // and the reverse direction always reconstructs an ordered dictionary
    let back = physical_to_type(&physical).unwrap();
    assert_eq!(back, dict);

    let unordered = PhysicalType::Dictionary(
        Box::new(PhysicalType::Int32),
        Box::new(PhysicalType::Utf8),
        false,
    );
    match physical_to_type(&unordered).unwrap() {
        DataType::Dictionary(d) => assert!(d.ordered),
        other => panic!("expected a dictionary, got {:?}", other),
    }
}

#[test]
fn duplicate_field_names_rejected() {
    let fields = vec![
        StructField::not_null("a".to_string(), string_type()),
        StructField::nullable("a".to_string(), integer_type()),
    ];
    assert_eq!(StructType::try_new(fields).unwrap_err(), ConversionError::SchemaConstruction);

    let physical = PhysicalSchema {
        fields: vec![
            plain_physical_field("a", PhysicalType::Utf8, false),
            plain_physical_field("a", PhysicalType::Int32, true),
        ],
    };
    assert_eq!(schema_to_logical(&physical).unwrap_err(), ConversionError::SchemaConstruction);
}

#[test]
fn nested_duplicate_names_rejected() {
    let physical = PhysicalType::Struct(vec![
        plain_physical_field("x", PhysicalType::Utf8, false),
        plain_physical_field("x", PhysicalType::Utf8, false),
    ]);
    assert_eq!(physical_to_type(&physical).unwrap_err(), ConversionError::SchemaConstruction);
}

#[test]
fn number_metadata_serialized_to_json_text() {
    let field = StructField::not_null("n".to_string(), integer_type()).with_metadata(vec![
        ("count".to_string(), MetadataValue::Number(42)),
        ("neg".to_string(), MetadataValue::Number(-5)),
        ("flag".to_string(), MetadataValue::Boolean(true)),
        ("off".to_string(), MetadataValue::Boolean(false)),
    ]);
    let physical = field_to_physical(&field).unwrap();
    assert_eq!(physical.metadata, vec![
        ("count".to_string(), "42".to_string()),
        ("neg".to_string(), "-5".to_string()),
        ("flag".to_string(), "true".to_string()),
        ("off".to_string(), "false".to_string()),
    ]);
}

#[test]
fn non_string_metadata_comes_back_as_string() {
    let field = StructField::not_null("n".to_string(), integer_type()).with_metadata(vec![(
        "count".to_string(),
        MetadataValue::Number(42),
    )]);
    let physical = field_to_physical(&field).unwrap();
    let back = physical_to_field(&physical).unwrap();
    // the string form is preserved; the original type is not reconstructed
    assert_eq!(back.metadata, vec![(
        "count".to_string(),
        MetadataValue::String("42".to_string()),
    )]);
}

#[test]
fn string_metadata_round_trips_byte_for_byte() {
    let field = StructField::nullable("s".to_string(), string_type()).with_metadata(vec![
        ("one".to_string(), MetadataValue::String("first value".to_string())),
        ("two".to_string(), MetadataValue::String("second value".to_string())),
    ]);
    let physical = field_to_physical(&field).unwrap();
    let back = physical_to_field(&physical).unwrap();
    assert_eq!(back.metadata, vec![
        ("one".to_string(), MetadataValue::String("first value".to_string())),
        ("two".to_string(), MetadataValue::String("second value".to_string())),
    ]);
    assert_eq!(back.name, "s");
    assert!(back.nullable);
}

#[test]
fn with_metadata_keeps_order_and_last_value_wins() {
    let field = StructField::not_null("f".to_string(), string_type()).with_metadata(vec![
        ("a".to_string(), MetadataValue::String("1".to_string())),
        ("b".to_string(), MetadataValue::String("2".to_string())),
        ("a".to_string(), MetadataValue::String("3".to_string())),
    ]);
    assert_eq!(field.metadata, vec![
        ("a".to_string(), MetadataValue::String("3".to_string())),
        ("b".to_string(), MetadataValue::String("2".to_string())),
    ]);
}

#[test]
fn list_child_name_dropped_on_reverse() {
    // the reverse direction takes element type and nullability from the
    // child field whatever its name is
    let physical = PhysicalType::LargeList(Box::new(plain_physical_field(
        "element",
        PhysicalType::Utf8,
        false,
    )));
    let back = physical_to_type(&physical).unwrap();
    assert_eq!(back, DataType::Array(Box::new(ArrayType {
        element_type: string_type(),
        contains_null: false,
    })));

    let view = PhysicalType::FixedSizeList(
        Box::new(plain_physical_field("item", PhysicalType::Int64, true)),
        4,
    );
    let back = physical_to_type(&view).unwrap();
    assert_eq!(back, DataType::Array(Box::new(ArrayType {
        element_type: DataType::Primitive(PrimitiveType::Long),
        contains_null: true,
    })));
}

#[test]
fn array_to_physical_field_synthesizes_item() {
    let array = ArrayType { element_type: integer_type(), contains_null: false };
    let field = array_to_physical_field(&array).unwrap();
    assert_eq!(field.name, "item");
    assert!(!field.nullable);
    assert_eq!(field.data_type, PhysicalType::Int32);
    assert!(field.metadata.is_empty());
}

#[test]
fn nested_struct_round_trip() {
    let inner = StructType::try_new(vec![
        StructField::not_null("x".to_string(), integer_type()),
        StructField::nullable("y".to_string(), string_type()),
    ])
    .unwrap();
    let schema = StructType::try_new(vec![
        StructField::nullable("point".to_string(), DataType::Struct(inner)),
        StructField::not_null(
            "tags".to_string(),
            DataType::Array(Box::new(ArrayType { element_type: string_type(), contains_null: false })),
        ),
    ])
    .unwrap();
    let physical = schema_to_physical(&schema).unwrap();
    let back = schema_to_logical(&physical).unwrap();

    let inner2 = StructType::try_new(vec![
        StructField::not_null("x".to_string(), integer_type()),
        StructField::nullable("y".to_string(), string_type()),
    ])
    .unwrap();
    let expected = StructType::try_new(vec![
        StructField::nullable("point".to_string(), DataType::Struct(inner2)),
        StructField::not_null(
            "tags".to_string(),
            DataType::Array(Box::new(ArrayType { element_type: string_type(), contains_null: false })),
        ),
    ])
    .unwrap();
    assert_eq!(back, expected);
}

#[test]
fn empty_schema_round_trip() {
    let schema = StructType::try_new(Vec::new()).unwrap();
    let physical = schema_to_physical(&schema).unwrap();
    assert!(physical.fields.is_empty());
    let back = schema_to_logical(&physical).unwrap();
    assert!(back.fields().is_empty());
}

#[test]
fn dictionary_to_physical_standalone() {
    let dict = DictionaryType {
        key_type: DataType::Primitive(PrimitiveType::Short),
        value_type: string_type(),
        ordered: false,
    };
    let physical = dictionary_to_physical(&dict).unwrap();
    assert_eq!(
        physical,
        PhysicalType::Dictionary(Box::new(PhysicalType::Int16), Box::new(PhysicalType::Utf8), false)
    );
}
