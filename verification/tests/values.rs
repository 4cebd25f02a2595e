use kuzu::{
    ByteOrder, ConversionError, Date, DateTime, Duration, Error, ForeignType, ForeignValue, InternalID,
    LogicalType, LogicalTypeID, NodeVal, RDFVariant, RelVal, Value,
};

fn encode(value: &Value) -> ForeignValue {
    value.to_foreign(ByteOrder::native()).expect("the value can be encoded")
}

fn round_trip(rust_value: Value) {
    for order in [ByteOrder::LittleEndian, ByteOrder::BigEndian] {
        let value = rust_value.to_foreign(order).expect("the value can be encoded");
        assert!(value.is_well_formed());
        let new_rust_value = Value::from_foreign(&value, order).expect("the value can be decoded");
        assert_eq!(new_rust_value, rust_value);
        assert_eq!(Value::try_from_foreign(&value, order), Some(Ok(rust_value.clone())));
    }
}

fn instant(seconds: i64, nanoseconds: i128) -> DateTime {
    DateTime::from_unix_nanos(seconds as i128 * 1_000_000_000 + nanoseconds)
        .expect("an instant of the calendar")
}

fn uuid(text: &str) -> u128 {
    uuid::Uuid::parse_str(text).expect("a UUID").as_u128()
}

#[test]
fn convert_list() {
    round_trip(Value::List(
        LogicalType::String,
        vec![Value::String("Alice".to_string()), Value::String("Bob".to_string())],
    ));
}

#[test]
fn convert_list_empty() {
    round_trip(Value::List(LogicalType::String, vec![]));
}

#[test]
fn convert_array() {
    round_trip(Value::Array(
        LogicalType::String,
        vec![Value::String("Alice".to_string()), Value::String("Bob".to_string())],
    ));
}

#[test]
fn convert_int8() {
    round_trip(Value::Int8(0));
}

#[test]
fn convert_int16() {
    round_trip(Value::Int16(1));
}

#[test]
fn convert_int32() {
    round_trip(Value::Int32(2));
}

#[test]
fn convert_int64() {
    round_trip(Value::Int64(3));
}

#[test]
fn convert_uint8() {
    round_trip(Value::UInt8(0));
}

#[test]
fn convert_uint16() {
    round_trip(Value::UInt16(1));
}

#[test]
fn convert_uint32() {
    round_trip(Value::UInt32(2));
}

#[test]
fn convert_uint64() {
    round_trip(Value::UInt64(3));
}

#[test]
fn convert_int128() {
    round_trip(Value::Int128(1));
}

#[test]
fn convert_int128_negative() {
    round_trip(Value::Int128(-1));
}

#[test]
fn convert_int128_large() {
    round_trip(Value::Int128(184467440737095516158));
}

#[test]
fn convert_int128_large_negative() {
    round_trip(Value::Int128(-184467440737095516158));
}

#[test]
fn convert_uuid() {
    round_trip(Value::UUID(uuid("00000000-0000-0000-0000-ffff00000000")));
}

#[test]
fn convert_uuid2() {
    round_trip(Value::UUID(uuid("a0eebc99-9c0b-4ef8-bb6d-6bb9bd380a11")));
}

#[test]
fn convert_float() {
    round_trip(Value::Float(4f32.to_bits()));
}

#[test]
fn convert_double() {
    round_trip(Value::Double(5f64.to_bits()));
}

#[test]
fn convert_float_keeps_every_bit() {
    round_trip(Value::Float(f32::NAN.to_bits()));
    round_trip(Value::Double((-0.0f64).to_bits()));
    assert_eq!(encode(&Value::Float(4f32.to_bits())), ForeignValue::Float(0x4080_0000));
}

#[test]
fn convert_timestamp() {
    round_trip(Value::Timestamp(instant(1686655530, 0)));
}

#[test]
fn convert_timestamp_tz() {
    round_trip(Value::TimestampTz(instant(1686655530, 0)));
}

#[test]
fn convert_timestamp_ns() {
    round_trip(Value::TimestampNs(instant(1686655530, 123_450_000)));
}

#[test]
fn convert_timestamp_ms() {
    round_trip(Value::TimestampMs(instant(1686655530, 123_000_000)));
}

#[test]
fn convert_timestamp_sec() {
    round_trip(Value::TimestampSec(instant(1686655530, 0)));
}

#[test]
fn convert_date() {
    round_trip(Value::Date(Date::from_calendar_date(2023, 6, 13).expect("a date")));
}

#[test]
fn convert_interval() {
    round_trip(Value::Interval(Duration::new(10 * 7 * 86400, 0).expect("a duration")));
}

#[test]
fn convert_string() {
    round_trip(Value::String("Hello World".to_string()));
}

#[test]
fn convert_blob() {
    round_trip(Value::Blob("Hello World".into()));
}

#[test]
fn convert_bool() {
    round_trip(Value::Bool(false));
}

#[test]
fn convert_null() {
    round_trip(Value::Null(LogicalType::List {
        child_type: Box::new(LogicalType::Array {
            child_type: Box::new(LogicalType::Int16),
            num_elements: 3,
        }),
    }));
}

#[test]
fn convert_null_of_every_plain_type() {
    for typ in [
        LogicalType::Any,
        LogicalType::Bool,
        LogicalType::Serial,
        LogicalType::Int64,
        LogicalType::Int128,
        LogicalType::Double,
        LogicalType::Date,
        LogicalType::Interval,
        LogicalType::TimestampNs,
        LogicalType::InternalID,
        LogicalType::String,
        LogicalType::Blob,
        LogicalType::Node,
        LogicalType::Rel,
        LogicalType::RecursiveRel,
        LogicalType::UUID,
        LogicalType::RDFVariant,
    ] {
        round_trip(Value::Null(typ));
    }
}

#[test]
fn convert_struct() {
    round_trip(Value::Struct(vec![
        ("NAME".to_string(), Value::String("Alice".to_string())),
        ("AGE".to_string(), Value::Int32(25)),
    ]));
}

#[test]
fn convert_internal_id() {
    round_trip(Value::InternalID(InternalID { table_id: 0, offset: 0 }));
}

#[test]
fn convert_map() {
    round_trip(Value::MapOf(
        (LogicalType::String, LogicalType::Int64),
        vec![(Value::String("key".to_string()), Value::Int64(24))],
    ));
}

#[test]
fn convert_union() {
    round_trip(Value::Union {
        types: vec![
            ("Num".to_string(), LogicalType::Int8),
            ("duration".to_string(), LogicalType::Interval),
        ],
        value: Box::new(Value::Int8(-127)),
    });
}

#[test]
fn convert_rdf_int() {
    round_trip(Value::RDFVariant(RDFVariant::Int64(1)));
}

#[test]
fn convert_struct_of_list_of_structs() {
    let inner = |name: &str, count: i32| {
        Value::Struct(vec![
            ("item".to_string(), Value::String(name.to_string())),
            ("count".to_string(), Value::Int32(count)),
        ])
    };
    let element_type = LogicalType::Struct {
        fields: vec![
            ("item".to_string(), LogicalType::String),
            ("count".to_string(), LogicalType::Int32),
        ],
    };
    let value = Value::Struct(vec![
        ("zulu".to_string(), Value::List(element_type, vec![inner("Knife", 1), inner("Fork", 2)])),
        ("alpha".to_string(), Value::Bool(true)),
    ]);
    round_trip(value.clone());
    let decoded = Value::from_foreign(&encode(&value), ByteOrder::native()).expect("decodes");
    match decoded {
        Value::Struct(fields) => {
            let names: Vec<&str> = fields.iter().map(|f| f.0.as_str()).collect();
            assert_eq!(names, vec!["zulu", "alpha"]);
            match &fields[0].1 {
                Value::List(_, items) => match &items[1] {
                    Value::Struct(inner_fields) => {
                        assert_eq!(inner_fields[0].0, "item");
                        assert_eq!(inner_fields[1], ("count".to_string(), Value::Int32(2)));
                    }
                    other => panic!("not a struct: {:?}", other),
                },
                other => panic!("not a list: {:?}", other),
            }
        }
        other => panic!("not a struct: {:?}", other),
    }
}

#[test]
fn wide_integer_boundaries() {
    for value in [i128::MIN, i128::MAX, -1, 0] {
        round_trip(Value::Int128(value));
    }
    assert_eq!(encode(&Value::Int128(-1)), ForeignValue::Int128 { high: -1, low: u64::MAX });
    assert_eq!(encode(&Value::Int128(0)), ForeignValue::Int128 { high: 0, low: 0 });
    assert_eq!(encode(&Value::Int128(i128::MIN)), ForeignValue::Int128 { high: i64::MIN, low: 0 });
    assert_eq!(
        encode(&Value::Int128(i128::MAX)),
        ForeignValue::Int128 { high: i64::MAX, low: u64::MAX }
    );
    assert_eq!(
        encode(&Value::Int128(184467440737095516158)),
        ForeignValue::Int128 { high: 9, low: 18446744073709551614 }
    );
    let order = ByteOrder::native();
    assert_eq!(
        Value::from_foreign(&ForeignValue::Int128 { high: -1, low: 0 }, order),
        Ok(Value::Int128(-18446744073709551616))
    );
    assert_eq!(
        Value::from_foreign(&ForeignValue::Int128 { high: i64::MIN, low: 1 }, order),
        Ok(Value::Int128(i128::MIN + 1))
    );
}

#[test]
fn uuid_boundaries() {
    let zero = uuid("00000000-0000-0000-0000-000000000000");
    let ones = uuid("ffffffff-ffff-ffff-ffff-ffffffffffff");
    round_trip(Value::UUID(zero));
    round_trip(Value::UUID(ones));
    assert_eq!(encode(&Value::UUID(zero)), ForeignValue::UUID { high: i64::MIN, low: 0 });
    assert_eq!(encode(&Value::UUID(ones)), ForeignValue::UUID { high: i64::MAX, low: u64::MAX });
    assert_eq!(
        encode(&Value::UUID(uuid("80000000-0000-0000-0000-000000000001"))),
        ForeignValue::UUID { high: 0, low: 1 }
    );
    assert_eq!(
        Value::from_foreign(&ForeignValue::UUID { high: 0, low: 0 }, ByteOrder::native()),
        Ok(Value::UUID(1 << 127))
    );
}

#[test]
fn uuid_order_is_the_order_of_the_signed_numbers() {
    let texts = [
        "00000000-0000-0000-0000-000000000000",
        "00000000-0000-0000-0000-ffff00000000",
        "7fffffff-ffff-ffff-ffff-ffffffffffff",
        "80000000-0000-0000-0000-000000000000",
        "a0eebc99-9c0b-4ef8-bb6d-6bb9bd380a11",
        "ffffffff-ffff-ffff-ffff-ffffffffffff",
    ];
    let signed: Vec<i128> = texts.iter().map(|t| kuzu::wide_int::uuid_to_int128(uuid(t))).collect();
    for pair in signed.windows(2) {
        assert!(pair[0] < pair[1]);
    }
    for text in texts {
        let id = uuid(text);
        assert_eq!(kuzu::wide_int::uuid_from_int128(kuzu::wide_int::uuid_to_int128(id)), id);
    }
}

#[test]
fn date_boundary() {
    let order = ByteOrder::native();
    let last = 2_932_896;
    let first = -4_371_587;
    assert_eq!(
        Value::from_foreign(&ForeignValue::Date(last), order),
        Ok(Value::Date(Date::from_calendar_date(9999, 12, 31).expect("the last date")))
    );
    assert_eq!(
        Value::from_foreign(&ForeignValue::Date(first), order),
        Ok(Value::Date(Date::from_calendar_date(-9999, 1, 1).expect("the first date")))
    );
    assert_eq!(
        Value::from_foreign(&ForeignValue::Date(last + 1), order),
        Err(ConversionError::Date(last + 1))
    );
    assert_eq!(
        Value::from_foreign(&ForeignValue::Date(first - 1), order),
        Err(ConversionError::Date(first - 1))
    );
    assert_eq!(
        Value::from_foreign(&ForeignValue::Date(i32::MAX), order),
        Err(ConversionError::Date(i32::MAX))
    );
    assert_eq!(
        Value::from_foreign(&ForeignValue::Date(i32::MIN), order),
        Err(ConversionError::Date(i32::MIN))
    );
    assert_eq!(
        Value::from_foreign(&ForeignValue::Date(0), order),
        Ok(Value::Date(Date::from_calendar_date(1970, 1, 1).expect("the epoch")))
    );
}

#[test]
fn timestamp_boundaries_and_errors() {
    let order = ByteOrder::native();
    let last_second = 253_402_300_799i64;
    let first_second = -377_705_116_800i64;
    assert!(Value::from_foreign(&ForeignValue::TimestampSec(last_second), order).is_ok());
    assert!(Value::from_foreign(&ForeignValue::TimestampSec(first_second), order).is_ok());
    assert_eq!(
        Value::from_foreign(&ForeignValue::TimestampSec(last_second + 1), order),
        Err(ConversionError::TimestampSec(last_second + 1))
    );
    assert_eq!(
        Value::from_foreign(&ForeignValue::TimestampSec(first_second - 1), order),
        Err(ConversionError::TimestampSec(first_second - 1))
    );
    assert_eq!(
        Value::from_foreign(&ForeignValue::Timestamp(i64::MAX), order),
        Err(ConversionError::Timestamp(i64::MAX))
    );
    assert_eq!(
        Value::from_foreign(&ForeignValue::TimestampTz(i64::MIN), order),
        Err(ConversionError::TimestampTz(i64::MIN))
    );
    assert_eq!(
        Value::from_foreign(&ForeignValue::TimestampMs(i64::MAX), order),
        Err(ConversionError::TimestampMs(i64::MAX))
    );
    assert_eq!(
        Value::from_foreign(&ForeignValue::TimestampMs(last_second * 1000 + 999), order),
        Ok(Value::TimestampMs(instant(last_second, 999_000_000)))
    );
    assert_eq!(
        Value::from_foreign(&ForeignValue::TimestampNs(i64::MAX), order),
        Ok(Value::TimestampNs(instant(9_223_372_036, 854_775_807)))
    );
    assert_eq!(
        Value::from_foreign(&ForeignValue::TimestampNs(i64::MIN), order),
        Ok(Value::TimestampNs(instant(-9_223_372_036, -854_775_808)))
    );
}

#[test]
fn timestamps_are_sent_in_their_own_unit() {
    let t = instant(1686655530, 123_456_789);
    assert_eq!(encode(&Value::Timestamp(t)), ForeignValue::Timestamp(1_686_655_530_123_456));
    assert_eq!(encode(&Value::TimestampTz(t)), ForeignValue::TimestampTz(1_686_655_530_123_456));
    assert_eq!(encode(&Value::TimestampNs(t)), ForeignValue::TimestampNs(1_686_655_530_123_456_789));
    assert_eq!(encode(&Value::TimestampMs(t)), ForeignValue::TimestampMs(1_686_655_530_123));
    assert_eq!(encode(&Value::TimestampSec(t)), ForeignValue::TimestampSec(1_686_655_530));
    let before = instant(-2, 500_000_000);
    assert_eq!(encode(&Value::TimestampSec(before)), ForeignValue::TimestampSec(-1));
    assert_eq!(encode(&Value::Timestamp(before)), ForeignValue::Timestamp(-1_500_000));
}

#[test]
fn precision_is_kept_apart() {
    let order = ByteOrder::native();
    let decoded = Value::from_foreign(&ForeignValue::TimestampMs(5), order).expect("decodes");
    assert_eq!(decoded, Value::TimestampMs(instant(0, 5_000_000)));
    assert_ne!(decoded, Value::Timestamp(instant(0, 5_000_000)));
    assert_eq!(decoded.logical_type(), LogicalType::TimestampMs);
}

#[test]
fn interval_triplet() {
    let order = ByteOrder::native();
    let ten_weeks = Duration::new(10 * 7 * 86400, 0).expect("a duration");
    assert_eq!(
        encode(&Value::Interval(ten_weeks)),
        ForeignValue::Interval { months: 2, days: 10, micros: 0 }
    );
    assert_eq!(
        Value::from_foreign(&ForeignValue::Interval { months: 2, days: 10, micros: 0 }, order),
        Ok(Value::Interval(ten_weeks))
    );
    let mixed = Duration::new(-(45 * 86400 + 3661), -500_000_000).expect("a duration");
    assert_eq!(
        encode(&Value::Interval(mixed)),
        ForeignValue::Interval { months: -1, days: -15, micros: -3_661_500_000 }
    );
    round_trip(Value::Interval(mixed));
    assert_eq!(
        Value::from_foreign(&ForeignValue::Interval { months: 1, days: 45, micros: 1 }, order),
        Ok(Value::Interval(Duration::new(75 * 86400, 1000).expect("a duration")))
    );
    let hour = Duration::new(3600, 0).expect("a duration");
    round_trip(Value::Interval(hour));
}

#[test]
fn interval_below_a_microsecond_is_dropped() {
    let order = ByteOrder::native();
    let one_nanosecond = Duration::new(0, 1).expect("a duration");
    let encoded = encode(&Value::Interval(one_nanosecond));
    assert_eq!(encoded, ForeignValue::Interval { months: 0, days: 0, micros: 0 });
    assert_eq!(
        Value::from_foreign(&encoded, order),
        Ok(Value::Interval(Duration::new(0, 0).expect("a duration")))
    );
}

#[test]
fn decoded_interval_is_stable() {
    let order = ByteOrder::native();
    let foreign = ForeignValue::Interval { months: 1, days: 45, micros: 86_400_000_001 };
    let decoded = Value::from_foreign(&foreign, order).expect("decodes");
    let again = encode(&decoded);
    assert_eq!(again, ForeignValue::Interval { months: 2, days: 16, micros: 1 });
    assert_eq!(Value::from_foreign(&again, order), Ok(decoded));
}

#[test]
fn read_only_types_are_rejected() {
    let order = ByteOrder::native();
    let node = NodeVal::new(InternalID { table_id: 0, offset: 0 }, "Person".to_string());
    let rel = RelVal::new(
        InternalID { table_id: 0, offset: 0 },
        InternalID { table_id: 1, offset: 0 },
        "knows".to_string(),
    );
    assert_eq!(
        Value::Node(node.clone()).to_foreign(order),
        Err(Error::ReadOnlyType(LogicalType::Node))
    );
    assert_eq!(
        Value::Rel(rel.clone()).to_foreign(order),
        Err(Error::ReadOnlyType(LogicalType::Rel))
    );
    assert_eq!(
        Value::RecursiveRel { nodes: vec![], rels: vec![] }.to_foreign(order),
        Err(Error::ReadOnlyType(LogicalType::RecursiveRel))
    );
    assert_eq!(
        Value::RecursiveRel { nodes: vec![node.clone()], rels: vec![rel.clone()] }
            .to_foreign(order),
        Err(Error::ReadOnlyType(LogicalType::RecursiveRel))
    );
}

#[test]
fn read_only_types_are_rejected_inside_other_values() {
    let order = ByteOrder::native();
    let node = || Value::Node(NodeVal::new(InternalID { table_id: 0, offset: 0 }, "P".to_string()));
    let rel = || {
        Value::Rel(RelVal::new(
            InternalID { table_id: 0, offset: 0 },
            InternalID { table_id: 1, offset: 0 },
            "knows".to_string(),
        ))
    };
    assert_eq!(
        Value::List(LogicalType::Node, vec![Value::Int8(1), rel(), node()]).to_foreign(order),
        Err(Error::ReadOnlyType(LogicalType::Rel))
    );
    assert_eq!(
        Value::Struct(vec![("a".to_string(), node()), ("b".to_string(), rel())]).to_foreign(order),
        Err(Error::ReadOnlyType(LogicalType::Node))
    );
    assert_eq!(
        Value::MapOf((LogicalType::Rel, LogicalType::Node), vec![(rel(), node())])
            .to_foreign(order),
        Err(Error::ReadOnlyType(LogicalType::Rel))
    );
    assert_eq!(
        Value::Union { types: vec![], value: Box::new(node()) }.to_foreign(order),
        Err(Error::ReadOnlyType(LogicalType::Node))
    );
}

#[test]
fn compound_values_are_children_under_their_type() {
    let list = Value::List(LogicalType::Int64, vec![Value::Int64(0), Value::Int64(1)]);
    assert_eq!(
        encode(&list),
        ForeignValue::Nested {
            data_type: LogicalType::List { child_type: Box::new(LogicalType::Int64) }.to_foreign(),
            children: vec![ForeignValue::Int64(0), ForeignValue::Int64(1)],
        }
    );
    let array = Value::Array(LogicalType::Int64, vec![Value::Int64(7)]);
    match encode(&array) {
        ForeignValue::Nested { data_type, children } => {
            assert_eq!(data_type.id, LogicalTypeID::ARRAY);
            assert_eq!(data_type.num_elements, 1);
            assert_eq!(children, vec![ForeignValue::Int64(7)]);
        }
        other => panic!("not nested: {:?}", other),
    }
    let map = Value::MapOf(
        (LogicalType::String, LogicalType::Int64),
        vec![(Value::String("key".to_string()), Value::Int64(24))],
    );
    let entry_type = LogicalType::Struct {
        fields: vec![
            ("KEY".to_string(), LogicalType::String),
            ("VALUE".to_string(), LogicalType::Int64),
        ],
    };
    assert_eq!(
        encode(&map),
        ForeignValue::Nested {
            data_type: map.logical_type().to_foreign(),
            children: vec![ForeignValue::Nested {
                data_type: entry_type.to_foreign(),
                children: vec![ForeignValue::String("key".to_string()), ForeignValue::Int64(24)],
            }],
        }
    );
    assert_eq!(
        encode(&Value::Null(LogicalType::Int64)),
        ForeignValue::Null(ForeignType::plain(LogicalTypeID::INT64))
    );
}

#[test]
fn struct_names_come_from_the_type_by_position() {
    let order = ByteOrder::native();
    let data_type = LogicalType::Struct {
        fields: vec![
            ("first".to_string(), LogicalType::Int8),
            ("second".to_string(), LogicalType::Int8),
        ],
    }
    .to_foreign();
    let three = ForeignValue::Nested {
        data_type: data_type.clone(),
        children: vec![
            ForeignValue::Int8(1),
            ForeignValue::Int8(2),
            ForeignValue::Null(ForeignType {
                id: LogicalTypeID::LIST,
                child_type: None,
                num_elements: 0,
                fields: vec![],
            }),
        ],
    };
    assert!(three.is_well_formed());
    assert_eq!(
        Value::from_foreign(&three, order),
        Ok(Value::Struct(vec![
            ("first".to_string(), Value::Int8(1)),
            ("second".to_string(), Value::Int8(2)),
        ]))
    );
    let one = ForeignValue::Nested { data_type, children: vec![ForeignValue::Int8(1)] };
    assert_eq!(
        Value::from_foreign(&one, order),
        Ok(Value::Struct(vec![("first".to_string(), Value::Int8(1))]))
    );
}

#[test]
fn first_failure_fails_the_whole() {
    let order = ByteOrder::native();
    let list = ForeignValue::Nested {
        data_type: LogicalType::List { child_type: Box::new(LogicalType::Date) }.to_foreign(),
        children: vec![
            ForeignValue::Date(0),
            ForeignValue::Date(i32::MAX),
            ForeignValue::Date(i32::MIN),
        ],
    };
    assert_eq!(Value::from_foreign(&list, order), Err(ConversionError::Date(i32::MAX)));
}

#[test]
fn ill_formed_engine_values_are_refused() {
    let order = ByteOrder::native();
    let nested_under_scalar_type = ForeignValue::Nested {
        data_type: ForeignType::plain(LogicalTypeID::INT64),
        children: vec![],
    };
    assert!(!nested_under_scalar_type.is_well_formed());
    assert_eq!(Value::try_from_foreign(&nested_under_scalar_type, order), None);

    let union_type = LogicalType::Union { types: vec![("a".to_string(), LogicalType::Int8)] };
    let union_without_child =
        ForeignValue::Nested { data_type: union_type.to_foreign(), children: vec![] };
    assert!(!union_without_child.is_well_formed());

    let map_type = LogicalType::MapOf {
        key_type: Box::new(LogicalType::Int8),
        value_type: Box::new(LogicalType::Int8),
    };
    let map_with_scalar_entry = ForeignValue::Nested {
        data_type: map_type.to_foreign(),
        children: vec![ForeignValue::Int8(1)],
    };
    assert!(!map_with_scalar_entry.is_well_formed());

    let variant_with_unknown_tag = ForeignValue::Nested {
        data_type: ForeignType::plain(LogicalTypeID::RDF_VARIANT),
        children: vec![ForeignValue::UInt8(200), ForeignValue::Blob(vec![1])],
    };
    assert!(!variant_with_unknown_tag.is_well_formed());
    assert_eq!(Value::try_from_foreign(&variant_with_unknown_tag, order), None);

    let variant_with_list_tag = ForeignValue::Nested {
        data_type: ForeignType::plain(LogicalTypeID::RDF_VARIANT),
        children: vec![
            ForeignValue::UInt8(LogicalTypeID::LIST.repr()),
            ForeignValue::Blob(vec![1]),
        ],
    };
    assert!(!variant_with_list_tag.is_well_formed());

    let path_of_nulls = ForeignValue::RecursiveRel {
        nodes: Box::new(ForeignValue::Null(ForeignType::plain(LogicalTypeID::NODE))),
        rels: Box::new(ForeignValue::Null(ForeignType::plain(LogicalTypeID::REL))),
    };
    assert!(!path_of_nulls.is_well_formed());
}

#[test]
fn type_of_a_value() {
    assert_eq!(Value::Int8(1).logical_type(), LogicalType::Int8);
    assert_eq!(Value::Null(LogicalType::Blob).logical_type(), LogicalType::Blob);
    assert_eq!(
        Value::List(LogicalType::String, vec![]).logical_type(),
        LogicalType::List { child_type: Box::new(LogicalType::String) }
    );
    assert_eq!(
        Value::Array(LogicalType::Int64, vec![Value::Int64(1), Value::Int64(2)]).logical_type(),
        LogicalType::Array { child_type: Box::new(LogicalType::Int64), num_elements: 2 }
    );
    assert_eq!(
        Value::Struct(vec![
            ("NAME".to_string(), Value::String("Alice".to_string())),
            ("AGE".to_string(), Value::Int32(25)),
        ])
        .logical_type(),
        LogicalType::Struct {
            fields: vec![
                ("NAME".to_string(), LogicalType::String),
                ("AGE".to_string(), LogicalType::Int32),
            ],
        }
    );
    let types =
        vec![("Num".to_string(), LogicalType::Int8), ("duration".to_string(), LogicalType::Interval)];
    assert_eq!(
        Value::Union { types: types.clone(), value: Box::new(Value::Int8(-127)) }.logical_type(),
        LogicalType::Union { types }
    );
    assert_eq!(
        Value::MapOf((LogicalType::String, LogicalType::Int64), vec![]).logical_type(),
        LogicalType::MapOf {
            key_type: Box::new(LogicalType::String),
            value_type: Box::new(LogicalType::Int64),
        }
    );
}

#[test]
fn internal_id_order_is_by_table_then_offset() {
    let a = InternalID { table_id: 1, offset: 9 };
    let b = InternalID { table_id: 2, offset: 0 };
    let c = InternalID { table_id: 2, offset: 1 };
    assert!(a < b);
    assert!(b < c);
    assert!(a.precedes(&b));
    assert!(!b.precedes(&a));
    assert!(!a.precedes(&a));
    assert_eq!(a.cmp(&b), std::cmp::Ordering::Less);
    assert_eq!(a.partial_cmp(&a), Some(std::cmp::Ordering::Equal));
    assert_eq!(c.partial_cmp(&b), Some(std::cmp::Ordering::Greater));
    let from_pair: InternalID = (7, 3).into();
    assert_eq!(from_pair, InternalID { offset: 7, table_id: 3 });
}

#[test]
fn host_scalars_become_values() {
    assert_eq!(Value::from(-5i8), Value::Int8(-5));
    assert_eq!(Value::from(-5i16), Value::Int16(-5));
    assert_eq!(Value::from(-5i32), Value::Int32(-5));
    assert_eq!(Value::from(-5i64), Value::Int64(-5));
    assert_eq!(Value::from(5u8), Value::UInt8(5));
    assert_eq!(Value::from(5u16), Value::UInt16(5));
    assert_eq!(Value::from(5u32), Value::UInt32(5));
    assert_eq!(Value::from(5u64), Value::UInt64(5));
    assert_eq!(Value::from(i128::MIN), Value::Int128(i128::MIN));
    assert_eq!(Value::from("Alice".to_string()), Value::String("Alice".to_string()));
    assert_eq!(Value::from("Bob"), Value::String("Bob".to_string()));
    let list: Vec<Value> = vec!["Alice".into(), 25.into(), 1i64.into()];
    assert_eq!(
        list,
        vec![Value::String("Alice".to_string()), Value::Int32(25), Value::Int64(1)]
    );
}

#[test]
fn values_that_keep_to_their_types() {
    let strings = Value::List(
        LogicalType::String,
        vec![Value::String("Alice".to_string()), Value::Null(LogicalType::String)],
    );
    assert!(strings.is_well_typed());
    let mixed = Value::List(LogicalType::String, vec![Value::String("a".to_string()), Value::Int8(1)]);
    assert!(!mixed.is_well_typed());
    assert!(!Value::Array(LogicalType::Int8, vec![Value::Null(LogicalType::Any)]).is_well_typed());
    assert!(Value::List(LogicalType::Int8, vec![]).is_well_typed());
    let nested = Value::Struct(vec![("inner".to_string(), mixed)]);
    assert!(!nested.is_well_typed());
    assert!(Value::Struct(vec![("inner".to_string(), strings)]).is_well_typed());
    let map = |key: Value, value: Value| {
        Value::MapOf((LogicalType::String, LogicalType::Int64), vec![(key, value)])
    };
    assert!(map(Value::String("k".to_string()), Value::Int64(1)).is_well_typed());
    assert!(!map(Value::Int64(1), Value::Int64(1)).is_well_typed());
    assert!(!map(Value::String("k".to_string()), Value::Int32(1)).is_well_typed());
    let union = |value: Value| Value::Union {
        types: vec![
            ("Num".to_string(), LogicalType::Int8),
            ("duration".to_string(), LogicalType::Interval),
        ],
        value: Box::new(value),
    };
    assert!(union(Value::Int8(-127)).is_well_typed());
    assert!(union(Value::Null(LogicalType::Interval)).is_well_typed());
    assert!(!union(Value::Int16(-127)).is_well_typed());
    let mut node = NodeVal::new(InternalID { table_id: 0, offset: 0 }, "Person".to_string());
    assert!(node.is_well_typed());
    node.add_property(
        "bad".to_string(),
        Value::List(LogicalType::Int8, vec![Value::Bool(true)]),
    );
    assert!(!node.is_well_typed());
    assert!(!Value::RecursiveRel { nodes: vec![node], rels: vec![] }.is_well_typed());
}

#[test]
fn type_equality_follows_structure() {
    let list = |t: LogicalType| LogicalType::List { child_type: Box::new(t) };
    assert_eq!(list(LogicalType::Int8), list(LogicalType::Int8));
    assert_ne!(list(LogicalType::Int8), list(LogicalType::Int16));
    assert_ne!(
        list(LogicalType::Int8),
        LogicalType::Array { child_type: Box::new(LogicalType::Int8), num_elements: 0 }
    );
    assert_ne!(
        LogicalType::Array { child_type: Box::new(LogicalType::Int8), num_elements: 1 },
        LogicalType::Array { child_type: Box::new(LogicalType::Int8), num_elements: 2 }
    );
    let named = |names: &[&str]| -> Vec<(String, LogicalType)> {
        names.iter().map(|n| (n.to_string(), LogicalType::Int8)).collect()
    };
    assert_eq!(
        LogicalType::Struct { fields: named(&["a", "b"]) },
        LogicalType::Struct { fields: named(&["a", "b"]) }
    );
    assert_ne!(
        LogicalType::Struct { fields: named(&["a", "b"]) },
        LogicalType::Struct { fields: named(&["a"]) }
    );
    assert_ne!(
        LogicalType::Struct { fields: named(&["a", "b"]) },
        LogicalType::Union { types: named(&["a", "b"]) }
    );
    assert_ne!(
        LogicalType::Union { types: named(&["a", "b"]) },
        LogicalType::Union { types: named(&["b", "a"]) }
    );
    assert_eq!(LogicalType::Node, LogicalType::Node);
    assert_ne!(LogicalType::Node, LogicalType::Rel);
    assert_ne!(LogicalType::Timestamp, LogicalType::TimestampTz);
    let map = |k: LogicalType, v: LogicalType| LogicalType::MapOf {
        key_type: Box::new(k),
        value_type: Box::new(v),
    };
    assert_eq!(map(LogicalType::Int8, LogicalType::Bool), map(LogicalType::Int8, LogicalType::Bool));
    assert_ne!(map(LogicalType::Int8, LogicalType::Bool), map(LogicalType::Bool, LogicalType::Int8));
}

#[test]
fn values_that_the_engine_holds_exactly() {
    let exact = [
        Value::Int8(1),
        Value::Null(LogicalType::Node),
        Value::Date(Date::from_unix_days(2_932_896).expect("a date")),
        Value::Interval(Duration::new(3600, 1000).expect("a duration")),
        Value::Timestamp(instant(1, 1000)),
        Value::TimestampTz(instant(-1, -1000)),
        Value::TimestampNs(instant(1, 1)),
        Value::TimestampMs(instant(-1, -1_000_000)),
        Value::TimestampSec(instant(-1, 0)),
        Value::RDFVariant(RDFVariant::Timestamp(instant(1, 1000))),
        Value::List(LogicalType::Int8, vec![Value::Interval(Duration::new(1, 0).expect("a duration"))]),
    ];
    for value in exact {
        assert!(value.is_held_exactly(), "{:?}", value);
        assert!(value.survives_round_trip(ByteOrder::LittleEndian), "{:?}", value);
        assert!(value.survives_round_trip(ByteOrder::BigEndian), "{:?}", value);
        round_trip(value);
    }
    let node = NodeVal::new(InternalID { table_id: 0, offset: 0 }, "Person".to_string());
    let inexact = [
        Value::Interval(Duration::new(0, 1).expect("a duration")),
        Value::Interval(Duration::new(0, -999).expect("a duration")),
        Value::Interval(Duration::new((i32::MAX as i64 + 1) * 30 * 86400, 0).expect("a duration")),
        Value::Timestamp(instant(1, 1)),
        Value::TimestampTz(instant(-1, -1)),
        Value::TimestampNs(instant(9_223_372_037, 0)),
        Value::TimestampMs(instant(1, 1000)),
        Value::TimestampSec(instant(1, 1_000_000)),
        Value::RDFVariant(RDFVariant::Timestamp(instant(1, 1))),
        Value::RDFVariant(RDFVariant::Interval(Duration::new(0, 1).expect("a duration"))),
        Value::Node(node.clone()),
        Value::Struct(vec![("t".to_string(), Value::TimestampSec(instant(0, 1)))]),
        Value::MapOf(
            (LogicalType::Int8, LogicalType::Node),
            vec![(Value::Int8(1), Value::Node(node))],
        ),
        Value::Union { types: vec![], value: Box::new(Value::Timestamp(instant(0, 1))) },
    ];
    for value in inexact {
        assert!(!value.is_held_exactly(), "{:?}", value);
        assert!(!value.survives_round_trip(ByteOrder::LittleEndian), "{:?}", value);
        assert!(!value.survives_round_trip(ByteOrder::BigEndian), "{:?}", value);
        for order in [ByteOrder::LittleEndian, ByteOrder::BigEndian] {
            if let Ok(sent) = value.to_foreign(order) {
                assert!(sent.is_well_formed());
                assert_ne!(Value::from_foreign(&sent, order), Ok(value.clone()));
            }
        }
    }
    assert!(Value::Interval(Duration::new(i32::MAX as i64 * 30 * 86400, 0).expect("a duration"))
        .is_held_exactly());
}

#[test]
fn value_equality_follows_structure() {
    let a = Value::Struct(vec![
        ("x".to_string(), Value::List(LogicalType::Int8, vec![Value::Int8(1), Value::Int8(2)])),
        ("y".to_string(), Value::Blob(vec![1, 2, 3])),
    ]);
    assert_eq!(a, a.clone());
    let reordered = Value::Struct(vec![
        ("y".to_string(), Value::Blob(vec![1, 2, 3])),
        ("x".to_string(), Value::List(LogicalType::Int8, vec![Value::Int8(1), Value::Int8(2)])),
    ]);
    assert_ne!(a, reordered);
    assert_ne!(Value::Int8(1), Value::Int16(1));
    assert_ne!(Value::Int8(1), Value::UInt8(1));
    assert_ne!(Value::Blob(vec![1]), Value::Blob(vec![1, 2]));
    assert_ne!(Value::Blob(vec![1, 3]), Value::Blob(vec![1, 2]));
    assert_ne!(
        Value::List(LogicalType::Int8, vec![]),
        Value::List(LogicalType::Int16, vec![])
    );
    assert_ne!(
        Value::List(LogicalType::Int8, vec![]),
        Value::Array(LogicalType::Int8, vec![])
    );
    assert_ne!(Value::Null(LogicalType::Int8), Value::Null(LogicalType::Int16));
    assert_eq!(Value::Float(f32::NAN.to_bits()), Value::Float(f32::NAN.to_bits()));
    assert_ne!(Value::Double(0.0f64.to_bits()), Value::Double((-0.0f64).to_bits()));
    assert_ne!(Value::Timestamp(instant(1, 0)), Value::TimestampTz(instant(1, 0)));
    assert_ne!(Value::Timestamp(instant(1, 0)), Value::Timestamp(instant(1, 1)));
    let node = |name: &str| {
        NodeVal::with_properties(
            InternalID { table_id: 0, offset: 0 },
            "Person".to_string(),
            vec![("name".to_string(), Value::String(name.to_string()))],
        )
    };
    assert_eq!(node("Alice"), node("Alice"));
    assert_ne!(node("Alice"), node("Bob"));
    assert_eq!(Value::Node(node("Alice")), Value::Node(node("Alice")));
    assert_ne!(
        Value::RecursiveRel { nodes: vec![node("Alice")], rels: vec![] },
        Value::RecursiveRel { nodes: vec![], rels: vec![] }
    );
    let rel = |label: &str| {
        RelVal::new(
            InternalID { table_id: 0, offset: 0 },
            InternalID { table_id: 0, offset: 1 },
            label.to_string(),
        )
    };
    assert_eq!(rel("knows"), rel("knows"));
    assert_ne!(rel("knows"), rel("likes"));
    assert_eq!(RDFVariant::Int64(1), RDFVariant::Int64(1));
    assert_ne!(RDFVariant::Int64(1), RDFVariant::UInt64(1));
    let union = |name: &str| Value::Union {
        types: vec![(name.to_string(), LogicalType::Int8)],
        value: Box::new(Value::Int8(1)),
    };
    assert_eq!(union("a"), union("a"));
    assert_ne!(union("a"), union("b"));
}
