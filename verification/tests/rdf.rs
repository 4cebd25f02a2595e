use kuzu::{
    ByteOrder, ConversionError, Date, DateTime, Duration, ForeignType, ForeignValue, LogicalType,
    LogicalTypeID, RDFVariant, Value,
};

fn variant_value(tag: LogicalTypeID, payload: Vec<u8>) -> ForeignValue {
    ForeignValue::Nested {
        data_type: ForeignType::plain(LogicalTypeID::RDF_VARIANT),
        children: vec![ForeignValue::UInt8(tag.repr()), ForeignValue::Blob(payload)],
    }
}

fn samples() -> Vec<RDFVariant> {
    vec![
        RDFVariant::Bool(true),
        RDFVariant::Int8(-1),
        RDFVariant::Int16(-2),
        RDFVariant::Int32(-3),
        RDFVariant::Int64(-4),
        RDFVariant::UInt8(5),
        RDFVariant::UInt16(6),
        RDFVariant::UInt32(7),
        RDFVariant::UInt64(8),
        RDFVariant::Double(10.1f64.to_bits()),
        RDFVariant::Float(11.2f32.to_bits()),
        RDFVariant::Date(Date::from_calendar_date(2024, 2, 7).expect("a date")),
        RDFVariant::Interval(Duration::new(5 * 86400, 0).expect("a duration")),
        RDFVariant::Timestamp(
            DateTime::from_unix_nanos(1_707_309_120i128 * 1_000_000_000).expect("an instant"),
        ),
        RDFVariant::String("Long string that doesn't fit in ku_string_t".to_string()),
        RDFVariant::Blob(b"foo".to_vec()),
    ]
}

#[test]
fn rdf_variant_int64() {
    for order in [ByteOrder::LittleEndian, ByteOrder::BigEndian, ByteOrder::native()] {
        let encoded = Value::RDFVariant(RDFVariant::Int64(1)).to_foreign(order).expect("encodes");
        assert!(encoded.is_well_formed());
        assert_eq!(
            Value::from_foreign(&encoded, order),
            Ok(Value::RDFVariant(RDFVariant::Int64(1)))
        );
    }
    let native = Value::RDFVariant(RDFVariant::Int64(1))
        .to_foreign(ByteOrder::native())
        .expect("encodes");
    assert_eq!(native, variant_value(LogicalTypeID::INT64, 1i64.to_ne_bytes().to_vec()));
    assert_eq!(
        Value::RDFVariant(RDFVariant::Int64(1)).logical_type(),
        LogicalType::RDFVariant
    );
}

#[test]
fn rdf_variant_unsupported_tag() {
    let order = ByteOrder::native();
    for repr in 0..=255u8 {
        let value = ForeignValue::Nested {
            data_type: ForeignType::plain(LogicalTypeID::RDF_VARIANT),
            children: vec![ForeignValue::UInt8(repr), ForeignValue::Blob(vec![0; 16])],
        };
        let supported = match LogicalTypeID::from_repr(repr) {
            Some(LogicalTypeID::BOOL)
            | Some(LogicalTypeID::INT8)
            | Some(LogicalTypeID::UINT8)
            | Some(LogicalTypeID::INTERVAL)
            | Some(LogicalTypeID::STRING)
            | Some(LogicalTypeID::BLOB) => true,
            _ => false,
        };
        assert_eq!(value.is_well_formed(), supported, "tag {}", repr);
        assert_eq!(Value::try_from_foreign(&value, order).is_some(), supported);
    }
    let node_tag = variant_value(LogicalTypeID::NODE, vec![]);
    assert!(!node_tag.is_well_formed());
    assert_eq!(Value::try_from_foreign(&node_tag, order), None);
}

#[test]
fn rdf_payload_bytes() {
    let le = ByteOrder::LittleEndian;
    let be = ByteOrder::BigEndian;
    assert_eq!(RDFVariant::Bool(true).payload(le), vec![1]);
    assert_eq!(RDFVariant::Bool(false).payload(be), vec![0]);
    assert_eq!(RDFVariant::Int8(-1).payload(le), vec![0xff]);
    assert_eq!(RDFVariant::Int8(-128).payload(be), vec![0x80]);
    assert_eq!(RDFVariant::UInt8(200).payload(le), vec![200]);
    assert_eq!(RDFVariant::Int16(-2).payload(le), vec![0xfe, 0xff]);
    assert_eq!(RDFVariant::Int16(258).payload(le), vec![2, 1]);
    assert_eq!(RDFVariant::Int16(258).payload(be), vec![1, 2]);
    assert_eq!(RDFVariant::UInt16(0xabcd).payload(be), vec![0xab, 0xcd]);
    assert_eq!(RDFVariant::Int32(-3).payload(le), (-3i32).to_le_bytes().to_vec());
    assert_eq!(RDFVariant::Int32(i32::MIN).payload(be), i32::MIN.to_be_bytes().to_vec());
    assert_eq!(RDFVariant::UInt32(0x01020304).payload(le), vec![4, 3, 2, 1]);
    assert_eq!(RDFVariant::Int64(i64::MIN).payload(le), i64::MIN.to_le_bytes().to_vec());
    assert_eq!(RDFVariant::Int64(-4).payload(be), (-4i64).to_be_bytes().to_vec());
    assert_eq!(RDFVariant::UInt64(u64::MAX).payload(be), vec![0xff; 8]);
    assert_eq!(
        RDFVariant::Double(10.1f64.to_bits()).payload(le),
        10.1f64.to_le_bytes().to_vec()
    );
    assert_eq!(
        RDFVariant::Float(11.2f32.to_bits()).payload(be),
        11.2f32.to_be_bytes().to_vec()
    );
    let date = Date::from_calendar_date(2024, 2, 7).expect("a date");
    assert_eq!(RDFVariant::Date(date).payload(le), 19760i32.to_le_bytes().to_vec());
    let instant = DateTime::from_unix_nanos(1_707_309_120_000_001_999).expect("an instant");
    assert_eq!(
        RDFVariant::Timestamp(instant).payload(le),
        1_707_309_120_000_001i64.to_le_bytes().to_vec()
    );
    let interval = Duration::new(45 * 86400 + 1, 0).expect("a duration");
    let mut expected = 1i32.to_be_bytes().to_vec();
    expected.extend(15i32.to_be_bytes());
    expected.extend(1_000_000i64.to_be_bytes());
    assert_eq!(RDFVariant::Interval(interval).payload(be), expected);
    assert_eq!(RDFVariant::String("h\u{e9}".to_string()).payload(le), vec![b'h', 0xc3, 0xa9]);
    assert_eq!(RDFVariant::Blob(vec![9, 8, 7]).payload(be), vec![9, 8, 7]);
}

#[test]
fn rdf_payload_in_native_order() {
    let native = ByteOrder::native();
    assert_eq!(RDFVariant::Int16(1).payload(native), 1i16.to_ne_bytes().to_vec());
    assert_eq!(RDFVariant::UInt32(0x01020304).payload(native), 0x01020304u32.to_ne_bytes().to_vec());
    assert_eq!(RDFVariant::Int64(-4).payload(native), (-4i64).to_ne_bytes().to_vec());
}

#[test]
fn rdf_tags() {
    let expected = [
        LogicalTypeID::BOOL,
        LogicalTypeID::INT8,
        LogicalTypeID::INT16,
        LogicalTypeID::INT32,
        LogicalTypeID::INT64,
        LogicalTypeID::UINT8,
        LogicalTypeID::UINT16,
        LogicalTypeID::UINT32,
        LogicalTypeID::UINT64,
        LogicalTypeID::DOUBLE,
        LogicalTypeID::FLOAT,
        LogicalTypeID::DATE,
        LogicalTypeID::INTERVAL,
        LogicalTypeID::TIMESTAMP,
        LogicalTypeID::STRING,
        LogicalTypeID::BLOB,
    ];
    for (sample, tag) in samples().iter().zip(expected) {
        assert_eq!(sample.tag(), tag);
    }
}

#[test]
fn test_rdf() {
    let order = ByteOrder::native();
    let mut interval = 0i32.to_ne_bytes().to_vec();
    interval.extend(5i32.to_ne_bytes());
    interval.extend(0i64.to_ne_bytes());
    let from_engine = vec![
        variant_value(LogicalTypeID::BOOL, vec![1]),
        variant_value(LogicalTypeID::INT8, vec![0xff]),
        variant_value(LogicalTypeID::INT16, (-2i16).to_ne_bytes().to_vec()),
        variant_value(LogicalTypeID::INT32, (-3i32).to_ne_bytes().to_vec()),
        variant_value(LogicalTypeID::INT64, (-4i64).to_ne_bytes().to_vec()),
        variant_value(LogicalTypeID::UINT8, vec![5]),
        variant_value(LogicalTypeID::UINT16, 6u16.to_ne_bytes().to_vec()),
        variant_value(LogicalTypeID::UINT32, 7u32.to_ne_bytes().to_vec()),
        variant_value(LogicalTypeID::UINT64, 8u64.to_ne_bytes().to_vec()),
        variant_value(LogicalTypeID::DOUBLE, 10.1f64.to_ne_bytes().to_vec()),
        variant_value(LogicalTypeID::FLOAT, 11.2f32.to_ne_bytes().to_vec()),
        variant_value(LogicalTypeID::DATE, 19760i32.to_ne_bytes().to_vec()),
        variant_value(LogicalTypeID::INTERVAL, interval),
        variant_value(
            LogicalTypeID::TIMESTAMP,
            1_707_309_120_000_000i64.to_ne_bytes().to_vec(),
        ),
        variant_value(
            LogicalTypeID::STRING,
            b"Long string that doesn't fit in ku_string_t".to_vec(),
        ),
        variant_value(LogicalTypeID::BLOB, b"foo".to_vec()),
    ];
    assert_eq!(
        kuzu::query_result::decode_column_types(&vec![ForeignType::plain(
            LogicalTypeID::RDF_VARIANT
        )]),
        vec![LogicalType::RDFVariant]
    );
    let results: Vec<Value> = from_engine
        .iter()
        .map(|value| {
            assert!(value.is_well_formed());
            Value::from_foreign(value, order).expect("decodes")
        })
        .collect();
    let expected: Vec<Value> = samples().into_iter().map(Value::RDFVariant).collect();
    assert_eq!(results, expected);
}

#[test]
fn test_rdf_prepare() {
    for order in [ByteOrder::LittleEndian, ByteOrder::BigEndian] {
        let values: Vec<Value> = samples().into_iter().map(Value::RDFVariant).collect();
        let mut results = vec![];
        for value in &values {
            let sent = value.to_foreign(order).expect("encodes");
            assert!(sent.is_well_formed());
            results.push(Value::from_foreign(&sent, order).expect("decodes"));
        }
        assert_eq!(results, values);
    }
}

#[test]
fn rdf_decode_errors() {
    let order = ByteOrder::LittleEndian;
    assert_eq!(
        RDFVariant::from_payload(LogicalTypeID::DATE, i32::MAX.to_le_bytes().to_vec(), order),
        Err(ConversionError::Date(i32::MAX))
    );
    assert_eq!(
        RDFVariant::from_payload(LogicalTypeID::TIMESTAMP, i64::MIN.to_le_bytes().to_vec(), order),
        Err(ConversionError::Timestamp(i64::MIN))
    );
    assert_eq!(
        RDFVariant::from_payload(LogicalTypeID::STRING, vec![b'a', 0xff, b'b'], order),
        Err(ConversionError::String(vec![b'a', 0xff, b'b']))
    );
    assert_eq!(
        Value::from_foreign(&variant_value(LogicalTypeID::STRING, vec![0xc3]), order),
        Err(ConversionError::String(vec![0xc3]))
    );
    assert_eq!(
        RDFVariant::from_payload(LogicalTypeID::STRING, vec![b'h', 0xc3, 0xa9], order),
        Ok(RDFVariant::String("h\u{e9}".to_string()))
    );
    assert_eq!(
        RDFVariant::from_payload(LogicalTypeID::BLOB, vec![0xff, 0xfe], order),
        Ok(RDFVariant::Blob(vec![0xff, 0xfe]))
    );
}

#[test]
fn rdf_decode_reads_in_the_order_given() {
    let bytes = vec![0x12, 0x34];
    assert_eq!(
        RDFVariant::from_payload(LogicalTypeID::UINT16, bytes.clone(), ByteOrder::LittleEndian),
        Ok(RDFVariant::UInt16(0x3412))
    );
    assert_eq!(
        RDFVariant::from_payload(LogicalTypeID::UINT16, bytes, ByteOrder::BigEndian),
        Ok(RDFVariant::UInt16(0x1234))
    );
    assert_eq!(
        RDFVariant::from_payload(LogicalTypeID::BOOL, vec![2, 0], ByteOrder::BigEndian),
        Ok(RDFVariant::Bool(true))
    );
    assert_eq!(
        RDFVariant::from_payload(LogicalTypeID::INT8, vec![0x80], ByteOrder::BigEndian),
        Ok(RDFVariant::Int8(-128))
    );
    let mut interval = 1i32.to_le_bytes().to_vec();
    interval.extend((-2i32).to_le_bytes());
    interval.extend(3_600_000_000i64.to_le_bytes());
    assert_eq!(
        RDFVariant::from_payload(LogicalTypeID::INTERVAL, interval, ByteOrder::LittleEndian),
        Ok(RDFVariant::Interval(Duration::new(28 * 86400 + 3600, 0).expect("a duration")))
    );
}

#[test]
fn rdf_interval_of_an_hour() {
    for order in [ByteOrder::LittleEndian, ByteOrder::BigEndian] {
        let hour = Value::RDFVariant(RDFVariant::Interval(
            Duration::new(3600, 0).expect("a duration"),
        ));
        let sent = hour.to_foreign(order).expect("encodes");
        assert_eq!(Value::from_foreign(&sent, order), Ok(hour));
    }
}

#[test]
fn rdf_payload_under_a_tag_number() {
    let order = ByteOrder::LittleEndian;
    assert_eq!(
        RDFVariant::try_from_payload(LogicalTypeID::INT64.repr(), vec![1, 0, 0, 0, 0, 0, 0, 0], order),
        Some(Ok(RDFVariant::Int64(1)))
    );
    assert_eq!(
        RDFVariant::try_from_payload(LogicalTypeID::DATE.repr(), vec![0xff, 0xff, 0xff, 0x7f], order),
        Some(Err(ConversionError::Date(i32::MAX)))
    );
    assert_eq!(RDFVariant::try_from_payload(LogicalTypeID::INT64.repr(), vec![1, 0], order), None);
    assert_eq!(RDFVariant::try_from_payload(LogicalTypeID::BOOL.repr(), vec![], order), None);
    assert_eq!(RDFVariant::try_from_payload(LogicalTypeID::NODE.repr(), vec![1], order), None);
    assert_eq!(RDFVariant::try_from_payload(LogicalTypeID::INT128.repr(), vec![0; 16], order), None);
    assert_eq!(RDFVariant::try_from_payload(1, vec![1], order), None);
    assert_eq!(RDFVariant::try_from_payload(255, vec![1], order), None);
    assert!(RDFVariant::payload_fits(LogicalTypeID::INTERVAL, &vec![0; 16]));
    assert!(!RDFVariant::payload_fits(LogicalTypeID::INTERVAL, &vec![0; 15]));
}

#[test]
fn byte_order_of_the_first_byte_of_one() {
    assert_eq!(ByteOrder::of_first_byte_of_one(1), ByteOrder::LittleEndian);
    assert_eq!(ByteOrder::of_first_byte_of_one(0), ByteOrder::BigEndian);
    assert_eq!(ByteOrder::native(), ByteOrder::of_first_byte_of_one(1u16.to_ne_bytes()[0]));
    assert_eq!(RDFVariant::UInt16(1).payload(ByteOrder::of_first_byte_of_one(1))[0], 1);
    assert_eq!(RDFVariant::UInt16(1).payload(ByteOrder::of_first_byte_of_one(0))[0], 0);
}
