use kuzu::{ForeignType, LogicalType, LogicalTypeID};

fn type_round_trip(rust_type: LogicalType) {
    let typ = rust_type.to_foreign();
    assert!(typ.is_well_formed());
    let new_rust_type = LogicalType::from_foreign(&typ);
    assert_eq!(new_rust_type, rust_type);
    assert_eq!(LogicalType::try_from_foreign(&typ), Some(rust_type));
}

#[test]
fn convert_list_type() {
    type_round_trip(LogicalType::List { child_type: Box::new(LogicalType::String) });
}

#[test]
fn convert_array_type() {
    type_round_trip(LogicalType::Array {
        child_type: Box::new(LogicalType::Int64),
        num_elements: 3,
    });
}

#[test]
fn convert_int8_type() {
    type_round_trip(LogicalType::Int8);
}

#[test]
fn convert_int16_type() {
    type_round_trip(LogicalType::Int16);
}

#[test]
fn convert_int32_type() {
    type_round_trip(LogicalType::Int32);
}

#[test]
fn convert_int64_type() {
    type_round_trip(LogicalType::Int64);
}

#[test]
fn convert_uint8_type() {
    type_round_trip(LogicalType::UInt8);
}

#[test]
fn convert_uint16_type() {
    type_round_trip(LogicalType::UInt16);
}

#[test]
fn convert_uint32_type() {
    type_round_trip(LogicalType::UInt32);
}

#[test]
fn convert_uint64_type() {
    type_round_trip(LogicalType::UInt64);
}

#[test]
fn convert_int128_type() {
    type_round_trip(LogicalType::Int128);
}

#[test]
fn convert_uuid_type() {
    type_round_trip(LogicalType::UUID);
}

#[test]
fn convert_float_type() {
    type_round_trip(LogicalType::Float);
}

#[test]
fn convert_double_type() {
    type_round_trip(LogicalType::Double);
}

#[test]
fn convert_timestamp_type() {
    type_round_trip(LogicalType::Timestamp);
}

#[test]
fn convert_timestamp_tz_type() {
    type_round_trip(LogicalType::TimestampTz);
}

#[test]
fn convert_timestamp_ns_type() {
    type_round_trip(LogicalType::TimestampNs);
}

#[test]
fn convert_timestamp_ms_type() {
    type_round_trip(LogicalType::TimestampMs);
}

#[test]
fn convert_timestamp_sec_type() {
    type_round_trip(LogicalType::TimestampSec);
}

#[test]
fn convert_date_type() {
    type_round_trip(LogicalType::Date);
}

#[test]
fn convert_interval_type() {
    type_round_trip(LogicalType::Interval);
}

#[test]
fn convert_string_type() {
    type_round_trip(LogicalType::String);
}

#[test]
fn convert_blob_type() {
    type_round_trip(LogicalType::Blob);
}

#[test]
fn convert_bool_type() {
    type_round_trip(LogicalType::Bool);
}

#[test]
fn convert_struct_type() {
    type_round_trip(LogicalType::Struct {
        fields: vec![("NAME".to_string(), LogicalType::String)],
    });
}

#[test]
fn convert_node_type() {
    type_round_trip(LogicalType::Node);
}

#[test]
fn convert_internal_id_type() {
    type_round_trip(LogicalType::InternalID);
}

#[test]
fn convert_rel_type() {
    type_round_trip(LogicalType::Rel);
}

#[test]
fn convert_recursive_rel_type() {
    type_round_trip(LogicalType::RecursiveRel);
}

#[test]
fn convert_map_type() {
    type_round_trip(LogicalType::MapOf {
        key_type: Box::new(LogicalType::Interval),
        value_type: Box::new(LogicalType::Rel),
    });
}

#[test]
fn convert_union_type() {
    type_round_trip(LogicalType::Union {
        types: vec![
            ("Num".to_string(), LogicalType::Int8),
            ("duration".to_string(), LogicalType::Interval),
            ("string".to_string(), LogicalType::String),
        ],
    });
}

#[test]
fn convert_rdf_type() {
    type_round_trip(LogicalType::RDFVariant);
}

#[test]
fn convert_any_and_serial_type() {
    type_round_trip(LogicalType::Any);
    type_round_trip(LogicalType::Serial);
}

#[test]
fn union_type_has_leading_tag_member() {
    let typ = LogicalType::Union {
        types: vec![
            ("num".to_string(), LogicalType::Int64),
            ("str".to_string(), LogicalType::String),
        ],
    }
    .to_foreign();
    assert_eq!(typ.id, LogicalTypeID::UNION);
    assert_eq!(typ.child_type, None);
    let names: Vec<&str> = typ.fields.iter().map(|f| f.0.as_str()).collect();
    assert_eq!(names, vec!["tag", "num", "str"]);
    assert_eq!(typ.fields[0].1, ForeignType::plain(LogicalTypeID::INT64));
    assert_eq!(typ.fields[2].1, ForeignType::plain(LogicalTypeID::STRING));
}

#[test]
fn map_type_has_key_value_struct_as_element() {
    let typ = LogicalType::MapOf {
        key_type: Box::new(LogicalType::String),
        value_type: Box::new(LogicalType::Int64),
    }
    .to_foreign();
    assert_eq!(typ.id, LogicalTypeID::MAP);
    let entry = typ.child_type.expect("a map has an element type");
    assert_eq!(entry.id, LogicalTypeID::STRUCT);
    assert_eq!(
        entry.fields,
        vec![
            ("KEY".to_string(), ForeignType::plain(LogicalTypeID::STRING)),
            ("VALUE".to_string(), ForeignType::plain(LogicalTypeID::INT64)),
        ]
    );
}

#[test]
fn struct_field_order_is_significant() {
    let ab = LogicalType::Struct {
        fields: vec![("a".to_string(), LogicalType::Int8), ("b".to_string(), LogicalType::Int8)],
    };
    let ba = LogicalType::Struct {
        fields: vec![("b".to_string(), LogicalType::Int8), ("a".to_string(), LogicalType::Int8)],
    };
    assert_ne!(ab, ba);
    assert_ne!(LogicalType::from_foreign(&ab.to_foreign()), ba);
    assert_eq!(ab.clone(), ab);
}

#[test]
fn ill_formed_engine_types_are_refused() {
    let list_without_element = ForeignType {
        id: LogicalTypeID::LIST,
        child_type: None,
        num_elements: 0,
        fields: vec![],
    };
    assert!(!list_without_element.is_well_formed());
    assert_eq!(LogicalType::try_from_foreign(&list_without_element), None);

    let map_with_one_member = ForeignType {
        id: LogicalTypeID::MAP,
        child_type: Some(Box::new(ForeignType {
            id: LogicalTypeID::STRUCT,
            child_type: None,
            num_elements: 0,
            fields: vec![("KEY".to_string(), ForeignType::plain(LogicalTypeID::STRING))],
        })),
        num_elements: 0,
        fields: vec![],
    };
    assert!(!map_with_one_member.is_well_formed());
    assert_eq!(LogicalType::try_from_foreign(&map_with_one_member), None);

    let struct_with_bad_member = ForeignType {
        id: LogicalTypeID::STRUCT,
        child_type: None,
        num_elements: 0,
        fields: vec![("x".to_string(), list_without_element)],
    };
    assert!(!struct_with_bad_member.is_well_formed());
}

#[test]
fn type_ids_have_the_engine_numbers() {
    assert_eq!(LogicalTypeID::ANY.repr(), 0);
    assert_eq!(LogicalTypeID::NODE.repr(), 10);
    assert_eq!(LogicalTypeID::REL.repr(), 11);
    assert_eq!(LogicalTypeID::RECURSIVE_REL.repr(), 12);
    assert_eq!(LogicalTypeID::SERIAL.repr(), 13);
    assert_eq!(LogicalTypeID::BOOL.repr(), 22);
    assert_eq!(LogicalTypeID::INT64.repr(), 23);
    assert_eq!(LogicalTypeID::UINT8.repr(), 30);
    assert_eq!(LogicalTypeID::INT128.repr(), 31);
    assert_eq!(LogicalTypeID::DOUBLE.repr(), 32);
    assert_eq!(LogicalTypeID::FLOAT.repr(), 33);
    assert_eq!(LogicalTypeID::DATE.repr(), 34);
    assert_eq!(LogicalTypeID::TIMESTAMP.repr(), 35);
    assert_eq!(LogicalTypeID::INTERVAL.repr(), 36);
    assert_eq!(LogicalTypeID::INTERNAL_ID.repr(), 40);
    assert_eq!(LogicalTypeID::STRING.repr(), 50);
    assert_eq!(LogicalTypeID::BLOB.repr(), 51);
    assert_eq!(LogicalTypeID::STRUCT.repr(), 53);
    assert_eq!(LogicalTypeID::MAP.repr(), 54);
    assert_eq!(LogicalTypeID::UNION.repr(), 55);
}

#[test]
fn type_ids_are_read_back_from_their_numbers() {
    let mut known = 0;
    for repr in 0..=255u8 {
        match LogicalTypeID::from_repr(repr) {
            Some(id) => {
                known += 1;
                assert_eq!(id.repr(), repr);
            }
            None => {}
        }
    }
    assert_eq!(known, 34);
    assert_eq!(LogicalTypeID::from_repr(1), None);
    assert_eq!(LogicalTypeID::from_repr(255), None);
}

#[test]
fn logical_type_ids() {
    assert_eq!(LogicalType::Int64.id(), LogicalTypeID::INT64);
    assert_eq!(
        LogicalType::List { child_type: Box::new(LogicalType::Any) }.id(),
        LogicalTypeID::LIST
    );
    assert_eq!(LogicalType::RDFVariant.id(), LogicalTypeID::RDF_VARIANT);
    assert_eq!(LogicalType::Struct { fields: vec![] }.name(), "Struct");
}
