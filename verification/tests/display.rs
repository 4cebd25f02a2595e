use kuzu::{
    Date, DateTime, Duration, FloatBits, InternalID, LogicalType, NodeVal, RDFVariant, RelVal,
    Value,
};

fn text(value: Value) -> String {
    value.display().expect("a value without floating-point numbers has a text")
}

fn parse_uuid(text: &str) -> u128 {
    uuid::Uuid::parse_str(text).expect("a UUID").as_u128()
}

fn alice() -> NodeVal {
    let mut node = NodeVal::new(InternalID { table_id: 0, offset: 0 }, "Person".to_string());
    node.add_property("name".to_string(), Value::String("Alice".to_string()));
    node.add_property("age".to_string(), Value::Int64(25));
    node
}

#[test]
fn display_list() {
    let value = Value::List(
        LogicalType::String,
        vec![Value::String("Alice".to_string()), Value::String("Bob".to_string())],
    );
    assert_eq!(text(value), "[Alice,Bob]");
}

#[test]
fn display_list_empty() {
    assert_eq!(text(Value::List(LogicalType::String, vec![])), "[]");
}

#[test]
fn display_array() {
    let value = Value::Array(
        LogicalType::String,
        vec![Value::String("Alice".to_string()), Value::String("Bob".to_string())],
    );
    assert_eq!(text(value), "[Alice,Bob]");
}

#[test]
fn display_int8() {
    assert_eq!(text(Value::Int8(0)), "0");
}

#[test]
fn display_int16() {
    assert_eq!(text(Value::Int16(1)), "1");
}

#[test]
fn display_int32() {
    assert_eq!(text(Value::Int32(2)), "2");
}

#[test]
fn display_int64() {
    assert_eq!(text(Value::Int64(3)), "3");
}

#[test]
fn display_uint8() {
    assert_eq!(text(Value::UInt8(0)), "0");
}

#[test]
fn display_uint16() {
    assert_eq!(text(Value::UInt16(1)), "1");
}

#[test]
fn display_uint32() {
    assert_eq!(text(Value::UInt32(2)), "2");
}

#[test]
fn display_uint64() {
    assert_eq!(text(Value::UInt64(3)), "3");
}

#[test]
fn display_integers_at_their_limits() {
    assert_eq!(text(Value::Int8(-128)), "-128");
    assert_eq!(text(Value::Int64(i64::MIN)), "-9223372036854775808");
    assert_eq!(text(Value::UInt64(u64::MAX)), "18446744073709551615");
    assert_eq!(text(Value::Int128(i128::MIN)), "-170141183460469231731687303715884105728");
    assert_eq!(text(Value::Int128(i128::MAX)), "170141183460469231731687303715884105727");
    assert_eq!(text(Value::Int32(-1050)), "-1050");
    assert_eq!(text(Value::Int32(10)), "10");
}

#[test]
fn display_date() {
    let date = Date::from_calendar_date(2023, 6, 13).expect("a date");
    assert_eq!(text(Value::Date(date)), "2023-06-13");
    assert_eq!(date.display(), "2023-06-13");
    let theirs = time::Date::from_calendar_date(2023, time::Month::June, 13).expect("a date");
    assert_eq!(date.display(), theirs.to_string());
}

#[test]
fn display_string() {
    assert_eq!(text(Value::String("Hello World".to_string())), "Hello World");
}

#[test]
fn display_bool() {
    assert_eq!(text(Value::Bool(false)), "False");
    assert_eq!(text(Value::Bool(true)), "True");
}

#[test]
fn display_null() {
    let value = Value::Null(LogicalType::List {
        child_type: Box::new(LogicalType::Array {
            child_type: Box::new(LogicalType::Int16),
            num_elements: 3,
        }),
    });
    assert_eq!(text(value), "");
}

#[test]
fn display_struct() {
    let value = Value::Struct(vec![
        ("NAME".to_string(), Value::String("Alice".to_string())),
        ("AGE".to_string(), Value::Int32(25)),
    ]);
    assert_eq!(text(value), "{NAME: Alice, AGE: 25}");
    assert_eq!(text(Value::Struct(vec![])), "{}");
}

#[test]
fn display_internal_id() {
    assert_eq!(text(Value::InternalID(InternalID { table_id: 0, offset: 0 })), "0:0");
    assert_eq!(text(Value::InternalID(InternalID { table_id: 3, offset: 17 })), "3:17");
    assert_eq!(InternalID { table_id: 3, offset: 17 }.display(), "3:17");
}

#[test]
fn display_map() {
    let value = Value::MapOf(
        (LogicalType::String, LogicalType::Int64),
        vec![(Value::String("key".to_string()), Value::Int64(24))],
    );
    assert_eq!(text(value), "{key=24}");
    let two = Value::MapOf(
        (LogicalType::Int8, LogicalType::Bool),
        vec![(Value::Int8(1), Value::Bool(true)), (Value::Int8(2), Value::Bool(false))],
    );
    assert_eq!(text(two), "{1=True, 2=False}");
}

#[test]
fn display_union() {
    let value = Value::Union {
        types: vec![
            ("Num".to_string(), LogicalType::Int8),
            ("duration".to_string(), LogicalType::Interval),
        ],
        value: Box::new(Value::Int8(-127)),
    };
    assert_eq!(text(value), "-127");
}

#[test]
fn display_uuid() {
    let value = Value::UUID(parse_uuid("00000000-0000-0000-0000-ffff00000000"));
    assert_eq!(text(value), "00000000-0000-0000-0000-ffff00000000");
}

#[test]
fn display_uuid2() {
    let value = Value::UUID(parse_uuid("a0eebc99-9c0b-4ef8-bb6d-6bb9bd380a11"));
    assert_eq!(text(value), "a0eebc99-9c0b-4ef8-bb6d-6bb9bd380a11");
}

#[test]
fn display_uuid3() {
    let value = Value::UUID(parse_uuid("a1a2a3a4b1b2c1c2d1d2d3d4d5d6d7d8"));
    assert_eq!(text(value), "a1a2a3a4-b1b2-c1c2-d1d2-d3d4d5d6d7d8");
    assert_eq!(text(Value::UUID(0xa1a2a3a4b1b2c1c2d1d2d3d4d5d6d7d8)), "a1a2a3a4-b1b2-c1c2-d1d2-d3d4d5d6d7d8");
}

#[test]
fn display_rdf_int() {
    assert_eq!(text(Value::RDFVariant(RDFVariant::Int64(1))), "1");
    assert_eq!(RDFVariant::Bool(true).display(), Ok("True".to_string()));
    assert_eq!(RDFVariant::String("x y".to_string()).display(), Ok("x y".to_string()));
    assert_eq!(RDFVariant::Blob(b"foo".to_vec()).display(), Ok("[66, 6f, 6f]".to_string()));
}

#[test]
fn display_node() {
    assert_eq!(text(Value::Node(alice())), "(label:Person, 0:0, {name:Alice,age:25})");
    assert_eq!(alice().display(), Ok("(label:Person, 0:0, {name:Alice,age:25})".to_string()));
    let bare = NodeVal::new(InternalID { table_id: 1, offset: 2 }, "Thing".to_string());
    assert_eq!(text(Value::Node(bare)), "(label:Thing, 1:2, {})");
}

#[test]
fn display_rel() {
    let mut rel = RelVal::new(
        InternalID { table_id: 0, offset: 0 },
        InternalID { table_id: 0, offset: 1 },
        "knows".to_string(),
    );
    assert_eq!(text(Value::Rel(rel.clone())), "(0:0)-[label:knows, {}]->(0:1)");
    rel.add_property("since".to_string(), Value::Int64(2020));
    rel.add_property("close".to_string(), Value::Bool(true));
    assert_eq!(
        rel.display(),
        Ok("(0:0)-[label:knows, {since:2020,close:True}]->(0:1)".to_string())
    );
}

#[test]
fn display_recursive_rel() {
    let rel = |from: u64, to: u64| {
        RelVal::new(
            InternalID { table_id: 0, offset: from },
            InternalID { table_id: 0, offset: to },
            "knows".to_string(),
        )
    };
    let value = Value::RecursiveRel { nodes: vec![alice()], rels: vec![rel(1, 0), rel(0, 2)] };
    assert_eq!(
        text(value),
        "{_NODES: [(label:Person, 0:0, {name:Alice,age:25})], \
         _RELS: [(0:1)-[label:knows, {}]->(0:0),(0:0)-[label:knows, {}]->(0:2)]}"
    );
    assert_eq!(
        text(Value::RecursiveRel { nodes: vec![], rels: vec![] }),
        "{_NODES: [], _RELS: []}"
    );
}

#[test]
fn display_blob() {
    assert_eq!(text(Value::Blob(b"Hello".to_vec())), "[48, 65, 6c, 6c, 6f]");
    assert_eq!(text(Value::Blob(vec![])), "[]");
    assert_eq!(text(Value::Blob(vec![0, 9, 10, 15, 16, 255])), "[0, 9, a, f, 10, ff]");
}

#[test]
fn display_timestamp() {
    let instant = DateTime::from_unix_nanos(1686655530i128 * 1_000_000_000).expect("an instant");
    let theirs = time::OffsetDateTime::from_unix_timestamp(1686655530).expect("an instant");
    assert_eq!(instant.display(), theirs.to_string());
    assert_eq!(text(Value::Timestamp(instant)), "2023-06-13 11:25:30.0 +00:00:00");
    assert_eq!(text(Value::TimestampSec(instant)), "2023-06-13 11:25:30.0 +00:00:00");
    let fine = DateTime::from_unix_nanos(-1).expect("an instant");
    assert_eq!(text(Value::TimestampNs(fine)), "1969-12-31 23:59:59.999999999 +00:00:00");
}

#[test]
fn display_interval() {
    let ten_weeks = Duration::new(10 * 7 * 86400, 0).expect("a duration");
    assert_eq!(text(Value::Interval(ten_weeks)), "70d");
    assert_eq!(ten_weeks.display(), time::Duration::weeks(10).to_string());
    let mixed = Duration::new(-(86400 + 3661), -5_000_000).expect("a duration");
    assert_eq!(mixed.display(), time::Duration::new(-(86400 + 3661), -5_000_000).to_string());
    assert_eq!(mixed.display(), "-1d1h1m1s5ms");
    assert_eq!(Duration::new(0, 0).expect("a duration").display(), "0s");
}

#[test]
fn display_float_asks_for_its_text() {
    let four = 4f32.to_bits();
    let half = 0.5f64.to_bits();
    assert_eq!(Value::Float(four).display(), Err(FloatBits::Single(four)));
    assert_eq!(Value::Double(half).display(), Err(FloatBits::Double(half)));
    assert_eq!(RDFVariant::Double(half).display(), Err(FloatBits::Double(half)));
    let list = Value::List(
        LogicalType::Double,
        vec![Value::Int8(1), Value::Double(half), Value::Float(four)],
    );
    assert_eq!(list.display(), Err(FloatBits::Double(half)));
    let mut table = vec![(FloatBits::Double(half), "0.5".to_string())];
    assert_eq!(list.display_with(&table), Err(FloatBits::Single(four)));
    table.push((FloatBits::Single(four), "4".to_string()));
    table.push((FloatBits::Single(four), "four".to_string()));
    assert_eq!(list.display_with(&table), Ok("[1,0.5,4]".to_string()));
    assert_eq!(Value::Int8(1).display_with(&table), Ok("1".to_string()));
    assert_eq!(
        kuzu::display::find_float_text(&table, FloatBits::Single(four)),
        Ok("4".to_string())
    );
    assert_eq!(
        kuzu::display::find_float_text(&table, FloatBits::Double(four as u64)),
        Err(FloatBits::Double(four as u64))
    );
}

#[test]
fn display_nested_values() {
    let value = Value::Struct(vec![
        (
            "list".to_string(),
            Value::List(LogicalType::Int8, vec![Value::Int8(1), Value::Int8(2), Value::Int8(3)]),
        ),
        ("none".to_string(), Value::Null(LogicalType::Any)),
        (
            "map".to_string(),
            Value::MapOf(
                (LogicalType::String, LogicalType::Bool),
                vec![(Value::String("k".to_string()), Value::Bool(true))],
            ),
        ),
    ]);
    assert_eq!(text(value), "{list: [1,2,3], none: , map: {k=True}}");
}

#[test]
fn display_integers_as_std_does() {
    let samples: [i128; 13] = [
        0,
        9,
        10,
        11,
        99,
        100,
        -1,
        -9,
        -10,
        1_000_000_007,
        -170141183460469231731687303715884105728,
        170141183460469231731687303715884105727,
        -18446744073709551616,
    ];
    for x in samples {
        assert_eq!(text(Value::Int128(x)), x.to_string());
    }
    for x in [0u64, 7, 10, 1234567890123456789, u64::MAX] {
        assert_eq!(text(Value::UInt64(x)), x.to_string());
    }
}

#[test]
fn display_blob_as_std_does() {
    let all: Vec<u8> = (0..=255u8).collect();
    assert_eq!(text(Value::Blob(all.clone())), format!("{:x?}", all));
    assert_eq!(text(Value::Blob(vec![7])), format!("{:x?}", vec![7u8]));
}
