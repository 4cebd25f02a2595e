use kuzu::connection::{encode_params, execute_outcome, prepare_outcome};
use kuzu::query_result::{decode_column_types, decode_row, row_is_well_formed};
use kuzu::{
    ByteOrder, CSVOptions, DateTime, Error, ForeignType, ForeignValue, InternalID, LogicalType,
    LogicalTypeID, NodeVal, RelVal, ResultCursor, SystemConfig, Value,
};

fn engine_string(text: &str) -> ForeignValue {
    ForeignValue::String(text.to_string())
}

fn engine_list(element: LogicalType, children: Vec<ForeignValue>) -> ForeignValue {
    ForeignValue::Nested {
        data_type: LogicalType::List { child_type: Box::new(element) }.to_foreign(),
        children,
    }
}

fn engine_person(table: u64, offset: u64, name: &str) -> ForeignValue {
    ForeignValue::Node {
        id: Some(InternalID { table_id: table, offset }),
        label: "Person".to_string(),
        properties: vec![
            ("name".to_string(), engine_string(name)),
            ("age".to_string(), ForeignValue::Int64(25)),
        ],
    }
}

fn engine_knows(from: u64, to: u64) -> ForeignValue {
    ForeignValue::Rel {
        src: Some(InternalID { table_id: 0, offset: from }),
        dst: InternalID { table_id: 0, offset: to },
        label: "knows".to_string(),
        properties: vec![],
    }
}

fn rows(raw: &Vec<Vec<ForeignValue>>) -> Vec<Vec<Value>> {
    let order = ByteOrder::native();
    let mut cursor = ResultCursor::new();
    let mut out = vec![];
    let mut next = 0;
    while cursor.has_next() {
        if cursor.advance(next < raw.len()) {
            assert!(row_is_well_formed(&raw[next]));
            out.push(decode_row(&raw[next], order).expect("the row decodes"));
            next += 1;
        }
    }
    assert_eq!(cursor.rows_read, raw.len() as u64);
    out
}

#[test]
fn test_query_result() {
    let raw = vec![vec![engine_string("Alice"), ForeignValue::Int16(25)]];
    for result in rows(&raw) {
        assert_eq!(result.len(), 2);
        assert_eq!(result[0], Value::String("Alice".to_string()));
        assert_eq!(result[1], Value::Int16(25));
    }
}

#[test]
fn test_params() {
    let params = vec![("age".to_string(), Value::Int16(25))];
    let sent = encode_params(&params, ByteOrder::native()).expect("the parameters encode");
    assert_eq!(sent, vec![ForeignValue::Int16(25)]);
    for result in rows(&vec![vec![engine_string("Alice")]]) {
        assert_eq!(result.len(), 1);
        assert_eq!(result[0], Value::String("Alice".to_string()));
    }
}

#[test]
fn test_params_invalid_type() {
    let params = vec![("age".to_string(), Value::String("25".to_string()))];
    let sent = encode_params(&params, ByteOrder::native()).expect("the parameters encode");
    assert_eq!(sent, vec![engine_string("25")]);
    let result = execute_outcome(
        false,
        "Parameter age has data type STRING but expects INT16.".to_string(),
    )
    .expect_err("Age should be an int16!");
    assert_eq!(
        result.message(),
        "Query execution failed: Parameter age has data type STRING but expects INT16."
    );
}

#[test]
fn params_with_a_read_only_value_are_refused() {
    let node = NodeVal::new(InternalID { table_id: 0, offset: 0 }, "Person".to_string());
    let params = vec![
        ("name".to_string(), Value::String("Bob".to_string())),
        ("node".to_string(), Value::Node(node)),
        ("path".to_string(), Value::RecursiveRel { nodes: vec![], rels: vec![] }),
    ];
    assert_eq!(
        encode_params(&params, ByteOrder::native()),
        Err(Error::ReadOnlyType(LogicalType::Node))
    );
    assert_eq!(encode_params(&vec![], ByteOrder::native()), Ok(vec![]));
}

#[test]
fn test_invalid_query() {
    let message = "Parser exception: \
Invalid input <MATCH (a:Person RETURN>: expected rule oC_SingleQuery (line: 1, offset: 16)
\"MATCH (a:Person RETURN a.name AS NAME, a.age AS AGE;\"
                 ^^^^^^";
    let result = prepare_outcome(false, message.to_string())
        .expect_err("Invalid syntax in query should produce an error");
    assert_eq!(result, Error::FailedPreparedStatement(message.to_string()));
    assert_eq!(
        result.message(),
        "Query execution failed: Parser exception: \
Invalid input <MATCH (a:Person RETURN>: expected rule oC_SingleQuery (line: 1, offset: 16)
\"MATCH (a:Person RETURN a.name AS NAME, a.age AS AGE;\"
                 ^^^^^^"
    );
    assert_eq!(prepare_outcome(true, "ignored".to_string()), Ok(()));
    assert_eq!(execute_outcome(true, "ignored".to_string()), Ok(()));
}

#[test]
fn test_database_read_only() {
    let config = SystemConfig::default().read_only(true);
    assert!(config.read_only);
    assert_eq!(config, SystemConfig { read_only: true, ..SystemConfig::default() });
    let result = execute_outcome(
        false,
        "Connection exception: Cannot execute write operations in a read-only database!"
            .to_string(),
    )
    .expect_err("Write query should produce an error on a read-only DB");
    assert_eq!(
        result.message(),
        "Query execution failed: Connection exception: Cannot execute write operations in a read-only database!"
    );
}

#[test]
fn create_database_no_compression() {
    let config = SystemConfig::default().enable_compression(false);
    assert!(!config.enable_compression);
    assert_eq!(config, SystemConfig { enable_compression: false, ..SystemConfig::default() });
}

#[test]
fn test_database_max_size() {
    let config = SystemConfig::default().max_db_size(1 << 32);
    assert_eq!(config.max_db_size, 1 << 32);
    assert_eq!(SystemConfig::default().max_db_size(0).max_db_size, 0);
    assert_eq!(SystemConfig::default().max_db_size, u64::from(u32::MAX));
}

#[test]
fn test_database_auto_checkpoint() {
    let config = SystemConfig::default().auto_checkpoint(false);
    assert!(!config.auto_checkpoint);
    assert_eq!(config.checkpoint_threshold, -1);
    assert!(SystemConfig::default().auto_checkpoint);
}

#[test]
fn test_database_checkpoint_threshold() {
    let config = SystemConfig::default().checkpoint_threshold(1234);
    assert_eq!(config.checkpoint_threshold, 1234);
    assert_eq!(config, SystemConfig { checkpoint_threshold: 1234, ..SystemConfig::default() });
}

#[test]
fn system_config_builders() {
    let config = SystemConfig::default();
    assert_eq!(
        config,
        SystemConfig {
            buffer_pool_size: 0,
            max_num_threads: 0,
            enable_compression: true,
            read_only: false,
            max_db_size: 4294967295,
            auto_checkpoint: true,
            checkpoint_threshold: -1,
        }
    );
    let tuned = config.buffer_pool_size(1 << 20).max_num_threads(5);
    assert_eq!(
        tuned,
        SystemConfig { buffer_pool_size: 1 << 20, max_num_threads: 5, ..SystemConfig::default() }
    );
}

#[test]
fn test_csv() {
    let options = CSVOptions::default().delimiter(',');
    assert_eq!(options, CSVOptions { delimiter: ',', escape_character: '"', newline: '\n' });
    assert_eq!(options.codes(), (44, 34, 10));
    let other = CSVOptions::default().delimiter('\t').escape_character('\\').newline('\r');
    assert_eq!(other, CSVOptions { delimiter: '\t', escape_character: '\\', newline: '\r' });
    assert_eq!(other.codes(), (9, 92, 13));
    assert_eq!(CSVOptions::default().delimiter('\u{e9}').codes().0, -23);
    assert_eq!(CSVOptions::default().delimiter('\u{20ac}').codes().0, ('\u{20ac}' as u32) as i8);
}

#[test]
fn test_query_result_metadata() {
    let types = vec![
        ForeignType::plain(LogicalTypeID::STRING),
        ForeignType::plain(LogicalTypeID::INT64),
    ];
    assert_eq!(decode_column_types(&types), vec![LogicalType::String, LogicalType::Int64]);
}

#[test]
fn test_list_get() {
    let raw = vec![vec![engine_list(
        LogicalType::String,
        vec![engine_string("Alice"), engine_string("Bob")],
    )]];
    for result in rows(&raw) {
        assert_eq!(result.len(), 1);
        assert_eq!(
            result[0],
            Value::List(
                LogicalType::String,
                vec![Value::String("Alice".to_string()), Value::String("Bob".to_string())]
            )
        );
    }
}

#[test]
fn test_timestamp() {
    let order = ByteOrder::native();
    let timestamp = DateTime::from_unix_nanos(1_313_839_530i128 * 1_000_000_000).expect("an instant");
    let theirs = time::OffsetDateTime::from_unix_timestamp_nanos(timestamp.unix_nanos())
        .expect("an instant");
    assert_eq!((theirs.year(), theirs.month(), theirs.day()), (2011, time::Month::August, 20));
    assert_eq!((theirs.hour(), theirs.minute(), theirs.second()), (11, 25, 30));
    let sent = Value::Timestamp(timestamp).to_foreign(order).expect("encodes");
    assert_eq!(sent, ForeignValue::Timestamp(1_313_839_530_000_000));
    let result = match Value::from_foreign(&sent, order).expect("decodes") {
        Value::Timestamp(timestamp) => timestamp,
        _ => panic!("Wrong type returned!"),
    };
    assert_eq!(result, timestamp);
}

#[test]
fn test_node() {
    let result = rows(&vec![vec![engine_person(0, 0, "Alice")]]).remove(0);
    assert_eq!(
        result[0],
        Value::Node(NodeVal::with_properties(
            InternalID { table_id: 0, offset: 0 },
            "Person".to_string(),
            vec![
                ("name".to_string(), Value::String("Alice".to_string())),
                ("age".to_string(), Value::Int64(25))
            ]
        ))
    );
    match &result[0] {
        Value::Node(node) => {
            assert_eq!(node.get_node_id(), &InternalID { table_id: 0, offset: 0 });
            assert_eq!(node.get_label_name(), "Person");
            assert_eq!(node.get_properties().len(), 2);
        }
        other => panic!("not a node: {:?}", other),
    }
}

#[test]
fn node_without_identifier_is_null() {
    let order = ByteOrder::native();
    let detached = ForeignValue::Node {
        id: None,
        label: "Person".to_string(),
        properties: vec![("broken".to_string(), ForeignValue::Date(i32::MAX))],
    };
    assert!(detached.is_well_formed());
    assert_eq!(Value::from_foreign(&detached, order), Ok(Value::Null(LogicalType::Node)));
    let dangling = ForeignValue::Rel {
        src: None,
        dst: InternalID { table_id: 0, offset: 0 },
        label: "knows".to_string(),
        properties: vec![],
    };
    assert_eq!(Value::from_foreign(&dangling, order), Ok(Value::Null(LogicalType::Rel)));
}

#[test]
fn test_rel() {
    let order = ByteOrder::native();
    let engine = ForeignValue::Rel {
        src: Some(InternalID { table_id: 0, offset: 1 }),
        dst: InternalID { table_id: 0, offset: 2 },
        label: "Follows".to_string(),
        properties: vec![("since".to_string(), ForeignValue::Date(0))],
    };
    let decoded = Value::from_foreign(&engine, order).expect("decodes");
    match &decoded {
        Value::Rel(rel) => {
            assert_eq!(rel.get_src_node(), &InternalID { table_id: 0, offset: 1 });
            assert_eq!(rel.get_dst_node(), &InternalID { table_id: 0, offset: 2 });
            assert_eq!(rel.get_label_name(), "Follows");
            assert_eq!(rel.get_properties().len(), 1);
            assert_eq!(rel.get_properties()[0].0, "since");
        }
        other => panic!("not a relationship: {:?}", other),
    }
    let mut expected = RelVal::new(
        InternalID { table_id: 0, offset: 1 },
        InternalID { table_id: 0, offset: 2 },
        "Follows".to_string(),
    );
    expected.add_property(
        "since".to_string(),
        Value::Date(kuzu::Date::from_unix_days(0).expect("the epoch")),
    );
    assert_eq!(decoded, Value::Rel(expected));
}

#[test]
fn test_recursive_rel() {
    let path = ForeignValue::RecursiveRel {
        nodes: Box::new(engine_list(LogicalType::Node, vec![engine_person(0, 1, "Bob")])),
        rels: Box::new(engine_list(LogicalType::Rel, vec![engine_knows(0, 1), engine_knows(1, 2)])),
    };
    let result = rows(&vec![vec![path, engine_string("Eve")]]).remove(0);
    assert_eq!(result[1], Value::String("Eve".to_string()));
    assert_eq!(
        result[0],
        Value::RecursiveRel {
            nodes: vec![NodeVal::with_properties(
                (1, 0).into(),
                "Person".into(),
                vec![
                    ("name".into(), Value::String("Bob".to_string())),
                    ("age".into(), Value::Int64(25))
                ]
            ),],
            rels: vec![
                RelVal::new((0, 0).into(), (1, 0).into(), "knows".to_string()),
                RelVal::new((1, 0).into(), (2, 0).into(), "knows".to_string()),
            ],
        }
    );
}

#[test]
fn test_null() {
    let result = rows(&vec![vec![ForeignValue::Null(ForeignType::plain(LogicalTypeID::STRING))]]);
    let result = &result[0][0];
    assert_eq!(result, &Value::Null(LogicalType::String));
}

#[test]
fn test_serial() {
    let types = vec![
        ForeignType::plain(LogicalTypeID::STRING),
        ForeignType::plain(LogicalTypeID::SERIAL),
    ];
    assert_eq!(decode_column_types(&types), vec![LogicalType::String, LogicalType::Serial]);
    let raw = vec![
        vec![engine_string("Bob"), ForeignValue::Int64(0)],
        vec![engine_string("Alice"), ForeignValue::Int64(1)],
    ];
    let results: Vec<(Value, Value)> =
        rows(&raw).into_iter().map(|mut x| (x.pop().unwrap(), x.pop().unwrap())).collect();
    assert_eq!(
        results,
        vec![
            (Value::Int64(0), Value::String("Bob".to_string())),
            (Value::Int64(1), Value::String("Alice".to_string()))
        ]
    );
}

#[test]
fn test_union() {
    let types =
        vec![("num".to_string(), LogicalType::Int64), ("str".to_string(), LogicalType::String)];
    let engine_type = ForeignType {
        id: LogicalTypeID::UNION,
        child_type: None,
        num_elements: 0,
        fields: vec![
            ("tag".to_string(), ForeignType::plain(LogicalTypeID::INT64)),
            ("num".to_string(), ForeignType::plain(LogicalTypeID::INT64)),
            ("str".to_string(), ForeignType::plain(LogicalTypeID::STRING)),
        ],
    };
    assert_eq!(
        decode_column_types(&vec![engine_type.clone()]),
        vec![LogicalType::Union { types: types.clone() }],
    );
    let raw = vec![
        vec![ForeignValue::Nested {
            data_type: engine_type.clone(),
            children: vec![ForeignValue::Int64(1)],
        }],
        vec![ForeignValue::Nested { data_type: engine_type, children: vec![engine_string("aa")] }],
    ];
    let results: Vec<Value> = rows(&raw).into_iter().map(|mut x| x.pop().unwrap()).collect();
    assert_eq!(
        results,
        vec![
            Value::Union { types: types.clone(), value: Box::new(Value::Int64(1)) },
            Value::Union { types: types.clone(), value: Box::new(Value::String("aa".to_string())) },
        ]
    );
}

#[test]
fn cursor_is_forward_only_and_stays_exhausted() {
    let mut cursor = ResultCursor::new();
    assert!(cursor.has_next());
    assert!(cursor.advance(true));
    assert!(cursor.advance(true));
    assert_eq!(cursor, ResultCursor { rows_read: 2, exhausted: false });
    assert!(!cursor.advance(false));
    assert_eq!(cursor, ResultCursor { rows_read: 2, exhausted: true });
    assert!(!cursor.has_next());
    assert!(!cursor.advance(true));
    assert!(!cursor.advance(false));
    assert_eq!(cursor, ResultCursor { rows_read: 2, exhausted: true });
    let mut full = ResultCursor { rows_read: u64::MAX, exhausted: false };
    assert!(full.advance(true));
    assert_eq!(full.rows_read, u64::MAX);
}

#[test]
fn a_failing_column_fails_the_row() {
    let order = ByteOrder::native();
    let row = vec![
        ForeignValue::Int8(1),
        ForeignValue::TimestampSec(i64::MAX),
        ForeignValue::Date(i32::MAX),
    ];
    assert!(row_is_well_formed(&row));
    assert_eq!(decode_row(&row, order), Err(kuzu::ConversionError::TimestampSec(i64::MAX)));
    let ill_formed = vec![
        ForeignValue::Int8(1),
        ForeignValue::Nested { data_type: ForeignType::plain(LogicalTypeID::ANY), children: vec![] },
    ];
    assert!(!row_is_well_formed(&ill_formed));
    assert_eq!(decode_row(&vec![], order), Ok(vec![]));
}
