use wingb::error::OrbiterError;
use wingb::orbiter::DatabaseOrbiter;
use wingb::table::{
    build_table, normalize_row, normalize_value, NativeRow, NativeValue, NormalizedValue, Table,
};

fn names(list: &[&str]) -> Vec<String> {
    list.iter().map(|n| n.to_string()).collect()
}

fn row(columns: &[&str], values: Vec<NativeValue>) -> NativeRow {
    NativeRow { columns: names(columns), values }
}

fn to_json(value: &NormalizedValue) -> serde_json::Value {
    match value {
        NormalizedValue::Null => serde_json::Value::Null,
        NormalizedValue::Bool(b) => serde_json::Value::from(*b),
        NormalizedValue::Integer(n) => serde_json::Value::from(*n),
        NormalizedValue::Single(bits) => serde_json::Value::from(f32::from_bits(*bits)),
        NormalizedValue::Double(bits) => serde_json::Value::from(f64::from_bits(*bits)),
        NormalizedValue::Text(s) => serde_json::Value::from(s.as_str()),
        NormalizedValue::Blob(b) => serde_json::Value::from(b.clone()),
    }
}

#[test]
fn two_rows_of_id_and_name() {
    let rows = vec![
        row(&["id", "name"], vec![NativeValue::Integer(1), NativeValue::Text("Alice".to_string())]),
        row(&["id", "name"], vec![NativeValue::Integer(2), NativeValue::Text("Bob".to_string())]),
    ];
    let table = build_table("SELECT id, name FROM customer".to_string(), &rows).unwrap();
    assert_eq!(table.head, vec!["id", "name"]);
    assert_eq!(
        table.body,
        vec![
            vec![NormalizedValue::Integer(1), NormalizedValue::Text("Alice".to_string())],
            vec![NormalizedValue::Integer(2), NormalizedValue::Text("Bob".to_string())],
        ]
    );
    assert_eq!(table.sql_query, "SELECT id, name FROM customer");
    let body: Vec<serde_json::Value> = table
        .body
        .iter()
        .map(|r| serde_json::Value::from(r.iter().map(to_json).collect::<Vec<_>>()))
        .collect();
    assert_eq!(serde_json::to_string(&body).unwrap(), "[[1,\"Alice\"],[2,\"Bob\"]]");
}

#[test]
fn no_rows_give_empty_table_with_query() {
    let table = build_table("SELECT 1 WHERE FALSE".to_string(), &Vec::new()).unwrap();
    assert_eq!(table.head, Vec::<String>::new());
    assert_eq!(table.body, Vec::<Vec<NormalizedValue>>::new());
    assert_eq!(table.sql_query, "SELECT 1 WHERE FALSE");
    let through = DatabaseOrbiter::normalized_table("SELECT 2".to_string(), Ok(Vec::new())).unwrap();
    assert_eq!(
        through,
        Table { head: Vec::new(), body: Vec::new(), sql_query: "SELECT 2".to_string() }
    );
}

#[test]
fn unsupported_kind_fails_the_whole_table() {
    let rows = vec![
        row(&["id", "tags"], vec![NativeValue::BigInt(1), NativeValue::Text("a".to_string())]),
        row(&["id", "tags"], vec![NativeValue::BigInt(2), NativeValue::Other]),
        row(&["id", "tags"], vec![NativeValue::BigInt(3), NativeValue::Null]),
    ];
    assert_eq!(build_table("q".to_string(), &rows), Err(OrbiterError::UnsupportedValueKind));
    assert_eq!(
        DatabaseOrbiter::normalized_table("q".to_string(), Ok(rows)),
        Err(OrbiterError::UnsupportedValueKind)
    );
    assert_eq!(normalize_value(&NativeValue::Other), Err(OrbiterError::UnsupportedValueKind));
    assert_eq!(
        normalize_row(&vec![NativeValue::Null, NativeValue::Other]),
        Err(OrbiterError::UnsupportedValueKind)
    );
}

#[test]
fn failed_execution_keeps_the_database_words() {
    assert_eq!(
        DatabaseOrbiter::normalized_table(
            "SELEC 1".to_string(),
            Err("syntax error at or near \"SELEC\"".to_string())
        ),
        Err(OrbiterError::QueryExecutionError("syntax error at or near \"SELEC\"".to_string()))
    );
}

#[test]
fn each_covered_kind_has_its_variant() {
    assert_eq!(normalize_value(&NativeValue::Null), Ok(NormalizedValue::Null));
    assert_eq!(normalize_value(&NativeValue::Bool(true)), Ok(NormalizedValue::Bool(true)));
    assert_eq!(normalize_value(&NativeValue::Bool(false)), Ok(NormalizedValue::Bool(false)));
    assert_eq!(normalize_value(&NativeValue::SmallInt(-7)), Ok(NormalizedValue::Integer(-7)));
    assert_eq!(
        normalize_value(&NativeValue::SmallInt(i16::MIN)),
        Ok(NormalizedValue::Integer(-32768))
    );
    assert_eq!(
        normalize_value(&NativeValue::Integer(i32::MAX)),
        Ok(NormalizedValue::Integer(2147483647))
    );
    assert_eq!(
        normalize_value(&NativeValue::BigInt(i64::MIN)),
        Ok(NormalizedValue::Integer(i64::MIN))
    );
    assert_eq!(
        normalize_value(&NativeValue::Real(1.5f32.to_bits())),
        Ok(NormalizedValue::Single(0x3fc0_0000))
    );
    assert_eq!(
        normalize_value(&NativeValue::Double((-2.25f64).to_bits())),
        Ok(NormalizedValue::Double(0xc002_0000_0000_0000))
    );
    assert_eq!(
        normalize_value(&NativeValue::Text("héllo".to_string())),
        Ok(NormalizedValue::Text("héllo".to_string()))
    );
    assert_eq!(
        normalize_value(&NativeValue::Blob(vec![0, 255, 7])),
        Ok(NormalizedValue::Blob(vec![0, 255, 7]))
    );
    assert_eq!(normalize_value(&NativeValue::Blob(Vec::new())), Ok(NormalizedValue::Blob(Vec::new())));
}

#[test]
fn normalized_values_survive_a_serialized_form() {
    let values = vec![
        NormalizedValue::Null,
        NormalizedValue::Bool(true),
        NormalizedValue::Integer(i64::MAX),
        NormalizedValue::Integer(-1),
        NormalizedValue::Double(0.1f64.to_bits()),
        NormalizedValue::Single(0.5f32.to_bits()),
        NormalizedValue::Text("quote \" and \n".to_string()),
        NormalizedValue::Blob(vec![1, 2, 250]),
    ];
    for value in &values {
        let text = serde_json::to_string(&to_json(value)).unwrap();
        let back: serde_json::Value = serde_json::from_str(&text).unwrap();
        match value {
            NormalizedValue::Null => assert!(back.is_null()),
            NormalizedValue::Bool(b) => assert_eq!(back.as_bool(), Some(*b)),
            NormalizedValue::Integer(n) => assert_eq!(back.as_i64(), Some(*n)),
            NormalizedValue::Single(bits) => {
                assert_eq!(back.as_f64().map(|f| (f as f32).to_bits()), Some(*bits))
            }
            NormalizedValue::Double(bits) => assert_eq!(back.as_f64().map(f64::to_bits), Some(*bits)),
            NormalizedValue::Text(s) => assert_eq!(back.as_str(), Some(s.as_str())),
            NormalizedValue::Blob(bytes) => {
                let items: Vec<u64> =
                    back.as_array().unwrap().iter().map(|b| b.as_u64().unwrap()).collect();
                let expected: Vec<u64> = bytes.iter().map(|b| u64::from(*b)).collect();
                assert_eq!(items, expected);
            }
        }
    }
}

#[test]
fn table_has_r_rows_of_c_values() {
    let columns = ["a", "b", "c"];
    let mut rows = Vec::new();
    for i in 0..4i64 {
        rows.push(row(
            &columns,
            vec![NativeValue::BigInt(i), NativeValue::Null, NativeValue::Bool(i % 2 == 0)],
        ));
    }
    let table = build_table("q".to_string(), &rows).unwrap();
    assert_eq!(table.head.len(), 3);
    assert_eq!(table.body.len(), 4);
    for r in &table.body {
        assert_eq!(r.len(), 3);
    }
    assert_eq!(
        table.body[3],
        vec![NormalizedValue::Integer(3), NormalizedValue::Null, NormalizedValue::Bool(false)]
    );
}

#[test]
fn head_comes_from_the_first_row() {
    let rows = vec![
        row(&["first"], vec![NativeValue::SmallInt(1)]),
        row(&["second"], vec![NativeValue::SmallInt(2)]),
    ];
    let table = build_table("q".to_string(), &rows).unwrap();
    assert_eq!(table.head, vec!["first"]);
    assert_eq!(table.body, vec![vec![NormalizedValue::Integer(1)], vec![NormalizedValue::Integer(2)]]);
}

#[test]
fn normalize_row_keeps_order() {
    let values = vec![NativeValue::Text("x".to_string()), NativeValue::Integer(5), NativeValue::Null];
    assert_eq!(
        normalize_row(&values),
        Ok(vec![
            NormalizedValue::Text("x".to_string()),
            NormalizedValue::Integer(5),
            NormalizedValue::Null
        ])
    );
    assert_eq!(normalize_row(&Vec::new()), Ok(Vec::new()));
}

#[test]
fn default_table_is_empty() {
    let table = Table::default();
    assert!(table.head.is_empty());
    assert!(table.body.is_empty());
    assert_eq!(table.sql_query, "");
}
