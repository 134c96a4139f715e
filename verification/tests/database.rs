use sqlk::database::lookup::parse_i64;
use sqlk::database::lookup::BindValue;
use sqlk::database::manager::DatabaseManager;
use sqlk::database::manager::SchemaCache;
use sqlk::database::postgres::formatting::PostgresFormatter;
use sqlk::database::postgres::formatting::RawCell;
use sqlk::database::postgres::formatting::ValueKind;
use sqlk::database::query_result::ForeignKeyInfo;
use sqlk::database::query_result::QueryResult;

fn key(column: &str, table: &str, target: &str) -> ForeignKeyInfo {
    ForeignKeyInfo {
        column_name: column.to_string(),
        referenced_table: table.to_string(),
        referenced_column: target.to_string(),
    }
}

fn manager() -> DatabaseManager {
    let mut cache = SchemaCache::new();
    cache.insert(key("owner_id", "users", "id"));
    cache.insert(key("city_id", "cities", "cid"));
    cache.insert(key("owner_id", "people", "pid"));
    DatabaseManager::new(cache)
}

fn cell(name: &str, sql_type: &str, value: Option<&str>, is_null: bool) -> RawCell {
    RawCell {
        column_name: name.to_string(),
        sql_type: sql_type.to_string(),
        is_null,
        decoded: value.map(|v| v.to_string()),
    }
}

#[test]
fn foreign_key_info_is_the_first_recorded() {
    let db = manager();
    let info = db.get_foreign_key_info("owner_id").unwrap();
    assert_eq!(info.referenced_table, "users");
    assert_eq!(db.get_foreign_key_info("city_id").unwrap().referenced_column, "cid");
    assert_eq!(
        db.get_foreign_key_info("name").err(),
        Some("No foreign key info for column: name".to_string())
    );
    assert!(SchemaCache::new().get("owner_id").is_none());
}

#[test]
fn foreign_key_lookup_plan() {
    let db = manager();
    let q = db.lookup_foreign_key("owner_id", "42").unwrap();
    assert_eq!(q.sql, "SELECT * FROM \"users\" WHERE \"id\" = $1 LIMIT 10");
    assert!(matches!(q.bind, BindValue::Integer(42)));
    let t = db.lookup_foreign_key("city_id", "4x").unwrap();
    assert_eq!(t.sql, "SELECT * FROM \"cities\" WHERE \"cid\" = $1 LIMIT 10");
    match t.bind {
        BindValue::Text(v) => assert_eq!(v, "4x"),
        _ => panic!("bound as a number"),
    }
    assert_eq!(
        db.lookup_foreign_key("nope", "1").err(),
        Some("No foreign key info for column: nope".to_string())
    );
}

#[test]
fn integers_are_read_as_std_reads_them() {
    for text in [
        "0", "7", "-7", "+7", "007", "-0", "9223372036854775807", "-9223372036854775808",
        "9223372036854775808", "-9223372036854775809", "99999999999999999999999999", "", "+", "-",
        " 1", "1 ", "1.0", "0x10", "--1", "+-1", "1_000", "١٢", "12a",
    ] {
        assert_eq!(parse_i64(text), text.parse::<i64>().ok());
    }
    assert_eq!(parse_i64("-9223372036854775808"), Some(i64::MIN));
    assert_eq!(parse_i64("9223372036854775807"), Some(i64::MAX));
    assert_eq!(parse_i64("9223372036854775808"), None);
}

#[test]
fn query_result_helpers() {
    let result = QueryResult {
        headers: vec!["id".to_string(), "name".to_string(), "id".to_string()],
        rows: vec![vec!["1".to_string(), "a".to_string(), "2".to_string()]],
        row_count: 1,
        execution_time: None,
        column_types: Vec::new(),
    };
    assert!(!result.is_empty());
    assert_eq!(result.get_column_index("id"), Some(0));
    assert_eq!(result.get_column_index("name"), Some(1));
    assert_eq!(result.get_column_index("Name"), None);
    let copy = result.clone();
    assert_eq!(copy.headers, result.headers);
    assert_eq!(copy.rows, result.rows);
    let empty = QueryResult {
        headers: Vec::new(),
        rows: Vec::new(),
        row_count: 0,
        execution_time: None,
        column_types: Vec::new(),
    };
    assert!(empty.is_empty());
    assert_eq!(empty.get_column_index("id"), None);
}

#[test]
fn type_names_are_normalized() {
    let f = PostgresFormatter::new();
    for (given, shown) in [
        ("TEXT", "TEXT"), ("VARCHAR", "TEXT"), ("CHAR", "TEXT"), ("BPCHAR", "TEXT"),
        ("INT2", "SMALLINT"), ("SMALLINT", "SMALLINT"), ("INT4", "INTEGER"),
        ("INTEGER", "INTEGER"), ("INT8", "BIGINT"), ("BIGINT", "BIGINT"), ("FLOAT4", "REAL"),
        ("REAL", "REAL"), ("FLOAT8", "DOUBLE PRECISION"), ("DOUBLE PRECISION", "DOUBLE PRECISION"),
        ("NUMERIC", "NUMERIC"), ("DECIMAL", "NUMERIC"), ("BOOL", "BOOLEAN"),
        ("BOOLEAN", "BOOLEAN"), ("TIMESTAMP", "TIMESTAMP"), ("TIMESTAMPTZ", "TIMESTAMPTZ"),
        ("DATE", "DATE"), ("TIME", "TIME"), ("TIMETZ", "TIMETZ"), ("UUID", "UUID"),
        ("JSON", "JSON"), ("JSONB", "JSONB"), ("POINT", "POINT"), ("text", "text"), ("", ""),
    ] {
        assert_eq!(f.normalize_type_name(given), shown);
    }
    assert_eq!(f.value_kind("INT8"), ValueKind::Integer);
    assert_eq!(f.value_kind("DECIMAL"), ValueKind::Float);
    assert_eq!(f.value_kind("BPCHAR"), ValueKind::Text);
    assert_eq!(f.value_kind("BOOL"), ValueKind::Boolean);
    assert_eq!(f.value_kind("TIMESTAMP"), ValueKind::Timestamp);
    assert_eq!(f.value_kind("TIMESTAMPTZ"), ValueKind::TimestampTz);
    assert_eq!(f.value_kind("DATE"), ValueKind::Date);
    assert_eq!(f.value_kind("TIMETZ"), ValueKind::Time);
    assert_eq!(f.value_kind("UUID"), ValueKind::Uuid);
    assert_eq!(f.value_kind("JSONB"), ValueKind::Json);
    assert_eq!(f.value_kind("POINT"), ValueKind::Other);
}

#[test]
fn values_are_shown() {
    let f = PostgresFormatter::new();
    assert_eq!(f.format_value(&cell("a", "INT4", Some("5"), true)), "NULL");
    assert_eq!(f.format_value(&cell("a", "INT4", Some("5"), false)), "5");
    assert_eq!(f.format_value(&cell("a", "INT4", None, false)), "0");
    assert_eq!(f.format_value(&cell("a", "NUMERIC", None, false)), "0.0");
    assert_eq!(f.format_value(&cell("a", "BOOL", None, false)), "false");
    assert_eq!(f.format_value(&cell("a", "TEXT", None, false)), "");
    assert_eq!(f.format_value(&cell("a", "DATE", None, false)), "");
    assert_eq!(f.format_value(&cell("a", "UUID", None, false)), "");
    assert_eq!(f.format_value(&cell("a", "POINT", None, false)), "<POINT>");
    assert_eq!(f.format_value(&cell("a", "POINT", Some("(1,2)"), false)), "(1,2)");
}

#[test]
fn rows_become_a_table() {
    let f = PostgresFormatter::new();
    let rows = vec![
        vec![cell("id", "INT4", Some("1"), false), cell("note", "VARCHAR", None, true)],
        vec![cell("id", "INT4", Some("2"), false), cell("note", "BPCHAR", Some("hi"), false)],
    ];
    let time = std::time::Duration::from_millis(3);
    let result = f.rows_to_query_result(&rows, time);
    assert_eq!(result.headers, vec!["id".to_string(), "note".to_string()]);
    assert_eq!(result.column_types, vec!["INTEGER".to_string(), "TEXT".to_string()]);
    assert_eq!(
        result.rows,
        vec![vec!["1".to_string(), "NULL".to_string()], vec!["2".to_string(), "hi".to_string()]]
    );
    assert_eq!(result.row_count, 2);
    assert_eq!(result.execution_time, Some(time));
    assert_eq!(f.get_column_type_from_rows(&rows, 1), "TEXT");
    assert_eq!(f.get_column_type_from_rows(&rows, 2), "UNKNOWN");
    let nulls = vec![vec![cell("x", "FLOAT8", None, true)]];
    assert_eq!(f.get_column_type_from_rows(&nulls, 0), "DOUBLE PRECISION");
    let empty = f.rows_to_query_result(&Vec::new(), time);
    assert!(empty.headers.is_empty() && empty.rows.is_empty() && empty.column_types.is_empty());
    assert_eq!(empty.row_count, 0);
    assert_eq!(empty.execution_time, Some(time));
}
