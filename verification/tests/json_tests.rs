use nsadmin::json::config_json_string;
use nsadmin::json::stats_json_string;
use nsadmin::json::success_json_string;
use nsadmin::model::Config;
use nsadmin::model::NamespaceStats;
use nsadmin::model::TopQuery;
use nsadmin::text::u64_to_string;

fn stats_value(
    rows_read: u64,
    rows_written: u64,
    storage: u64,
    delegated: u64,
    replication: u64,
    queries: Vec<(String, i32, i32)>,
) -> serde_json::Value {
    let mut stats = serde_json::Map::new();
    stats.insert("rows_read_count".to_string(), serde_json::Value::from(rows_read));
    stats.insert("rows_written_count".to_string(), serde_json::Value::from(rows_written));
    stats.insert("storage_bytes_used".to_string(), serde_json::Value::from(storage));
    stats.insert("write_requests_delegated".to_string(), serde_json::Value::from(delegated));
    stats.insert("replication_index".to_string(), serde_json::Value::from(replication));
    let mut items: Vec<serde_json::Value> = Vec::new();
    for (q, rr, rw) in queries {
        let mut item = serde_json::Map::new();
        item.insert("query".to_string(), serde_json::Value::from(q));
        item.insert("rows_read".to_string(), serde_json::Value::from(rr));
        item.insert("rows_written".to_string(), serde_json::Value::from(rw));
        items.push(serde_json::Value::Object(item));
    }
    stats.insert("top_queries".to_string(), serde_json::Value::Array(items));
    let mut root = serde_json::Map::new();
    root.insert("stats".to_string(), serde_json::Value::Object(stats));
    root.insert("success".to_string(), serde_json::Value::Bool(true));
    serde_json::Value::Object(root)
}

#[test]
fn success_json_round_trips() {
    let s = success_json_string();
    let parsed: serde_json::Value = serde_json::from_str(&s).unwrap();
    let mut root = serde_json::Map::new();
    root.insert("success".to_string(), serde_json::Value::Bool(true));
    assert_eq!(parsed, serde_json::Value::Object(root));
    let pretty = serde_json::to_string_pretty(&parsed).unwrap();
    assert_eq!(s, pretty);
}

#[test]
fn stats_json_round_trips() {
    let stats = NamespaceStats {
        rows_read_count: 10,
        rows_written_count: 2,
        storage_bytes_used: 4096,
        write_requests_delegated: 1,
        replication_index: 7,
        top_queries: vec![
            TopQuery { rows_written: 3, rows_read: 12, query: "select 1".to_string() },
            TopQuery { rows_written: -4, rows_read: -1, query: "select 2".to_string() },
        ],
    };
    let s = stats_json_string(&stats, true);
    let parsed: serde_json::Value = serde_json::from_str(&s).unwrap();
    let expected = stats_value(
        10,
        2,
        4096,
        1,
        7,
        vec![("select 1".to_string(), 12, 3), ("select 2".to_string(), -1, -4)],
    );
    assert_eq!(parsed, expected);
    let pretty = serde_json::to_string_pretty(&expected).unwrap();
    assert_eq!(s, pretty);
}

#[test]
fn stats_json_empty_queries_exact() {
    let stats = NamespaceStats {
        rows_read_count: 10,
        rows_written_count: 2,
        storage_bytes_used: 4096,
        write_requests_delegated: 1,
        replication_index: 7,
        top_queries: Vec::new(),
    };
    let s = stats_json_string(&stats, true);
    let expected = stats_value(10, 2, 4096, 1, 7, Vec::new());
    assert_eq!(s, serde_json::to_string_pretty(&expected).unwrap());
}

#[test]
fn stats_json_omits_queries_when_not_requested() {
    let stats = NamespaceStats {
        rows_read_count: 0,
        rows_written_count: 0,
        storage_bytes_used: 0,
        write_requests_delegated: 0,
        replication_index: 0,
        top_queries: vec![TopQuery { rows_written: 1, rows_read: 1, query: "q".to_string() }],
    };
    let s = stats_json_string(&stats, false);
    let parsed: serde_json::Value = serde_json::from_str(&s).unwrap();
    assert_eq!(parsed["stats"]["top_queries"], serde_json::Value::Array(Vec::new()));
}

#[test]
fn string_escaping_matches_reference() {
    let tricky = "a\"b\\c\nd\te\rf\u{8}g\u{c}h\u{1}i\u{1f}j caf\u{e9} \u{2603}".to_string();
    let stats = NamespaceStats {
        rows_read_count: 1,
        rows_written_count: 1,
        storage_bytes_used: 1,
        write_requests_delegated: 1,
        replication_index: 1,
        top_queries: vec![TopQuery { rows_written: 0, rows_read: 0, query: tricky.clone() }],
    };
    let s = stats_json_string(&stats, true);
    let expected = stats_value(1, 1, 1, 1, 1, vec![(tricky.clone(), 0, 0)]);
    assert_eq!(s, serde_json::to_string_pretty(&expected).unwrap());
    let parsed: serde_json::Value = serde_json::from_str(&s).unwrap();
    assert_eq!(
        parsed["stats"]["top_queries"][0]["query"],
        serde_json::Value::from(tricky)
    );
}

#[test]
fn config_json_compact_with_nulls() {
    let config = Config {
        block_reads: false,
        block_writes: true,
        block_reason: None,
        max_db_size: None,
    };
    let s = config_json_string(&config);
    assert_eq!(
        s,
        "{\"block_reads\":false,\"block_writes\":true,\"block_reason\":null,\"max_db_size\":null}"
    );
}

#[test]
fn config_json_compact_with_values() {
    let config = Config {
        block_reads: true,
        block_writes: true,
        block_reason: Some("maintenance \"window\"".to_string()),
        max_db_size: Some("500.0 PB".to_string()),
    };
    let s = config_json_string(&config);
    let parsed: serde_json::Value = serde_json::from_str(&s).unwrap();
    assert_eq!(parsed["block_reads"], serde_json::Value::Bool(true));
    assert_eq!(parsed["block_reason"], serde_json::Value::from("maintenance \"window\""));
    assert_eq!(parsed["max_db_size"], serde_json::Value::from("500.0 PB"));
}

#[test]
fn number_rendering_exact() {
    assert_eq!(u64_to_string(0), "0");
    assert_eq!(u64_to_string(10), "10");
    assert_eq!(u64_to_string(4096), "4096");
    assert_eq!(u64_to_string(u64::MAX), "18446744073709551615");
}
