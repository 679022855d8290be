use nsadmin::model::NamespaceStats;
use nsadmin::model::PrintFormat;
use nsadmin::model::ServerError;
use nsadmin::model::TopQuery;
use nsadmin::render::error_output;
use nsadmin::render::lifecycle_output;
use nsadmin::render::render_stats_lines;
use nsadmin::render::stats_output;
use nsadmin::render::success_output;

fn sample_stats(top_queries: Vec<TopQuery>) -> NamespaceStats {
    NamespaceStats {
        rows_read_count: 10,
        rows_written_count: 2,
        storage_bytes_used: 4096,
        write_requests_delegated: 1,
        replication_index: 7,
        top_queries,
    }
}

#[test]
fn stats_normal_fixed_order() {
    let stats = sample_stats(Vec::new());
    let lines = render_stats_lines(&stats, true);
    assert_eq!(
        lines,
        vec![
            "Rows Read: 10".to_string(),
            "Rows Written: 2".to_string(),
            "Storage Used (B): 4096".to_string(),
            "Write Requests Delegated: 1".to_string(),
            "Replication Index: 7".to_string(),
        ]
    );
}

#[test]
fn stats_normal_top_queries_listing() {
    let stats = sample_stats(vec![
        TopQuery { rows_written: 3, rows_read: 12, query: "select 1".to_string() },
        TopQuery { rows_written: -4, rows_read: -1, query: "select 2".to_string() },
    ]);
    let lines = render_stats_lines(&stats, true);
    assert_eq!(lines.len(), 8);
    assert_eq!(lines[5], "Top Queries (RR = Rows Read : RW = Rows Written):");
    assert_eq!(lines[6], "0: RR: 12 RW: 3 Query: select 1");
    assert_eq!(lines[7], "1: RR: -1 RW: -4 Query: select 2");
}

#[test]
fn stats_normal_excludes_top_queries() {
    let stats = sample_stats(vec![
        TopQuery { rows_written: 3, rows_read: 12, query: "select 1".to_string() },
        TopQuery { rows_written: 5, rows_read: 9, query: "select 2".to_string() },
    ]);
    let lines = render_stats_lines(&stats, false);
    assert_eq!(lines.len(), 5);
    assert_eq!(lines[4], "Replication Index: 7");
}

#[test]
fn stats_rendering_is_reproducible() {
    let stats = sample_stats(vec![TopQuery {
        rows_written: 1,
        rows_read: 2,
        query: "select x".to_string(),
    }]);
    let first = render_stats_lines(&stats, true);
    let second = render_stats_lines(&stats, true);
    assert_eq!(first, second);
}

#[test]
fn success_normal_prints_success() {
    let plan = success_output(PrintFormat::Normal);
    assert_eq!(plan.out_lines, vec!["Success".to_string()]);
    assert!(plan.err_lines.is_empty());
    assert_eq!(plan.exit_code, 0);
}

#[test]
fn error_normal_message_and_exit() {
    let err = ServerError { error: "namespace already exists".to_string() };
    let plan = error_output(&err, PrintFormat::Normal);
    assert!(plan.out_lines.is_empty());
    assert_eq!(plan.err_lines, vec!["Error: namespace already exists".to_string()]);
    assert_ne!(plan.exit_code, 0);
    assert_eq!(plan.exit_code, -1);
}

#[test]
fn error_json_goes_to_output_stream() {
    let err = ServerError { error: "no such namespace".to_string() };
    let plan = error_output(&err, PrintFormat::Json);
    assert!(plan.err_lines.is_empty());
    assert_eq!(plan.out_lines, vec!["{\n  \"error\": \"no such namespace\"\n}".to_string()]);
    assert_ne!(plan.exit_code, 0);
}

#[test]
fn fork_error_nonzero_exit() {
    let res: Result<(), ServerError> =
        Err(ServerError { error: "namespace db1 not found".to_string() });
    let plan = lifecycle_output(&res, PrintFormat::Normal);
    assert_ne!(plan.exit_code, 0);
    assert_eq!(plan.err_lines, vec!["Error: namespace db1 not found".to_string()]);
}

#[test]
fn lifecycle_success_zero_exit() {
    let res: Result<(), ServerError> = Ok(());
    let plan = lifecycle_output(&res, PrintFormat::Json);
    assert_eq!(plan.exit_code, 0);
    assert_eq!(plan.out_lines, vec!["{\n  \"success\": true\n}".to_string()]);
}

#[test]
fn stats_output_json_single_document() {
    let stats = sample_stats(Vec::new());
    let plan = stats_output(&stats, false, PrintFormat::Json);
    assert_eq!(plan.exit_code, 0);
    assert!(plan.err_lines.is_empty());
    assert_eq!(plan.out_lines.len(), 1);
    let parsed: serde_json::Value = serde_json::from_str(&plan.out_lines[0]).unwrap();
    assert_eq!(parsed["success"], serde_json::Value::Bool(true));
    assert_eq!(parsed["stats"]["rows_read_count"], serde_json::Value::from(10u64));
}
