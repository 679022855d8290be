use nsadmin::is_success_status;
use nsadmin::json::config_json_string;
use nsadmin::model::Command;
use nsadmin::model::Config;
use nsadmin::request::HttpMethod;
use nsadmin::request::get_config_request;
use nsadmin::request::request_for;
use nsadmin::request::set_config_request;

#[test]
fn create_request_shape() {
    let cmd = Command::CreateNamespace { name: "db1".to_string() };
    let r = request_for("http://localhost:8080", &cmd);
    assert_eq!(r.method, HttpMethod::Post);
    assert_eq!(r.url, "http://localhost:8080/v1/namespaces/db1/create");
    assert_eq!(r.body, Some("{}".to_string()));
}

#[test]
fn delete_request_shape() {
    let cmd = Command::DeleteNamespace { name: "db1".to_string() };
    let r = request_for("http://localhost:8080", &cmd);
    assert_eq!(r.method, HttpMethod::Delete);
    assert_eq!(r.url, "http://localhost:8080/v1/namespaces/db1");
    assert_eq!(r.body, None);
}

#[test]
fn fork_request_shape() {
    let cmd = Command::Fork { from: "db1".to_string(), to: "db2".to_string() };
    let r = request_for("http://localhost:8080", &cmd);
    assert_eq!(r.method, HttpMethod::Post);
    assert_eq!(r.url, "http://localhost:8080/v1/namespaces/db1/fork/db2");
    assert_eq!(r.body, None);
}

#[test]
fn stats_request_shape() {
    let cmd = Command::Stats { namespace: "db1".to_string(), include_top_queries: true };
    let r = request_for("http://localhost:8080", &cmd);
    assert_eq!(r.method, HttpMethod::Get);
    assert_eq!(r.url, "http://localhost:8080/v1/namespaces/db1/stats");
    assert_eq!(r.body, None);
}

#[test]
fn create_then_delete_target_same_namespace() {
    let create = request_for(
        "http://h",
        &Command::CreateNamespace { name: "db9".to_string() },
    );
    let delete = request_for(
        "http://h",
        &Command::DeleteNamespace { name: "db9".to_string() },
    );
    assert!(create.url.starts_with(&delete.url));
    assert_eq!(create.url, format!("{}/create", delete.url));
}

#[test]
fn config_requests_shape() {
    let get = get_config_request("http://h", "db1");
    assert_eq!(get.method, HttpMethod::Get);
    assert_eq!(get.url, "http://h/v1/namespaces/db1/config");
    assert_eq!(get.body, None);

    let config = Config {
        block_reads: false,
        block_writes: false,
        block_reason: None,
        max_db_size: Some("500.0 PB".to_string()),
    };
    let set = set_config_request("http://h", "db1", &config);
    assert_eq!(set.method, HttpMethod::Post);
    assert_eq!(set.url, "http://h/v1/namespaces/db1/config");
    assert_eq!(set.body, Some(config_json_string(&config)));
}

#[test]
fn status_classification() {
    assert!(!is_success_status(199));
    assert!(is_success_status(200));
    assert!(is_success_status(204));
    assert!(is_success_status(299));
    assert!(!is_success_status(300));
    assert!(!is_success_status(400));
    assert!(!is_success_status(500));
}
