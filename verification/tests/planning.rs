//! Request planning against both adapters: how many requests a run issues,
//! what they carry, and that bad configuration fails before any request
//! exists.

use helix_bench::client::{BenchmarkClient, BenchmarkEngine};
use helix_bench::helixdb::{HelixDBClient, HelixDBEngine};
use helix_bench::json::Json;
use helix_bench::neo4j::{auth_credentials, Neo4jClient, Neo4jEngine};
use helix_bench::runner::{fold_create_responses, key_string, plan_operation, plan_run};
use helix_bench::types::{
    database_name, is_all, parse_database, parse_key_type, parse_operation, Benchmark, BenchError,
    Database, KeyType, Operation,
};
use helix_bench::wire::{classify_status, request_url, PlannedRequest};

fn helix_client() -> HelixDBClient {
    let options = Benchmark { database: Database::HelixDB, endpoint: None };
    let engine = HelixDBEngine::setup(&options).unwrap();
    engine.create_client()
}

fn neo4j_client() -> Neo4jClient {
    let options = Benchmark { database: Database::Neo4j, endpoint: None };
    let engine = Neo4jEngine::setup(&options).unwrap();
    engine.create_client()
}

fn created_response(id: &str) -> Json {
    Json::Obj(vec![(
        String::from("record"),
        Json::Arr(vec![Json::Obj(vec![
            (String::from("id"), Json::Str(String::from(id))),
            (String::from("data"), Json::Str(String::from("test_value"))),
        ])]),
    )])
}

#[test]
fn keyed_create_issues_exactly_count_requests() {
    let client = helix_client();
    let requests = plan_operation(&client, Operation::Create, 5, KeyType::Numeric);
    assert_eq!(requests.len(), 5);
    for (i, request) in requests.iter().enumerate() {
        assert_eq!(request.path, "/create_record");
        assert!(!request.auth);
        let expected = format!("{{\"id\":\"{}\",\"data\":\"test_value\"}}", i);
        assert_eq!(request.body.as_deref(), Some(expected.as_str()));
    }
}

#[test]
fn scan_issues_exactly_one_request() {
    let client = helix_client();
    let requests = plan_operation(&client, Operation::Scan, 5, KeyType::Numeric);
    assert_eq!(requests.len(), 1);
    assert_eq!(requests[0].path, "/scan_records");
    assert_eq!(requests[0].body.as_deref(), Some("{\"limit\":5,\"offset\":0}"));
}

#[test]
fn read_phase_addresses_exactly_the_cached_handles() {
    let mut client = helix_client();
    let id_a = "550e8400-e29b-41d4-a716-446655440000";
    let id_b = "550e8400-e29b-41d4-a716-446655440001";
    client.apply_create_response("0", &created_response(id_a)).unwrap();
    client.apply_create_response("1", &created_response(id_b)).unwrap();
    let requests = plan_operation(&client, Operation::Read, 99, KeyType::Numeric);
    assert_eq!(requests.len(), 2);
    assert_eq!(
        requests[0].body.as_deref(),
        Some("{\"id\":\"550e8400-e29b-41d4-a716-446655440000\"}")
    );
    assert_eq!(
        requests[1].body.as_deref(),
        Some("{\"id\":\"550e8400-e29b-41d4-a716-446655440001\"}")
    );
}

#[test]
fn create_run_of_n_gives_the_read_phase_n_requests() {
    let mut client = helix_client();
    let responses: Vec<Json> = (0..5)
        .map(|i| created_response(&format!("550e8400-e29b-41d4-a716-44665544000{}", i)))
        .collect();
    fold_create_responses(&mut client, KeyType::Numeric, &responses).unwrap();
    assert_eq!(client.handle_count(), 5);
    let reads = plan_operation(&client, Operation::Read, 5, KeyType::Numeric);
    assert_eq!(reads.len(), 5);
}

#[test]
fn create_fold_aborts_on_the_first_bad_response() {
    let mut client = helix_client();
    let mut responses: Vec<Json> = (0..5)
        .map(|i| created_response(&format!("550e8400-e29b-41d4-a716-44665544000{}", i)))
        .collect();
    responses[2] = Json::Null;
    let outcome = fold_create_responses(&mut client, KeyType::Numeric, &responses);
    assert_eq!(outcome.err(), Some(BenchError::Decode));
    assert_eq!(client.handle_count(), 2);
}

#[test]
fn textual_keys_carry_the_prefix() {
    let key = key_string(KeyType::Textual, 12);
    assert_eq!(key, "key12");
    let numeric = key_string(KeyType::Numeric, 12);
    assert_eq!(numeric, "12");
}

#[test]
fn unknown_operation_fails_before_any_request() {
    let client = helix_client();
    let planned = plan_run(&client, "drop", 5, KeyType::Numeric);
    assert_eq!(planned.err(), Some(BenchError::UnsupportedOperation));
}

#[test]
fn unknown_database_fails_before_any_network_call() {
    assert_eq!(parse_database("mysql").err(), Some(BenchError::Configuration));
    assert_eq!(parse_database("helixdb").ok(), Some(Database::HelixDB));
    assert_eq!(parse_database("NEO4J").ok(), Some(Database::Neo4j));
}

#[test]
fn unknown_key_type_fails_before_any_network_call() {
    assert_eq!(parse_key_type("u64").err(), Some(BenchError::Configuration));
    assert_eq!(parse_key_type("U32").ok(), Some(KeyType::Numeric));
    assert_eq!(parse_key_type("string").ok(), Some(KeyType::Textual));
}

#[test]
fn operation_names_parse_case_insensitively() {
    assert_eq!(parse_operation("CREATE").ok(), Some(Operation::Create));
    assert_eq!(parse_operation("Scan").ok(), Some(Operation::Scan));
    assert!(is_all("ALL"));
    assert!(!is_all("create"));
}

#[test]
fn database_names_render_for_the_report() {
    assert_eq!(database_name(Database::HelixDB), "HelixDB");
    assert_eq!(database_name(Database::Neo4j), "Neo4j");
}

#[test]
fn endpoint_override_replaces_the_default() {
    let options = Benchmark {
        database: Database::HelixDB,
        endpoint: Some(String::from("http://bench-host:7070")),
    };
    let engine = HelixDBEngine::setup(&options).unwrap();
    let client = engine.create_client();
    let url = request_url(
        "http://bench-host:7070",
        plan_operation(&client, Operation::Scan, 1, KeyType::Numeric)[0].path.as_str(),
    );
    assert_eq!(url, "http://bench-host:7070/scan_records");
}

#[test]
fn cypher_requests_go_to_the_commit_endpoint_with_auth() {
    let client = neo4j_client();
    let requests = plan_operation(&client, Operation::Create, 2, KeyType::Numeric);
    assert_eq!(requests.len(), 2);
    for request in &requests {
        assert_eq!(request.path, "/db/neo4j/tx/commit");
        assert!(request.auth);
    }
    assert_eq!(
        requests[0].body.as_deref(),
        Some(
            "{\"statements\":[{\"statement\":\"CREATE (n:Record {id: $id, data: $data})\",\
             \"parameters\":{\"id\":\"0\",\"data\":\"test_value\"}}]}"
        )
    );
    assert_eq!(auth_credentials(), ("neo4j", "neo4jtest"));
}

#[test]
fn cypher_scan_statement_is_bounded() {
    let client = neo4j_client();
    let requests = plan_operation(&client, Operation::Scan, 50, KeyType::Numeric);
    assert_eq!(requests.len(), 1);
    assert_eq!(
        requests[0].body.as_deref(),
        Some(
            "{\"statements\":[{\"statement\":\"MATCH (n:Record) RETURN n LIMIT $limit \
             SKIP $offset\",\"parameters\":{\"limit\":50,\"offset\":0}}]}"
        )
    );
}

#[test]
fn cypher_startup_probe_is_the_trivial_query() {
    let client = neo4j_client();
    let probe = client.startup_probe().unwrap();
    assert_eq!(probe.path, "/db/neo4j/tx/commit");
    assert!(probe.auth);
    assert_eq!(
        probe.body.as_deref(),
        Some("{\"statements\":[{\"statement\":\"RETURN 1\",\"parameters\":{}}]}")
    );
}

#[test]
fn rest_adapter_has_no_startup_probe() {
    let client = helix_client();
    assert!(client.startup_probe().is_none());
}

#[test]
fn status_classification_matches_success_range() {
    assert!(classify_status(200).is_ok());
    assert!(classify_status(299).is_ok());
    assert_eq!(classify_status(404).err(), Some(BenchError::BackendRequest(404)));
    assert_eq!(classify_status(500).err(), Some(BenchError::BackendRequest(500)));
    assert_eq!(classify_status(199).err(), Some(BenchError::BackendRequest(199)));
}

#[test]
fn vector_capability_is_backend_specific() {
    let helix = helix_client();
    let planned = helix.create_vector_requests(3).unwrap();
    assert_eq!(planned.len(), 3);
    match &planned[0] {
        PlannedRequest::Vector { path, dims, nearest } => {
            assert_eq!(path, "/create_vector");
            assert_eq!(*dims, 768);
            assert_eq!(*nearest, None);
        }
        PlannedRequest::Plain(_) => panic!("expected a vector request"),
    }
    let searches = helix.search_vector_requests(2).unwrap();
    match &searches[1] {
        PlannedRequest::Vector { path, nearest, .. } => {
            assert_eq!(path, "/search_vector");
            assert_eq!(*nearest, Some(7));
        }
        PlannedRequest::Plain(_) => panic!("expected a vector request"),
    }
    let neo4j = neo4j_client();
    assert_eq!(
        neo4j.create_vector_requests(3).err(),
        Some(BenchError::UnsupportedOperation)
    );
    assert_eq!(
        neo4j.search_vector_requests(3).err(),
        Some(BenchError::UnsupportedOperation)
    );
}

#[test]
fn json_body_escapes_special_characters() {
    let client = helix_client();
    let request = client.create_request("a\"b\\c", "line\nbreak\ttab");
    assert_eq!(
        request.body.as_deref(),
        Some("{\"id\":\"a\\\"b\\\\c\",\"data\":\"line\\nbreak\\ttab\"}")
    );
    let control = client.create_request("k", "\u{1}");
    assert_eq!(control.body.as_deref(), Some("{\"id\":\"k\",\"data\":\"\\u0001\"}"));
}
