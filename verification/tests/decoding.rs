//! Response decoding against both adapters, and the error taxonomy.

use helix_bench::client::{BenchmarkClient, BenchmarkEngine};
use helix_bench::helixdb::{HelixDBClient, HelixDBEngine};
use helix_bench::json::Json;
use helix_bench::neo4j::{Neo4jClient, Neo4jEngine};
use helix_bench::runner::verify_read;
use helix_bench::types::{Benchmark, BenchError, Database, Projection, Scan};

fn helix_client() -> HelixDBClient {
    let options = Benchmark { database: Database::HelixDB, endpoint: None };
    HelixDBEngine::setup(&options).unwrap().create_client()
}

fn neo4j_client() -> Neo4jClient {
    let options = Benchmark { database: Database::Neo4j, endpoint: None };
    Neo4jEngine::setup(&options).unwrap().create_client()
}

fn rest_record(fields: Vec<(&str, &str)>) -> Json {
    Json::Obj(vec![(
        String::from("record"),
        Json::Arr(vec![Json::Obj(
            fields
                .into_iter()
                .map(|(k, v)| (String::from(k), Json::Str(String::from(v))))
                .collect(),
        )]),
    )])
}

fn cypher_rows(cells: Vec<Json>) -> Json {
    Json::Obj(vec![(
        String::from("results"),
        Json::Arr(vec![Json::Obj(vec![(
            String::from("data"),
            Json::Arr(
                cells
                    .into_iter()
                    .map(|cell| {
                        Json::Obj(vec![(String::from("row"), Json::Arr(vec![cell]))])
                    })
                    .collect(),
            ),
        )])]),
    )])
}

#[test]
fn rest_create_response_yields_the_assigned_uuid() {
    let mut client = helix_client();
    let id = "550e8400-e29b-41d4-a716-446655440000";
    let handle = client
        .apply_create_response("0", &rest_record(vec![("id", id), ("data", "test_value")]))
        .unwrap();
    assert_eq!(handle, id);
    assert_eq!(client.handle_count(), 1);
}

#[test]
fn rest_create_response_with_non_uuid_id_is_a_decode_error() {
    let mut client = helix_client();
    let result =
        client.apply_create_response("0", &rest_record(vec![("id", "not-a-uuid")]));
    assert_eq!(result.err(), Some(BenchError::Decode));
    assert_eq!(client.handle_count(), 0);
}

#[test]
fn rest_create_response_without_the_id_path_is_a_decode_error() {
    let mut client = helix_client();
    let result = client.apply_create_response("0", &Json::Obj(vec![]));
    assert_eq!(result.err(), Some(BenchError::Decode));
    let result = client.apply_create_response("0", &Json::Null);
    assert_eq!(result.err(), Some(BenchError::Decode));
}

#[test]
fn rest_read_round_trip_extracts_the_created_payload() {
    let client = helix_client();
    let payload = client
        .decode_read(&rest_record(vec![("id", "x"), ("data", "test_value")]))
        .unwrap();
    assert_eq!(payload, "test_value");
}

#[test]
fn rest_scan_counts_the_returned_collection() {
    let client = helix_client();
    let scan = Scan::new(Some(10), None, Projection::Full);
    let body = Json::Arr(vec![Json::Null, Json::Null, Json::Null]);
    assert_eq!(client.decode_scan(&scan, &body).unwrap(), 3);
    let not_an_array = Json::UInt(3);
    assert_eq!(
        client.decode_scan(&scan, &not_an_array).err(),
        Some(BenchError::Decode)
    );
}

#[test]
fn rest_count_reads_a_bare_integer() {
    let client = helix_client();
    let scan = Scan::new(None, None, Projection::Count);
    assert_eq!(client.decode_scan(&scan, &Json::UInt(42)).unwrap(), 42);
    assert_eq!(client.decode_count(&Json::UInt(42)).unwrap(), 42);
    assert_eq!(
        client.decode_count(&Json::Str(String::from("42"))).err(),
        Some(BenchError::Decode)
    );
}

#[test]
fn counts_up_to_the_platform_bound_decode() {
    let client = helix_client();
    let bound = usize::MAX as u64;
    assert_eq!(client.decode_count(&Json::UInt(bound)).unwrap(), usize::MAX);
    assert_eq!(client.decode_count(&Json::UInt(0)).unwrap(), 0);
}

#[test]
fn cypher_create_echoes_the_supplied_key() {
    let mut client = neo4j_client();
    let handle = client.apply_create_response("17", &Json::Null).unwrap();
    assert_eq!(handle, "17");
    assert_eq!(client.handle_count(), 1);
}

#[test]
fn cypher_count_is_extracted_positionally() {
    let client = neo4j_client();
    let response = cypher_rows(vec![Json::UInt(12)]);
    assert_eq!(client.decode_count(&response).unwrap(), 12);
}

#[test]
fn cypher_scan_counts_the_rows() {
    let client = neo4j_client();
    let scan = Scan::new(Some(10), None, Projection::Full);
    let response = cypher_rows(vec![Json::Null, Json::Null]);
    assert_eq!(client.decode_scan(&scan, &response).unwrap(), 2);
}

#[test]
fn cypher_read_extracts_the_node_payload() {
    let client = neo4j_client();
    let node = Json::Obj(vec![(String::from("data"), Json::Str(String::from("test_value")))]);
    let response = cypher_rows(vec![node]);
    assert_eq!(client.decode_read(&response).unwrap(), "test_value");
}

#[test]
fn cypher_missing_rows_are_a_decode_error() {
    let client = neo4j_client();
    let empty = cypher_rows(vec![]);
    assert_eq!(client.decode_count(&empty).err(), Some(BenchError::Decode));
    assert_eq!(client.decode_read(&Json::Null).err(), Some(BenchError::Decode));
}

#[test]
fn read_phase_accepts_exactly_the_created_payload() {
    let client = helix_client();
    let stored = rest_record(vec![("id", "x"), ("data", "test_value")]);
    assert!(verify_read(&client, &stored, "test_value").is_ok());
    let tampered = rest_record(vec![("id", "x"), ("data", "other_value")]);
    assert_eq!(
        verify_read(&client, &tampered, "test_value").err(),
        Some(BenchError::Decode)
    );
    assert_eq!(
        verify_read(&client, &Json::Null, "test_value").err(),
        Some(BenchError::Decode)
    );
}

#[test]
fn read_twice_decodes_identical_payloads() {
    let client = helix_client();
    let response = rest_record(vec![("id", "x"), ("data", "test_value")]);
    let first = client.decode_read(&response).unwrap();
    let second = client.decode_read(&response).unwrap();
    assert_eq!(first, second);
}

#[test]
fn error_descriptions_render() {
    assert_eq!(
        BenchError::Configuration.describe(),
        "invalid configuration value"
    );
    assert_eq!(BenchError::Connectivity.describe(), "backend not reachable");
    assert_eq!(
        BenchError::BackendRequest(503).describe(),
        "request failed with status 503"
    );
    assert_eq!(
        BenchError::Decode.describe(),
        "response body not of the expected shape"
    );
    assert_eq!(
        BenchError::UnsupportedOperation.describe(),
        "unsupported operation"
    );
}
