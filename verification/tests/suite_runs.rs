//! Whole runs driven against the in-memory store: the suite order, the
//! derived metrics, and the abort-without-report rule.

use helix_bench::client::{BenchmarkClient, BenchmarkEngine};
use helix_bench::json::Json;
use helix_bench::runner::{
    plan_operation, sample_payload, suite_operations, updated_payload, OperationResult, SuiteRun,
};
use helix_bench::store::RecordStore;
use helix_bench::types::{BenchError, KeyType, Operation, Projection, Scan};

#[test]
fn suite_runs_in_the_fixed_order() {
    let order = suite_operations();
    assert_eq!(
        order,
        vec![
            Operation::Create,
            Operation::Read,
            Operation::Update,
            Operation::Delete,
            Operation::Scan,
        ]
    );
}

#[test]
fn fixed_payloads_are_distinct() {
    assert_eq!(sample_payload(), "test_value");
    assert_eq!(updated_payload(), "updated_value");
    assert_ne!(sample_payload(), updated_payload());
}

#[test]
fn derived_metrics_match_the_formulas() {
    // five requests over two seconds: 2.5 operations per second
    let result = OperationResult::new(Operation::Create, 5, 2_000_000_000);
    assert_eq!(result.throughput_milli_ops(), 2_500);
    assert_eq!(result.avg_latency_nanos(), 400_000_000);
    // one request taking 250 microseconds: 4000 operations per second
    let result = OperationResult::new(Operation::Scan, 1, 250_000);
    assert_eq!(result.throughput_milli_ops(), 4_000_000);
    assert_eq!(result.avg_latency_nanos(), 250_000);
}

#[test]
fn completed_suite_renders_a_report() {
    let mut suite = SuiteRun::new();
    let mut step: usize = 0;
    while let Some(operation) = suite.next_operation() {
        assert_eq!(operation, suite_operations()[step]);
        suite.record(OperationResult::new(operation, 5, 1_000_000));
        step += 1;
    }
    assert_eq!(step, 5);
    let report = suite.report().expect("a completed suite must report");
    assert_eq!(report.len(), 5);
    assert_eq!(report[0].operation, Operation::Create);
    assert_eq!(report[4].operation, Operation::Scan);
}

/// A suite aborted mid-way — here the backend rejects the third read —
/// produces no aggregated report.
#[test]
fn aborted_suite_produces_no_report() {
    let mut store = RecordStore::new();
    let mut suite = SuiteRun::new();
    let count: usize = 5;
    let mut outcome: Result<(), BenchError> = Ok(());

    'suite: while let Some(operation) = suite.next_operation() {
        match operation {
            Operation::Create => {
                for i in 0..count {
                    store.create(&format!("{}", i), sample_payload());
                }
            }
            Operation::Read => {
                for i in 0..count {
                    // the backend fails on the third read request
                    if i == 2 {
                        outcome = Err(BenchError::BackendRequest(500));
                        break 'suite;
                    }
                    let got = store.read(&format!("{}", i));
                    assert_eq!(got.as_deref(), Some("test_value"));
                }
            }
            _ => {}
        }
        suite.record(OperationResult::new(operation, count, 1_000_000));
    }

    assert_eq!(outcome.err(), Some(BenchError::BackendRequest(500)));
    assert!(suite.report().is_none());
}

/// The create phase of a run issues one POST per iteration with the
/// synthesized keys, and the whole-run metrics derive from that count.
#[test]
fn create_scenario_issues_five_posts_with_counted_keys() {
    let options = helix_bench::types::Benchmark {
        database: helix_bench::types::Database::HelixDB,
        endpoint: None,
    };
    let engine =
        <helix_bench::helixdb::HelixDBEngine as helix_bench::client::BenchmarkEngine>::setup(
            &options,
        )
        .unwrap();
    let client =
        <helix_bench::helixdb::HelixDBEngine as helix_bench::client::BenchmarkEngine>::create_client(
            &engine,
        );
    let requests = plan_operation(&client, Operation::Create, 5, KeyType::Numeric);
    assert_eq!(requests.len(), 5);
    for (i, request) in requests.iter().enumerate() {
        assert_eq!(request.path, "/create_record");
        assert!(request
            .body
            .as_deref()
            .unwrap()
            .starts_with(&format!("{{\"id\":\"{}\"", i)));
    }
    // elapsed measured around the five requests; throughput is 5 / elapsed
    let elapsed_nanos: u64 = 1_250_000_000;
    let result = OperationResult::new(Operation::Create, requests.len(), elapsed_nanos);
    assert_eq!(result.throughput_milli_ops(), 4_000);
}

fn mock_created(id: &str) -> Json {
    Json::Obj(vec![(
        String::from("record"),
        Json::Arr(vec![Json::Obj(vec![(
            String::from("id"),
            Json::Str(String::from(id)),
        )])]),
    )])
}

/// A whole suite against a mock REST backend: the create phase issues one
/// POST per iteration and caches the identifiers the mock assigns; every
/// later keyed phase addresses exactly those records; scan issues one call.
#[test]
fn full_suite_against_a_mock_rest_backend() {
    let options = helix_bench::types::Benchmark {
        database: helix_bench::types::Database::HelixDB,
        endpoint: None,
    };
    let engine = helix_bench::helixdb::HelixDBEngine::setup(&options).unwrap();
    let mut client = engine.create_client();
    let mut backend = RecordStore::new();
    let mut suite = SuiteRun::new();
    let count: usize = 5;
    let assigned: Vec<String> = (0..count)
        .map(|i| format!("550e8400-e29b-41d4-a716-44665544000{}", i))
        .collect();

    while let Some(operation) = suite.next_operation() {
        let requests = plan_operation(&client, operation, count, KeyType::Numeric);
        match operation {
            Operation::Create => {
                assert_eq!(requests.len(), count);
                for (i, request) in requests.iter().enumerate() {
                    assert_eq!(request.path, "/create_record");
                    backend.create(&assigned[i], "test_value");
                    let key = helix_bench::runner::key_string(KeyType::Numeric, i as u64);
                    let handle = client
                        .apply_create_response(&key, &mock_created(&assigned[i]))
                        .unwrap();
                    assert_eq!(handle, assigned[i]);
                }
            }
            Operation::Read => {
                assert_eq!(requests.len(), count);
                for id in &assigned {
                    assert_eq!(backend.read(id).as_deref(), Some("test_value"));
                }
            }
            Operation::Update => {
                assert_eq!(requests.len(), count);
                for id in &assigned {
                    backend.update(id, updated_payload());
                }
            }
            Operation::Delete => {
                assert_eq!(requests.len(), count);
                for id in &assigned {
                    backend.delete(id);
                }
            }
            Operation::Scan => {
                assert_eq!(requests.len(), 1);
                let scan = Scan::new(Some(count), None, Projection::Full);
                assert_eq!(backend.scan(&scan), 0);
            }
        }
        suite.record(OperationResult::new(operation, requests.len(), 1_000_000));
    }

    let report = suite.report().expect("the completed suite must report");
    assert_eq!(report.len(), 5);
    assert_eq!(backend.count(), 0);
}

#[test]
fn scan_phase_observes_what_the_store_holds() {
    let mut store = RecordStore::new();
    for i in 0..5usize {
        store.create(&format!("{}", i), sample_payload());
    }
    let scan = Scan::new(Some(5), None, Projection::Full);
    assert_eq!(store.scan(&scan), 5);
    let wider = Scan::new(Some(50), None, Projection::Full);
    assert_eq!(store.scan(&wider), 5);
}
