//! The timed runner and the suite aggregator: key synthesis, the request
//! plan of one timed run, the derived metrics, and the fixed-order suite.
//!
//! The transport loop around these functions sends each planned request in
//! order, strictly sequentially, and measures the elapsed wall-clock time
//! from before the first request to after the last.

use vstd::prelude::*;
use crate::client::BenchmarkClient;
use crate::json::Json;
use crate::text::{dec_rep, dec_string, push_dec};
use crate::types::{spec_parse_operation, BenchError, KeyType, Operation, Projection, Scan};
use crate::wire::WireRequest;
use vstd::string::*;

verus! {

/// The fixed payload every create carries.
pub fn sample_payload() -> (r: &'static str)
    ensures
        r@ == "test_value"@,
{
    "test_value"
}

/// The distinct fixed payload every update carries.
pub fn updated_payload() -> (r: &'static str)
    ensures
        r@ == "updated_value"@,
{
    "updated_value"
}

/// The key synthesized for one iteration: the iteration index in decimal for
/// numeric runs, the same behind a fixed prefix for textual runs.
pub open spec fn spec_key_text(key_type: KeyType, index: nat) -> Seq<char> {
    match key_type {
        KeyType::Numeric => dec_rep(index),
        KeyType::Textual => "key"@ + dec_rep(index),
    }
}

pub fn key_string(key_type: KeyType, index: u64) -> (r: String)
    ensures
        r@ == spec_key_text(key_type, index as nat),
{
    match key_type {
        KeyType::Numeric => dec_string(index),
        KeyType::Textual => {
            let mut s = String::from_str("key");
            push_dec(&mut s, index);
            s
        },
    }
}

/// How many requests one timed run issues: one per iteration for the keyed
/// operations (reads, updates and deletes address the cached handles), and
/// exactly one for a scan.
pub open spec fn spec_request_count(op: Operation, count: nat, cached: nat) -> nat {
    match op {
        Operation::Create => count,
        Operation::Read => cached,
        Operation::Update => cached,
        Operation::Delete => cached,
        Operation::Scan => 1,
    }
}

/// What the request plan of one timed run holds: one request per iteration
/// for the keyed operations, each exactly the client's planned call, and a
/// single full-record fetch bounded by the run's count for a scan.
pub open spec fn plan_matches<C: BenchmarkClient>(
    client: &C,
    operation: Operation,
    count: nat,
    key_type: KeyType,
    r: Seq<WireRequest>,
) -> bool {
    &&& r.len() == spec_request_count(operation, count, client.handles().len())
    &&& (operation == Operation::Create ==> forall|i: int|
        0 <= i < count ==> (#[trigger] r[i])@ == client.req_create(
            spec_key_text(key_type, i as nat),
            "test_value"@,
        ))
    &&& (operation == Operation::Read ==> forall|i: int|
        0 <= i < r.len() ==> (#[trigger] r[i])@ == client.req_read(i))
    &&& (operation == Operation::Update ==> forall|i: int|
        0 <= i < r.len() ==> (#[trigger] r[i])@ == client.req_update(i, "updated_value"@))
    &&& (operation == Operation::Delete ==> forall|i: int|
        0 <= i < r.len() ==> (#[trigger] r[i])@ == client.req_delete(i))
    &&& (operation == Operation::Scan ==> r[0]@ == client.req_scan(count, 0, Projection::Full))
}

/// Plans every request of one timed run, in issue order.  Create synthesizes
/// one key per iteration; read, update and delete address the handles the
/// create phase cached; scan issues a single full-record fetch bounded by the
/// run's count.
pub fn plan_operation<C: BenchmarkClient>(
    client: &C,
    operation: Operation,
    count: usize,
    key_type: KeyType,
) -> (r: Vec<WireRequest>)
    ensures
        plan_matches(client, operation, count as nat, key_type, r@),
{
    let mut requests: Vec<WireRequest> = Vec::new();
    match operation {
        Operation::Create => {
            let mut i: usize = 0;
            while i < count
                invariant
                    i <= count,
                    requests@.len() == i,
                    forall|j: int|
                        0 <= j < i ==> (#[trigger] requests@[j])@ == client.req_create(
                            spec_key_text(key_type, j as nat),
                            "test_value"@,
                        ),
                decreases count - i,
            {
                let key = key_string(key_type, i as u64);
                requests.push(client.create_request(key.as_str(), sample_payload()));
                i = i + 1;
            }
        },
        Operation::Read => {
            let cached: usize = client.handle_count();
            let mut i: usize = 0;
            while i < cached
                invariant
                    i <= cached,
                    cached == client.handles().len(),
                    requests@.len() == i,
                    forall|j: int|
                        0 <= j < i ==> (#[trigger] requests@[j])@ == client.req_read(j),
                decreases cached - i,
            {
                requests.push(client.read_request(i));
                i = i + 1;
            }
        },
        Operation::Update => {
            let cached: usize = client.handle_count();
            let mut i: usize = 0;
            while i < cached
                invariant
                    i <= cached,
                    cached == client.handles().len(),
                    requests@.len() == i,
                    forall|j: int|
                        0 <= j < i ==> (#[trigger] requests@[j])@ == client.req_update(
                            j,
                            "updated_value"@,
                        ),
                decreases cached - i,
            {
                requests.push(client.update_request(i, updated_payload()));
                i = i + 1;
            }
        },
        Operation::Delete => {
            let cached: usize = client.handle_count();
            let mut i: usize = 0;
            while i < cached
                invariant
                    i <= cached,
                    cached == client.handles().len(),
                    requests@.len() == i,
                    forall|j: int|
                        0 <= j < i ==> (#[trigger] requests@[j])@ == client.req_delete(j),
                decreases cached - i,
            {
                requests.push(client.delete_request(i));
                i = i + 1;
            }
        },
        Operation::Scan => {
            let scan = Scan::new(Some(count), None, Projection::Full);
            requests.push(client.scan_request(&scan));
        },
    }
    requests
}

/// Folds the responses of a create run into the client's handle cache, in
/// issue order, with the same synthesized keys the run's requests carried.
/// The fold succeeds exactly when every response yields a handle; it then
/// grows the cache by exactly one handle per response — each the one its
/// response yields — so the later phases of the same run address exactly the
/// records created here.  The first response that yields no handle aborts
/// the fold.
pub fn fold_create_responses<C: BenchmarkClient>(
    client: &mut C,
    key_type: KeyType,
    responses: &Vec<Json>,
) -> (r: Result<(), BenchError>)
    ensures
        (r is Ok <==> forall|k: int|
            0 <= k < responses@.len() ==> (#[trigger] C::spec_apply_create(
                spec_key_text(key_type, k as nat),
                responses@[k],
            )) is Some),
        r is Ok ==> final(client).handles().len() == old(client).handles().len()
            + responses@.len(),
        r is Ok ==> forall|k: int|
            0 <= k < responses@.len() ==> Some(
                #[trigger] final(client).handles()[old(client).handles().len() + k],
            ) == C::spec_apply_create(spec_key_text(key_type, k as nat), responses@[k]),
        r is Err ==> final(client).handles().len() <= old(client).handles().len()
            + responses@.len(),
{
    let n: usize = responses.len();
    let mut i: usize = 0;
    while i < n
        invariant
            i <= n,
            n == responses@.len(),
            client.handles().len() == old(client).handles().len() + i,
            forall|k: int|
                0 <= k < i ==> (#[trigger] C::spec_apply_create(
                    spec_key_text(key_type, k as nat),
                    responses@[k],
                )) is Some,
            forall|k: int|
                0 <= k < i ==> Some(
                    #[trigger] client.handles()[old(client).handles().len() + k],
                ) == C::spec_apply_create(spec_key_text(key_type, k as nat), responses@[k]),
        decreases n - i,
    {
        let key = key_string(key_type, i as u64);
        match client.apply_create_response(key.as_str(), &responses[i]) {
            Ok(_) => {},
            Err(e) => {
                proof {
                    let ki: int = i as int;
                    assert(C::spec_apply_create(
                        spec_key_text(key_type, ki as nat),
                        responses@[ki],
                    ) is None);
                }
                return Err(e);
            },
        }
        i = i + 1;
    }
    Ok(())
}

/// Decodes one read response and checks the payload is the one the run
/// created: the read phase verifies, record by record, that the backend
/// hands back what was stored, and reports any other payload as a decode
/// failure.
pub fn verify_read<C: BenchmarkClient>(client: &C, response: &Json, expected: &str) -> (r: Result<
    (),
    BenchError,
>)
    ensures
        (match client.decoded_read(*response) {
            Some(p) => if p == expected@ {
                r is Ok
            } else {
                r == Err::<(), BenchError>(BenchError::Decode)
            },
            None => r is Err,
        }),
{
    match client.decode_read(response) {
        Ok(payload) => {
            if crate::text::str_eq(payload.as_str(), expected) {
                Ok(())
            } else {
                Err(BenchError::Decode)
            }
        },
        Err(e) => Err(e),
    }
}

/// Resolves an operation name and plans its run.  An unknown name is
/// rejected before a single request exists.
pub fn plan_run<C: BenchmarkClient>(
    client: &C,
    operation: &str,
    count: usize,
    key_type: KeyType,
) -> (r: Result<Vec<WireRequest>, BenchError>)
    ensures
        (match spec_parse_operation(operation@) {
            Some(op) => r matches Ok(v) && plan_matches(client, op, count as nat, key_type, v@),
            None => r == Err::<Vec<WireRequest>, BenchError>(BenchError::UnsupportedOperation),
        }),
{
    let op = match crate::types::parse_operation(operation) {
        Ok(op) => op,
        Err(e) => {
            return Err(e);
        },
    };
    Ok(plan_operation(client, op, count, key_type))
}

/// The outcome of one timed run: which operation, how many requests it
/// issued, and the elapsed wall-clock time over the whole run.
pub struct OperationResult {
    pub operation: Operation,
    pub requests: usize,
    pub elapsed_nanos: u64,
}

impl OperationResult {
    pub fn new(operation: Operation, requests: usize, elapsed_nanos: u64) -> (r: Self)
        ensures
            r.operation == operation,
            r.requests == requests,
            r.elapsed_nanos == elapsed_nanos,
    {
        OperationResult { operation, requests, elapsed_nanos }
    }

    /// Mean time per request, in nanoseconds, rounded down.
    pub fn avg_latency_nanos(&self) -> (r: u64)
        requires
            self.requests > 0,
        ensures
            r == self.elapsed_nanos as int / self.requests as int,
    {
        self.elapsed_nanos / (self.requests as u64)
    }

    /// Requests completed per second, scaled by a thousand (milli-operations
    /// per second), rounded down.
    pub fn throughput_milli_ops(&self) -> (r: u128)
        requires
            self.elapsed_nanos > 0,
        ensures
            r == (self.requests as int * 1000000000000) / self.elapsed_nanos as int,
    {
        (self.requests as u128) * 1000000000000u128 / (self.elapsed_nanos as u128)
    }
}

/// The fixed order a whole-suite run executes.
pub open spec fn suite_order() -> Seq<Operation> {
    seq![
        Operation::Create,
        Operation::Read,
        Operation::Update,
        Operation::Delete,
        Operation::Scan,
    ]
}

/// The fixed order a whole-suite run executes, as a vector.
pub fn suite_operations() -> (r: Vec<Operation>)
    ensures
        r@ == suite_order(),
{
    let mut v: Vec<Operation> = Vec::new();
    v.push(Operation::Create);
    v.push(Operation::Read);
    v.push(Operation::Update);
    v.push(Operation::Delete);
    v.push(Operation::Scan);
    proof {
        assert(v@ =~= suite_order());
    }
    v
}

/// A whole-suite run in progress.  Results accumulate in suite order, and a
/// report exists only once every operation of the suite has completed: a run
/// aborted by any error renders nothing.
pub struct SuiteRun {
    completed: Vec<OperationResult>,
}

impl SuiteRun {
    pub closed spec fn results(&self) -> Seq<OperationResult> {
        self.completed@
    }

    /// The accumulated results follow the suite order: the `i`th result is
    /// the `i`th operation's.
    pub open spec fn well_ordered(&self) -> bool {
        forall|i: int|
            0 <= i < self.results().len() ==> (#[trigger] self.results()[i]).operation
                == suite_order()[i]
    }

    pub fn new() -> (r: Self)
        ensures
            r.results() == Seq::<OperationResult>::empty(),
            r.well_ordered(),
    {
        let r = SuiteRun { completed: Vec::new() };
        proof {
            assert(r.results() =~= Seq::<OperationResult>::empty());
        }
        r
    }

    /// The operation to run next, while any remains.
    pub fn next_operation(&self) -> (r: Option<Operation>)
        ensures
            self.results().len() < suite_order().len() ==> r == Some(
                suite_order()[self.results().len() as int],
            ),
            self.results().len() >= suite_order().len() ==> r is None,
    {
        let done: usize = self.completed.len();
        if done == 0 {
            Some(Operation::Create)
        } else if done == 1 {
            Some(Operation::Read)
        } else if done == 2 {
            Some(Operation::Update)
        } else if done == 3 {
            Some(Operation::Delete)
        } else if done == 4 {
            Some(Operation::Scan)
        } else {
            None
        }
    }

    /// Accumulates the result of the operation whose turn it was.
    pub fn record(&mut self, result: OperationResult)
        requires
            old(self).results().len() < suite_order().len(),
            result.operation == suite_order()[old(self).results().len() as int],
        ensures
            final(self).results() == old(self).results().push(result),
            old(self).well_ordered() ==> final(self).well_ordered(),
    {
        self.completed.push(result);
    }

    /// The aggregated report: one result per suite operation, in suite
    /// order; nothing before the suite has completed.
    pub fn report(&self) -> (r: Option<&Vec<OperationResult>>)
        ensures
            (r is Some <==> self.results().len() == suite_order().len()),
            (match r {
                Some(v) => v@ == self.results(),
                None => true,
            }),
    {
        if self.completed.len() == 5 {
            Some(&self.completed)
        } else {
            None
        }
    }
}

} // verus!
