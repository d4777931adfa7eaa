//! The Cypher-over-HTTP adapter: every catalog call becomes one
//! single-statement transaction POSTed to the commit endpoint with basic
//! authentication, and values come back positionally under
//! `results[0].data[..].row[0]`.

use vstd::prelude::*;
use crate::client::{BenchmarkClient, BenchmarkEngine};
use crate::json::{spec_arr_len, spec_as_text, spec_as_u64, spec_at, spec_get, Json};
use crate::types::{Benchmark, BenchError, Projection, Scan};
use crate::wire::{
    commit_body, commit_body_text, create_body, create_body_text, id_body, id_body_text,
    range_body, range_body_text, PlannedRequest, WireRequest, WireView,
};
use vstd::string::*;

verus! {

/// What a single-statement transaction request looks like on the wire.
pub open spec fn commit_view(statement: Seq<char>, params: Seq<char>) -> WireView {
    WireView {
        path: "/db/neo4j/tx/commit"@,
        body: Some(commit_body_text(statement, params)),
        auth: true,
    }
}

/// The fixed credentials the transaction endpoint is reached with.
pub fn auth_credentials() -> (r: (&'static str, &'static str))
    ensures
        r.0@ == "neo4j"@,
        r.1@ == "neo4jtest"@,
{
    ("neo4j", "neo4jtest")
}

/// The first cell of the first row of a transaction response.
pub open spec fn cypher_cell(resp: Json) -> Option<Json> {
    match spec_get(resp, "results"@) {
        Some(results) => match spec_at(results, 0) {
            Some(result) => match spec_get(result, "data"@) {
                Some(data) => match spec_at(data, 0) {
                    Some(datum) => match spec_get(datum, "row"@) {
                        Some(row) => spec_at(row, 0),
                        None => None,
                    },
                    None => None,
                },
                None => None,
            },
            None => None,
        },
        None => None,
    }
}

/// How many rows the first result of a transaction response holds.
pub open spec fn cypher_rows(resp: Json) -> Option<nat> {
    match spec_get(resp, "results"@) {
        Some(results) => match spec_at(results, 0) {
            Some(result) => match spec_get(result, "data"@) {
                Some(data) => spec_arr_len(data),
                None => None,
            },
            None => None,
        },
        None => None,
    }
}

/// The payload of the node a read returns: the `data` property of the first
/// cell.
pub open spec fn cypher_read_payload(resp: Json) -> Option<Seq<char>> {
    match cypher_cell(resp) {
        Some(cell) => match spec_get(cell, "data"@) {
            Some(v) => spec_as_text(v),
            None => None,
        },
        None => None,
    }
}

/// The count the first cell carries.
pub open spec fn cypher_count(resp: Json) -> Option<u64> {
    match cypher_cell(resp) {
        Some(cell) => spec_as_u64(cell),
        None => None,
    }
}

/// A session against the Cypher-over-HTTP backend.
pub struct Neo4jClient {
    endpoint: String,
    ids: Vec<String>,
}

impl Neo4jClient {
    pub closed spec fn spec_endpoint(&self) -> Seq<char> {
        self.endpoint@
    }

    pub fn new(endpoint: String) -> (r: Self)
        ensures
            r.spec_endpoint() == endpoint@,
            r.handles() == Seq::<Seq<char>>::empty(),
    {
        let r = Neo4jClient { endpoint, ids: Vec::new() };
        proof {
            assert(r.handles() =~= Seq::<Seq<char>>::empty());
        }
        r
    }

    /// One transaction request: the statement and its rendered parameters.
    fn transaction(&self, statement: &str, params: String) -> (r: WireRequest)
        ensures
            r.path@ == "/db/neo4j/tx/commit"@,
            r.auth == true,
            (match r.body {
                Some(b) => b@ == commit_body_text(statement@, params@),
                None => false,
            }),
    {
        WireRequest {
            path: String::from_str("/db/neo4j/tx/commit"),
            body: Some(commit_body(statement, params.as_str())),
            auth: true,
        }
    }

    fn first_cell<'a>(response: &'a Json) -> (r: Option<&'a Json>)
        ensures
            (match r {
                Some(cell) => cypher_cell(*response) == Some(*cell),
                None => cypher_cell(*response) is None,
            }),
    {
        let results = match response.get("results") {
            Some(v) => v,
            None => {
                return None;
            },
        };
        let result = match results.at(0) {
            Some(v) => v,
            None => {
                return None;
            },
        };
        let data = match result.get("data") {
            Some(v) => v,
            None => {
                return None;
            },
        };
        let datum = match data.at(0) {
            Some(v) => v,
            None => {
                return None;
            },
        };
        let row = match datum.get("row") {
            Some(v) => v,
            None => {
                return None;
            },
        };
        row.at(0)
    }
}

impl BenchmarkClient for Neo4jClient {
    closed spec fn handles(&self) -> Seq<Seq<char>> {
        self.ids@.map_values(|s: String| s@)
    }

    open spec fn req_startup(&self) -> Option<WireView> {
        Some(commit_view("RETURN 1"@, "{}"@))
    }

    open spec fn req_create(&self, key: Seq<char>, payload: Seq<char>) -> WireView {
        commit_view(
            "CREATE (n:Record {id: $id, data: $data})"@,
            create_body_text(Some(key), payload),
        )
    }

    open spec fn req_read(&self, i: int) -> WireView {
        commit_view("MATCH (n:Record {id: $id}) RETURN n"@, id_body_text(self.handles()[i]))
    }

    open spec fn req_update(&self, i: int, payload: Seq<char>) -> WireView {
        commit_view(
            "MATCH (n:Record {id: $id}) SET n.data = $data"@,
            create_body_text(Some(self.handles()[i]), payload),
        )
    }

    open spec fn req_delete(&self, i: int) -> WireView {
        commit_view("MATCH (n:Record {id: $id}) DELETE n"@, id_body_text(self.handles()[i]))
    }

    open spec fn req_scan(&self, limit: nat, start: nat, projection: Projection) -> WireView {
        if projection == Projection::Count {
            commit_view("MATCH (n:Record) RETURN count(n)"@, "{}"@)
        } else {
            commit_view(
                "MATCH (n:Record) RETURN n LIMIT $limit SKIP $offset"@,
                range_body_text(limit, start),
            )
        }
    }

    open spec fn req_count(&self) -> WireView {
        commit_view("MATCH (n) RETURN count(n) as count"@, "{}"@)
    }

    open spec fn decoded_read(&self, response: Json) -> Option<Seq<char>> {
        cypher_read_payload(response)
    }

    open spec fn decoded_count(&self, response: Json) -> Option<nat> {
        match cypher_count(response) {
            Some(n) => if n <= usize::MAX as u64 {
                Some(n as nat)
            } else {
                None
            },
            None => None,
        }
    }

    open spec fn decoded_scan(&self, projection: Projection, response: Json) -> Option<nat> {
        if projection == Projection::Count {
            self.decoded_count(response)
        } else {
            cypher_rows(response)
        }
    }

    /// The probe issues the trivial query.
    fn startup_probe(&self) -> (r: Option<WireRequest>) {
        Some(self.transaction("RETURN 1", String::from_str("{}")))
    }

    fn create_request(&self, key: &str, payload: &str) -> (r: WireRequest) {
        self.transaction("CREATE (n:Record {id: $id, data: $data})", create_body(Some(key), payload))
    }

    /// This backend assigns no identifiers: the supplied key is echoed back
    /// as the handle, whatever the response body holds.
    open spec fn spec_apply_create(key: Seq<char>, response: Json) -> Option<Seq<char>> {
        Some(key)
    }

    fn apply_create_response(&mut self, key: &str, response: &Json) -> (r: Result<
        String,
        BenchError,
    >)
        ensures
            r matches Ok(h) && h@ == key@,
    {
        let mut stored = String::new();
        stored.append(key);
        let mut returned = String::new();
        returned.append(key);
        self.ids.push(stored);
        proof {
            assert(self.handles() =~= old(self).handles().push(key@));
        }
        Ok(returned)
    }

    fn handle_count(&self) -> (n: usize)
        ensures
            n == self.handles().len(),
    {
        self.ids.len()
    }

    fn read_request(&self, i: usize) -> (r: WireRequest) {
        self.transaction("MATCH (n:Record {id: $id}) RETURN n", id_body(self.ids[i].as_str()))
    }

    fn decode_read(&self, response: &Json) -> (r: Result<String, BenchError>)
        ensures
            r is Err ==> r == Err::<String, BenchError>(BenchError::Decode),
    {
        let cell = match Self::first_cell(response) {
            Some(v) => v,
            None => {
                return Err(BenchError::Decode);
            },
        };
        let datav = match cell.get("data") {
            Some(v) => v,
            None => {
                return Err(BenchError::Decode);
            },
        };
        match datav.as_text() {
            Some(s) => {
                let mut p = String::new();
                p.append(s);
                Ok(p)
            },
            None => Err(BenchError::Decode),
        }
    }

    fn update_request(&self, i: usize, payload: &str) -> (r: WireRequest) {
        self.transaction(
            "MATCH (n:Record {id: $id}) SET n.data = $data",
            create_body(Some(self.ids[i].as_str()), payload),
        )
    }

    fn delete_request(&self, i: usize) -> (r: WireRequest) {
        self.transaction("MATCH (n:Record {id: $id}) DELETE n", id_body(self.ids[i].as_str()))
    }

    fn scan_request(&self, scan: &Scan) -> (r: WireRequest) {
        let projection = match scan.projection() {
            Ok(p) => p,
            Err(_) => {
                proof {
                    assert(false);
                }
                Projection::Count
            },
        };
        if projection == Projection::Count {
            self.transaction("MATCH (n:Record) RETURN count(n)", String::from_str("{}"))
        } else {
            let limit: usize = match scan.limit() {
                Some(l) => l,
                None => 100,
            };
            let start: usize = match scan.start() {
                Some(s) => s,
                None => 0,
            };
            self.transaction(
                "MATCH (n:Record) RETURN n LIMIT $limit SKIP $offset",
                range_body(limit as u64, start as u64),
            )
        }
    }

    fn decode_scan(&self, scan: &Scan, response: &Json) -> (r: Result<usize, BenchError>)
        ensures
            r is Err ==> r == Err::<usize, BenchError>(BenchError::Decode),
    {
        let projection = match scan.projection() {
            Ok(p) => p,
            Err(_) => {
                proof {
                    assert(false);
                }
                Projection::Count
            },
        };
        if projection == Projection::Count {
            self.decode_count(response)
        } else {
            let results = match response.get("results") {
                Some(v) => v,
                None => {
                    return Err(BenchError::Decode);
                },
            };
            let result = match results.at(0) {
                Some(v) => v,
                None => {
                    return Err(BenchError::Decode);
                },
            };
            let data = match result.get("data") {
                Some(v) => v,
                None => {
                    return Err(BenchError::Decode);
                },
            };
            match data.arr_len() {
                Some(l) => Ok(l),
                None => Err(BenchError::Decode),
            }
        }
    }

    fn count_request(&self) -> (r: WireRequest) {
        self.transaction("MATCH (n) RETURN count(n) as count", String::from_str("{}"))
    }

    fn decode_count(&self, response: &Json) -> (r: Result<usize, BenchError>)
        ensures
            r is Err ==> r == Err::<usize, BenchError>(BenchError::Decode),
    {
        let cell = match Self::first_cell(response) {
            Some(v) => v,
            None => {
                return Err(BenchError::Decode);
            },
        };
        match cell.as_u64() {
            Some(n) => {
                if n <= usize::MAX as u64 {
                    Ok(n as usize)
                } else {
                    Err(BenchError::Decode)
                }
            },
            None => Err(BenchError::Decode),
        }
    }

    /// This backend offers no vector capability.
    fn create_vector_requests(&self, count: usize) -> (r: Result<Vec<PlannedRequest>, BenchError>)
        ensures
            r == Err::<Vec<PlannedRequest>, BenchError>(BenchError::UnsupportedOperation),
    {
        Err(BenchError::UnsupportedOperation)
    }

    /// This backend offers no vector capability.
    fn search_vector_requests(&self, count: usize) -> (r: Result<Vec<PlannedRequest>, BenchError>)
        ensures
            r == Err::<Vec<PlannedRequest>, BenchError>(BenchError::UnsupportedOperation),
    {
        Err(BenchError::UnsupportedOperation)
    }
}

/// Engine for the Cypher-over-HTTP backend.
pub struct Neo4jEngine {
    endpoint: String,
}

impl BenchmarkEngine for Neo4jEngine {
    type Client = Neo4jClient;

    closed spec fn spec_endpoint(&self) -> Seq<char> {
        self.endpoint@
    }

    open spec fn spec_resolved_endpoint(options: Benchmark) -> Seq<char> {
        match options.endpoint {
            Some(u) => u@,
            None => "http://localhost:7474"@,
        }
    }

    fn setup(options: &Benchmark) -> (r: Result<Self, BenchError>) {
        let endpoint = match &options.endpoint {
            Some(u) => {
                let mut e = String::new();
                e.append(u.as_str());
                e
            },
            None => String::from_str("http://localhost:7474"),
        };
        Ok(Neo4jEngine { endpoint })
    }

    fn endpoint(&self) -> (r: &str) {
        self.endpoint.as_str()
    }

    fn create_client(&self) -> (c: Self::Client)
        ensures
            c.handles() == Seq::<Seq<char>>::empty(),
            c.spec_endpoint() == self.spec_endpoint(),
    {
        let mut e = String::new();
        e.append(self.endpoint.as_str());
        Neo4jClient::new(e)
    }
}

} // verus!
