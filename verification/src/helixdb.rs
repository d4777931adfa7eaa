//! The REST-JSON adapter: every catalog call becomes one POST to a fixed
//! path with a JSON body, and create responses carry the server-assigned
//! identifier at `record[0].id`.

use vstd::prelude::*;
use crate::client::{BenchmarkClient, BenchmarkEngine};
use crate::json::{spec_arr_len, spec_as_text, spec_as_u64, spec_at, spec_get, Json};
use crate::types::{Benchmark, BenchError, Projection, Scan};
use crate::wire::{
    create_body, create_body_text, id_body, id_body_text, range_body, range_body_text,
    update_body, update_body_text, PlannedRequest, WireRequest, WireView,
};
use vstd::string::*;

verus! {

/// The dimension of the vectors the vector-extension calls carry.
pub const VECTOR_DIMS: usize = 768;

/// How many nearest neighbours a vector search asks for.
pub const SEARCH_NEAREST: u64 = 7;

/// Whether the text parses as a UUID.
pub uninterp spec fn uuid_parse_ok(s: Seq<char>) -> bool;

/// Relies on uuid::Uuid::parse_str: whether a text is accepted (hexadecimal
/// digits with optional hyphens, braces or urn prefix) depends on its
/// characters alone.
#[verifier::external_body]
fn uuid_text_valid(s: &str) -> (r: bool)
    ensures
        r == uuid_parse_ok(s@),
{
    uuid::Uuid::parse_str(s).is_ok()
}

/// The server-assigned identifier a create response exposes, at the fixed
/// path `record[0].id`, when the body has that shape.
pub open spec fn rest_created_id(resp: Json) -> Option<Seq<char>> {
    match spec_get(resp, "record"@) {
        Some(rec) => match spec_at(rec, 0) {
            Some(entry) => match spec_get(entry, "id"@) {
                Some(v) => spec_as_text(v),
                None => None,
            },
            None => None,
        },
        None => None,
    }
}

/// The payload a read response exposes, at the fixed path `record[0].data`.
pub open spec fn rest_read_payload(resp: Json) -> Option<Seq<char>> {
    match spec_get(resp, "record"@) {
        Some(rec) => match spec_at(rec, 0) {
            Some(entry) => match spec_get(entry, "data"@) {
                Some(v) => spec_as_text(v),
                None => None,
            },
            None => None,
        },
        None => None,
    }
}

/// A session against the REST-JSON backend.
pub struct HelixDBClient {
    endpoint: String,
    ids: Vec<String>,
}

impl HelixDBClient {
    pub closed spec fn spec_endpoint(&self) -> Seq<char> {
        self.endpoint@
    }

    pub fn new(endpoint: String) -> (r: Self)
        ensures
            r.spec_endpoint() == endpoint@,
            r.handles() == Seq::<Seq<char>>::empty(),
    {
        let r = HelixDBClient { endpoint, ids: Vec::new() };
        proof {
            assert(r.handles() =~= Seq::<Seq<char>>::empty());
        }
        r
    }

    /// The count a bare-integer response body carries, when it fits the
    /// platform's size type.
    fn u64_count(response: &Json) -> (r: Result<usize, BenchError>)
        ensures
            (match spec_as_u64(*response) {
                Some(n) => if n <= usize::MAX as u64 {
                    r == Ok::<usize, BenchError>(n as usize)
                } else {
                    r == Err::<usize, BenchError>(BenchError::Decode)
                },
                None => r == Err::<usize, BenchError>(BenchError::Decode),
            }),
    {
        match response.as_u64() {
            Some(n) => {
                if n <= usize::MAX as u64 {
                    Ok(n as usize)
                } else {
                    Err(BenchError::Decode)
                }
            },
            None => Err(BenchError::Decode),
        }
    }
}

impl BenchmarkClient for HelixDBClient {
    closed spec fn handles(&self) -> Seq<Seq<char>> {
        self.ids@.map_values(|s: String| s@)
    }

    open spec fn req_startup(&self) -> Option<WireView> {
        None
    }

    open spec fn req_create(&self, key: Seq<char>, payload: Seq<char>) -> WireView {
        WireView {
            path: "/create_record"@,
            body: Some(create_body_text(Some(key), payload)),
            auth: false,
        }
    }

    open spec fn req_read(&self, i: int) -> WireView {
        WireView { path: "/read_record"@, body: Some(id_body_text(self.handles()[i])), auth: false }
    }

    open spec fn req_update(&self, i: int, payload: Seq<char>) -> WireView {
        WireView {
            path: "/update_record"@,
            body: Some(update_body_text(self.handles()[i], payload)),
            auth: false,
        }
    }

    open spec fn req_delete(&self, i: int) -> WireView {
        WireView {
            path: "/delete_record"@,
            body: Some(id_body_text(self.handles()[i])),
            auth: false,
        }
    }

    open spec fn req_scan(&self, limit: nat, start: nat, projection: Projection) -> WireView {
        if projection == Projection::Count {
            WireView { path: "/count_records"@, body: None, auth: false }
        } else {
            WireView { path: "/scan_records"@, body: Some(range_body_text(limit, start)), auth: false }
        }
    }

    open spec fn req_count(&self) -> WireView {
        WireView { path: "/count_records"@, body: None, auth: false }
    }

    open spec fn decoded_read(&self, response: Json) -> Option<Seq<char>> {
        rest_read_payload(response)
    }

    open spec fn decoded_count(&self, response: Json) -> Option<nat> {
        match spec_as_u64(response) {
            Some(n) => if n <= usize::MAX as u64 {
                Some(n as nat)
            } else {
                None
            },
            None => None,
        }
    }

    open spec fn decoded_scan(&self, projection: Projection, response: Json) -> Option<nat> {
        if projection == Projection::Count {
            self.decoded_count(response)
        } else {
            spec_arr_len(response)
        }
    }

    /// The REST adapter needs no probe: connectivity shows on the first call.
    fn startup_probe(&self) -> (r: Option<WireRequest>)
        ensures
            r is None,
    {
        None
    }

    fn create_request(&self, key: &str, payload: &str) -> (r: WireRequest)
    {
        WireRequest {
            path: String::from_str("/create_record"),
            body: Some(create_body(Some(key), payload)),
            auth: false,
        }
    }

    /// The handle is the server-assigned identifier, which must parse as a
    /// UUID; any other body shape is a decode error, and the supplied key
    /// plays no part.
    open spec fn spec_apply_create(key: Seq<char>, response: Json) -> Option<Seq<char>> {
        match rest_created_id(response) {
            Some(id) => if uuid_parse_ok(id) {
                Some(id)
            } else {
                None
            },
            None => None,
        }
    }

    fn apply_create_response(&mut self, key: &str, response: &Json) -> (r: Result<
        String,
        BenchError,
    >)
        ensures
            r is Err ==> r == Err::<String, BenchError>(BenchError::Decode),
    {
        let rec = match response.get("record") {
            Some(v) => v,
            None => {
                return Err(BenchError::Decode);
            },
        };
        let entry = match rec.at(0) {
            Some(v) => v,
            None => {
                return Err(BenchError::Decode);
            },
        };
        let idv = match entry.get("id") {
            Some(v) => v,
            None => {
                return Err(BenchError::Decode);
            },
        };
        let id = match idv.as_text() {
            Some(s) => s,
            None => {
                return Err(BenchError::Decode);
            },
        };
        if uuid_text_valid(id) {
            let mut stored = String::new();
            stored.append(id);
            let mut returned = String::new();
            returned.append(id);
            self.ids.push(stored);
            proof {
                assert(self.handles() =~= old(self).handles().push(id@));
            }
            Ok(returned)
        } else {
            Err(BenchError::Decode)
        }
    }

    fn handle_count(&self) -> (n: usize)
        ensures
            n == self.handles().len(),
    {
        self.ids.len()
    }

    fn read_request(&self, i: usize) -> (r: WireRequest) {
        WireRequest {
            path: String::from_str("/read_record"),
            body: Some(id_body(self.ids[i].as_str())),
            auth: false,
        }
    }

    fn decode_read(&self, response: &Json) -> (r: Result<String, BenchError>)
        ensures
            r is Err ==> r == Err::<String, BenchError>(BenchError::Decode),
    {
        let rec = match response.get("record") {
            Some(v) => v,
            None => {
                return Err(BenchError::Decode);
            },
        };
        let entry = match rec.at(0) {
            Some(v) => v,
            None => {
                return Err(BenchError::Decode);
            },
        };
        let datav = match entry.get("data") {
            Some(v) => v,
            None => {
                return Err(BenchError::Decode);
            },
        };
        match datav.as_text() {
            Some(s) => {
                let mut p = String::new();
                p.append(s);
                Ok(p)
            },
            None => Err(BenchError::Decode),
        }
    }

    fn update_request(&self, i: usize, payload: &str) -> (r: WireRequest) {
        WireRequest {
            path: String::from_str("/update_record"),
            body: Some(update_body(self.ids[i].as_str(), payload)),
            auth: false,
        }
    }

    fn delete_request(&self, i: usize) -> (r: WireRequest) {
        WireRequest {
            path: String::from_str("/delete_record"),
            body: Some(id_body(self.ids[i].as_str())),
            auth: false,
        }
    }

    fn scan_request(&self, scan: &Scan) -> (r: WireRequest) {
        let projection = match scan.projection() {
            Ok(p) => p,
            Err(_) => {
                proof {
                    assert(false);
                }
                Projection::Count
            },
        };
        if projection == Projection::Count {
            WireRequest { path: String::from_str("/count_records"), body: None, auth: false }
        } else {
            let limit: usize = match scan.limit() {
                Some(l) => l,
                None => 100,
            };
            let start: usize = match scan.start() {
                Some(s) => s,
                None => 0,
            };
            WireRequest {
                path: String::from_str("/scan_records"),
                body: Some(range_body(limit as u64, start as u64)),
                auth: false,
            }
        }
    }

    fn decode_scan(&self, scan: &Scan, response: &Json) -> (r: Result<usize, BenchError>)
        ensures
            r is Err ==> r == Err::<usize, BenchError>(BenchError::Decode),
    {
        let projection = match scan.projection() {
            Ok(p) => p,
            Err(_) => {
                proof {
                    assert(false);
                }
                Projection::Count
            },
        };
        if projection == Projection::Count {
            Self::u64_count(response)
        } else {
            match response.arr_len() {
                Some(l) => Ok(l),
                None => Err(BenchError::Decode),
            }
        }
    }

    fn count_request(&self) -> (r: WireRequest) {
        WireRequest { path: String::from_str("/count_records"), body: None, auth: false }
    }

    fn decode_count(&self, response: &Json) -> (r: Result<usize, BenchError>)
        ensures
            r is Err ==> r == Err::<usize, BenchError>(BenchError::Decode),
    {
        Self::u64_count(response)
    }

    fn create_vector_requests(&self, count: usize) -> (r: Result<Vec<PlannedRequest>, BenchError>)
        ensures
            (match r {
                Ok(v) => v@.len() == count && forall|i: int|
                    0 <= i < count ==> (match #[trigger] v@[i] {
                        PlannedRequest::Vector { path, dims, nearest } => path@
                            == "/create_vector"@ && dims == VECTOR_DIMS && nearest is None,
                        _ => false,
                    }),
                Err(e) => false,
            }),
    {
        let mut v: Vec<PlannedRequest> = Vec::new();
        let mut i: usize = 0;
        while i < count
            invariant
                i <= count,
                v@.len() == i,
                forall|j: int|
                    0 <= j < i ==> (match #[trigger] v@[j] {
                        PlannedRequest::Vector { path, dims, nearest } => path@
                            == "/create_vector"@ && dims == VECTOR_DIMS && nearest is None,
                        _ => false,
                    }),
            decreases count - i,
        {
            v.push(
                PlannedRequest::Vector {
                    path: String::from_str("/create_vector"),
                    dims: VECTOR_DIMS,
                    nearest: None,
                },
            );
            i = i + 1;
        }
        Ok(v)
    }

    fn search_vector_requests(&self, count: usize) -> (r: Result<Vec<PlannedRequest>, BenchError>)
        ensures
            (match r {
                Ok(v) => v@.len() == count && forall|i: int|
                    0 <= i < count ==> (match #[trigger] v@[i] {
                        PlannedRequest::Vector { path, dims, nearest } => path@
                            == "/search_vector"@ && dims == VECTOR_DIMS && nearest == Some(
                            SEARCH_NEAREST,
                        ),
                        _ => false,
                    }),
                Err(e) => false,
            }),
    {
        let mut v: Vec<PlannedRequest> = Vec::new();
        let mut i: usize = 0;
        while i < count
            invariant
                i <= count,
                v@.len() == i,
                forall|j: int|
                    0 <= j < i ==> (match #[trigger] v@[j] {
                        PlannedRequest::Vector { path, dims, nearest } => path@
                            == "/search_vector"@ && dims == VECTOR_DIMS && nearest == Some(
                            SEARCH_NEAREST,
                        ),
                        _ => false,
                    }),
            decreases count - i,
        {
            v.push(
                PlannedRequest::Vector {
                    path: String::from_str("/search_vector"),
                    dims: VECTOR_DIMS,
                    nearest: Some(SEARCH_NEAREST),
                },
            );
            i = i + 1;
        }
        Ok(v)
    }
}

/// Engine for the REST-JSON backend: resolves the endpoint, builds sessions.
pub struct HelixDBEngine {
    endpoint: String,
}

impl BenchmarkEngine for HelixDBEngine {
    type Client = HelixDBClient;

    closed spec fn spec_endpoint(&self) -> Seq<char> {
        self.endpoint@
    }

    open spec fn spec_resolved_endpoint(options: Benchmark) -> Seq<char> {
        match options.endpoint {
            Some(u) => u@,
            None => "http://localhost:6969"@,
        }
    }

    fn setup(options: &Benchmark) -> (r: Result<Self, BenchError>) {
        let endpoint = match &options.endpoint {
            Some(u) => {
                let mut e = String::new();
                e.append(u.as_str());
                e
            },
            None => String::from_str("http://localhost:6969"),
        };
        Ok(HelixDBEngine { endpoint })
    }

    fn endpoint(&self) -> (r: &str) {
        self.endpoint.as_str()
    }

    fn create_client(&self) -> (c: Self::Client)
        ensures
            c.handles() == Seq::<Seq<char>>::empty(),
            c.spec_endpoint() == self.spec_endpoint(),
    {
        let mut e = String::new();
        e.append(self.endpoint.as_str());
        HelixDBClient::new(e)
    }
}

} // verus!
