//! The portable client capability contract.  Every adapter plans one wire
//! request per catalog call and decodes the response that comes back; the
//! runner and the aggregator depend only on this interface.

use vstd::prelude::*;
use crate::json::Json;
use crate::types::{Benchmark, BenchError, Projection, Scan};
use crate::wire::{PlannedRequest, WireRequest, WireView};

verus! {

/// One live client session against a backend.  The adapter caches the record
/// handles the create phase obtained, in issuance order; the later phases of
/// the same run address exactly those records.
pub trait BenchmarkClient: Sized {
    /// The record handles cached so far, in issuance order.
    spec fn handles(&self) -> Seq<Seq<char>>;

    /// What this adapter's startup probe looks like, if it has one.
    spec fn req_startup(&self) -> Option<WireView>;

    /// What the request creating a record under `key` looks like.
    spec fn req_create(&self, key: Seq<char>, payload: Seq<char>) -> WireView;

    /// What the request reading the `i`th cached record looks like.
    spec fn req_read(&self, i: int) -> WireView;

    /// What the request updating the `i`th cached record looks like.
    spec fn req_update(&self, i: int, payload: Seq<char>) -> WireView;

    /// What the request deleting the `i`th cached record looks like.
    spec fn req_delete(&self, i: int) -> WireView;

    /// What a scan with the resolved limit, start and projection looks like.
    spec fn req_scan(&self, limit: nat, start: nat, projection: Projection) -> WireView;

    /// What the whole-collection count request looks like.
    spec fn req_count(&self) -> WireView;

    /// The probe that verifies the backend is reachable, when this adapter
    /// has one; the transport reports a failed probe as a connectivity error.
    fn startup_probe(&self) -> (r: Option<WireRequest>)
        ensures
            (match r {
                Some(req) => self.req_startup() == Some(req@),
                None => self.req_startup() is None,
            }),
    ;

    /// The request inserting one record under a synthesized key.
    fn create_request(&self, key: &str, payload: &str) -> (r: WireRequest)
        ensures
            r@ == self.req_create(key@, payload@),
    ;

    /// The handle one create response yields under the key the request
    /// carried, when the response decodes: the backend-assigned identifier,
    /// or the key echoed back where the backend assigns none.  It depends on
    /// the key and the response alone.
    spec fn spec_apply_create(key: Seq<char>, response: Json) -> Option<Seq<char>>;

    /// Folds one create response into the handle cache.  On success the run
    /// gains exactly the yielded handle, appended after the existing ones;
    /// on a decode failure the cache is untouched.
    fn apply_create_response(&mut self, key: &str, response: &Json) -> (r: Result<
        String,
        BenchError,
    >)
        ensures
            (match Self::spec_apply_create(key@, *response) {
                Some(h) => r matches Ok(returned) && returned@ == h && final(self).handles()
                    == old(self).handles().push(h),
                None => r is Err && final(self).handles() == old(self).handles(),
            }),
    ;

    /// How many handles the cache holds.
    fn handle_count(&self) -> (n: usize)
        ensures
            n == self.handles().len(),
    ;

    /// The request fetching the record behind the `i`th cached handle.
    fn read_request(&self, i: usize) -> (r: WireRequest)
        requires
            i < self.handles().len(),
        ensures
            r@ == self.req_read(i as int),
    ;

    /// The payload one read response yields, when it has the shape this
    /// adapter's reads come back in.
    spec fn decoded_read(&self, response: Json) -> Option<Seq<char>>;

    /// The payload a read response carries; a response that yields none is a
    /// decode failure.
    fn decode_read(&self, response: &Json) -> (r: Result<String, BenchError>)
        ensures
            (match self.decoded_read(*response) {
                Some(p) => r matches Ok(s) && s@ == p,
                None => r is Err,
            }),
    ;

    /// The request replacing the payload of the `i`th cached record.
    fn update_request(&self, i: usize, payload: &str) -> (r: WireRequest)
        requires
            i < self.handles().len(),
        ensures
            r@ == self.req_update(i as int, payload@),
    ;

    /// The request removing the `i`th cached record.
    fn delete_request(&self, i: usize) -> (r: WireRequest)
        requires
            i < self.handles().len(),
        ensures
            r@ == self.req_delete(i as int),
    ;

    /// The single request a scan issues.
    fn scan_request(&self, scan: &Scan) -> (r: WireRequest)
        ensures
            r@ == self.req_scan(
                scan.limit_or_default(),
                scan.start_or_default(),
                scan.spec_projection(),
            ),
    ;

    /// The element count one scan response yields under the projection, when
    /// it has the expected shape and fits the platform's size type.
    spec fn decoded_scan(&self, projection: Projection, response: Json) -> Option<nat>;

    /// The number of elements a scan response reports; a response that
    /// yields none is a decode failure.
    fn decode_scan(&self, scan: &Scan, response: &Json) -> (r: Result<usize, BenchError>)
        ensures
            (match self.decoded_scan(scan.spec_projection(), *response) {
                Some(n) => r matches Ok(c) && c as nat == n,
                None => r is Err,
            }),
    ;

    /// The request counting the whole collection.
    fn count_request(&self) -> (r: WireRequest)
        ensures
            r@ == self.req_count(),
    ;

    /// The collection count one count response yields, when it has the
    /// expected shape and fits the platform's size type.
    spec fn decoded_count(&self, response: Json) -> Option<nat>;

    /// The count a count response carries; a response that yields none is a
    /// decode failure.
    fn decode_count(&self, response: &Json) -> (r: Result<usize, BenchError>)
        ensures
            (match self.decoded_count(*response) {
                Some(n) => r matches Ok(c) && c as nat == n,
                None => r is Err,
            }),
    ;

    /// The requests of a vector-extension create run, one per vector, when
    /// the backend offers the capability; the unsupported-operation error
    /// when it does not.
    fn create_vector_requests(&self, count: usize) -> (r: Result<Vec<PlannedRequest>, BenchError>)
        ensures
            r matches Ok(v) ==> v@.len() == count,
    ;

    /// The requests of a vector-extension search run, one per query, under
    /// the same capability rule as vector creation.
    fn search_vector_requests(&self, count: usize) -> (r: Result<Vec<PlannedRequest>, BenchError>)
        ensures
            r matches Ok(v) ==> v@.len() == count,
    ;
}

/// Builds a client for one backend: resolves the endpoint once, then hands
/// out sessions ready for their startup probe.
pub trait BenchmarkEngine: Sized {
    type Client: BenchmarkClient;

    /// The endpoint every client of this engine will talk to.
    spec fn spec_endpoint(&self) -> Seq<char>;

    /// The endpoint setup resolves from the options: the explicit override
    /// when one is given, this backend's default otherwise.
    spec fn spec_resolved_endpoint(options: Benchmark) -> Seq<char>;

    /// Validates the configuration and resolves the endpoint.  No I/O
    /// happens here.
    fn setup(options: &Benchmark) -> (r: Result<Self, BenchError>)
        ensures
            (match r {
                Ok(e) => e.spec_endpoint() == Self::spec_resolved_endpoint(*options),
                Err(_) => false,
            }),
    ;

    /// The resolved endpoint, for the transport to join paths onto.
    fn endpoint(&self) -> (r: &str)
        ensures
            r@ == self.spec_endpoint(),
    ;

    /// A fresh session against this engine's endpoint, with an empty handle
    /// cache.
    fn create_client(&self) -> (c: Self::Client)
        ensures
            c.handles() == Seq::<Seq<char>>::empty(),
    ;
}

} // verus!
