//! A record store as the harness assumes every conforming backend behaves:
//! records live in issuance order, a key addresses the earliest record
//! created under it, and scans are bounded range fetches.  The laws at the
//! bottom hold of any store with these semantics; the executable methods give
//! the tests an in-memory backend to drive whole runs against.

use vstd::prelude::*;
use crate::text::str_eq;
use crate::types::{Projection, Scan};
use vstd::string::*;

verus! {

type Record = (Seq<char>, Seq<char>);

/// The payload of the earliest record keyed `key`, if any.
pub open spec fn lookup_rec(recs: Seq<Record>, key: Seq<char>) -> Option<Seq<char>>
    decreases recs.len(),
{
    if recs.len() == 0 {
        None
    } else {
        match lookup_rec(recs.drop_last(), key) {
            Some(p) => Some(p),
            None => if recs.last().0 == key {
                Some(recs.last().1)
            } else {
                None
            },
        }
    }
}

/// The store after every record keyed `key` is removed.
pub open spec fn delete_rec(recs: Seq<Record>, key: Seq<char>) -> Seq<Record>
    decreases recs.len(),
{
    if recs.len() == 0 {
        Seq::empty()
    } else {
        let rest = delete_rec(recs.drop_last(), key);
        if recs.last().0 == key {
            rest
        } else {
            rest.push(recs.last())
        }
    }
}

/// The store after every record keyed `key` takes the payload `p`.
pub open spec fn update_rec(recs: Seq<Record>, key: Seq<char>, p: Seq<char>) -> Seq<Record> {
    Seq::new(
        recs.len(),
        |i: int| if recs[i].0 == key {
            (recs[i].0, p)
        } else {
            recs[i]
        },
    )
}

/// How many elements a scan of a store of `len` records observes.
pub open spec fn spec_scan_result(
    len: nat,
    limit: Option<usize>,
    start: Option<usize>,
    projection: Projection,
) -> nat {
    if projection == Projection::Count {
        len
    } else {
        let l = match limit {
            Some(l) => l as nat,
            None => 100,
        };
        let s = match start {
            Some(s) => s as nat,
            None => 0,
        };
        let available = if s >= len {
            0
        } else {
            (len - s) as nat
        };
        if l <= available {
            l
        } else {
            available
        }
    }
}

proof fn lemma_lookup_absent(recs: Seq<Record>, key: Seq<char>)
    requires
        forall|j: int| 0 <= j < recs.len() ==> recs[j].0 != key,
    ensures
        lookup_rec(recs, key) is None,
    decreases recs.len(),
{
    if recs.len() > 0 {
        lemma_lookup_absent(recs.drop_last(), key);
    }
}

proof fn lemma_lookup_first_hit(recs: Seq<Record>, key: Seq<char>, i: int)
    requires
        0 <= i < recs.len(),
        forall|j: int| 0 <= j < i ==> recs[j].0 != key,
        recs[i].0 == key,
    ensures
        lookup_rec(recs, key) == Some(recs[i].1),
    decreases recs.len(),
{
    if i == recs.len() - 1 {
        lemma_lookup_absent(recs.drop_last(), key);
    } else {
        lemma_lookup_first_hit(recs.drop_last(), key, i);
    }
}

/// An in-memory record store with exactly the semantics above.
pub struct RecordStore {
    records: Vec<(String, String)>,
}

impl View for RecordStore {
    type V = Seq<Record>;

    closed spec fn view(&self) -> Seq<Record> {
        self.records@.map_values(|r: (String, String)| (r.0@, r.1@))
    }
}

impl RecordStore {
    pub fn new() -> (r: Self)
        ensures
            r@ == Seq::<Record>::empty(),
    {
        let s = RecordStore { records: Vec::new() };
        proof {
            assert(s@ =~= Seq::<Record>::empty());
        }
        s
    }

    /// Inserts one record at the end, whatever the store already holds.
    pub fn create(&mut self, key: &str, payload: &str)
        ensures
            final(self)@ == old(self)@.push((key@, payload@)),
    {
        let mut k = String::new();
        k.append(key);
        let mut p = String::new();
        p.append(payload);
        self.records.push((k, p));
        proof {
            assert(self@ =~= old(self)@.push((key@, payload@)));
        }
    }

    /// The payload of the earliest record keyed `key`.
    pub fn read(&self, key: &str) -> (r: Option<String>)
        ensures
            match r {
                Some(p) => lookup_rec(self@, key@) == Some(p@),
                None => lookup_rec(self@, key@) is None,
            },
    {
        let n: usize = self.records.len();
        let mut i: usize = 0;
        while i < n
            invariant
                n == self.records@.len(),
                n == self@.len(),
                i <= n,
                forall|j: int| 0 <= j < i ==> self@[j].0 != key@,
            decreases n - i,
        {
            if str_eq(self.records[i].0.as_str(), key) {
                proof {
                    lemma_lookup_first_hit(self@, key@, i as int);
                }
                let mut p = String::new();
                p.append(self.records[i].1.as_str());
                return Some(p);
            }
            i = i + 1;
        }
        proof {
            lemma_lookup_absent(self@, key@);
        }
        None
    }

    /// Replaces the payload of every record keyed `key`; the store is
    /// unchanged when no record matches.
    pub fn update(&mut self, key: &str, payload: &str)
        ensures
            final(self)@ == update_rec(old(self)@, key@, payload@),
    {
        let n: usize = self.records.len();
        let mut out: Vec<(String, String)> = Vec::new();
        let mut i: usize = 0;
        while i < n
            invariant
                n == self.records@.len(),
                n == self@.len(),
                self@ == old(self)@,
                i <= n,
                out@.len() == i,
                forall|j: int|
                    0 <= j < i ==> ((#[trigger] out@[j]).0@, out@[j].1@) == update_rec(
                        self@,
                        key@,
                        payload@,
                    )[j],
            decreases n - i,
        {
            let mut k = String::new();
            k.append(self.records[i].0.as_str());
            if str_eq(self.records[i].0.as_str(), key) {
                let mut p = String::new();
                p.append(payload);
                out.push((k, p));
            } else {
                let mut p = String::new();
                p.append(self.records[i].1.as_str());
                out.push((k, p));
            }
            i = i + 1;
        }
        self.records = out;
        proof {
            assert(self@ =~= update_rec(old(self)@, key@, payload@));
        }
    }

    /// Removes every record keyed `key`.
    pub fn delete(&mut self, key: &str)
        ensures
            final(self)@ == delete_rec(old(self)@, key@),
    {
        let n: usize = self.records.len();
        let mut out: Vec<(String, String)> = Vec::new();
        let mut i: usize = 0;
        while i < n
            invariant
                n == self.records@.len(),
                n == self@.len(),
                self@ == old(self)@,
                i <= n,
                out@.map_values(|r: (String, String)| (r.0@, r.1@)) == delete_rec(
                    self@.take(i as int),
                    key@,
                ),
            decreases n - i,
        {
            proof {
                assert(self@.take(i + 1 as int).drop_last() =~= self@.take(i as int));
                assert(self@.take(i + 1 as int).last() == self@[i as int]);
            }
            if !str_eq(self.records[i].0.as_str(), key) {
                let mut k = String::new();
                k.append(self.records[i].0.as_str());
                let mut p = String::new();
                p.append(self.records[i].1.as_str());
                out.push((k, p));
            }
            proof {
                assert(out@.map_values(|r: (String, String)| (r.0@, r.1@)) =~= delete_rec(
                    self@.take(i + 1 as int),
                    key@,
                ));
            }
            i = i + 1;
        }
        self.records = out;
        proof {
            assert(old(self)@.take(n as int) =~= old(self)@);
        }
    }

    /// The number of records the store holds.
    pub fn count(&self) -> (r: usize)
        ensures
            r == self@.len(),
    {
        self.records.len()
    }

    /// The number of elements a scan observes, by projection: a bare count of
    /// everything, or the size of a bounded range fetch.
    pub fn scan(&self, scan: &Scan) -> (r: usize)
        ensures
            r == spec_scan_result(
                self@.len(),
                scan.spec_limit(),
                scan.spec_start(),
                scan.spec_projection(),
            ),
    {
        let len: usize = self.records.len();
        let projection = match scan.projection() {
            Ok(p) => p,
            Err(_) => {
                return 0;
            },
        };
        if projection == Projection::Count {
            len
        } else {
            let l: usize = match scan.limit() {
                Some(l) => l,
                None => 100,
            };
            let s: usize = match scan.start() {
                Some(s) => s,
                None => 0,
            };
            let available: usize = if s >= len {
                0
            } else {
                len - s
            };
            if l <= available {
                l
            } else {
                available
            }
        }
    }
}

/// Law: a read is idempotent.  Two reads of the same key, separated only by
/// further creates (no update or delete in between), observe the same
/// payload, provided the key was already present or none of the intervening
/// creates uses it.
pub proof fn lemma_read_idempotent(recs: Seq<Record>, adds: Seq<Record>, key: Seq<char>)
    requires
        lookup_rec(recs, key) is Some || forall|j: int|
            0 <= j < adds.len() ==> (#[trigger] adds[j]).0 != key,
    ensures
        lookup_rec(recs + adds, key) == lookup_rec(recs, key),
    decreases adds.len(),
{
    if adds.len() == 0 {
        assert(recs + adds =~= recs);
    } else {
        lemma_read_idempotent(recs, adds.drop_last(), key);
        assert((recs + adds).drop_last() =~= recs + adds.drop_last());
        assert((recs + adds).len() > 0);
        assert((recs + adds).last() == adds.last());
    }
}

/// Law: a round trip returns the payload given to create.  Creating a record
/// under a key the store does not hold yet, then reading that key, yields
/// exactly the created payload.
pub proof fn lemma_create_then_read(recs: Seq<Record>, key: Seq<char>, payload: Seq<char>)
    requires
        lookup_rec(recs, key) is None,
    ensures
        lookup_rec(recs.push((key, payload)), key) == Some(payload),
{
    assert(recs.push((key, payload)).drop_last() =~= recs);
}

/// Law: the read phase sees the created payloads.  After a run created
/// records under distinct keys the store did not hold, reading any of those
/// keys yields exactly the payload it was created with — the expectation the
/// read phase checks record by record.
pub proof fn lemma_reads_see_created_payloads(recs: Seq<Record>, adds: Seq<Record>, t: int)
    requires
        0 <= t < adds.len(),
        forall|i: int, j: int|
            0 <= i < adds.len() && 0 <= j < adds.len() && i != j ==> (#[trigger] adds[i]).0 != (
            #[trigger] adds[j]).0,
        forall|i: int, j: int|
            0 <= i < adds.len() && 0 <= j < recs.len() ==> (#[trigger] adds[i]).0 != (
            #[trigger] recs[j]).0,
    ensures
        lookup_rec(recs + adds, adds[t].0) == Some(adds[t].1),
    decreases adds.len(),
{
    if t == adds.len() - 1 {
        assert forall|j: int|
            0 <= j < (recs + adds.drop_last()).len() implies ((recs + adds.drop_last())[j]).0
            != adds[t].0 by {
            if j < recs.len() {
                assert((recs + adds.drop_last())[j] == recs[j]);
            } else {
                assert((recs + adds.drop_last())[j] == adds[j - recs.len()]);
            }
        }
        lemma_lookup_absent(recs + adds.drop_last(), adds[t].0);
        assert((recs + adds).drop_last() =~= recs + adds.drop_last());
        assert((recs + adds).last() == adds[t]);
    } else {
        lemma_reads_see_created_payloads(recs, adds.drop_last(), t);
        assert((recs + adds).drop_last() =~= recs + adds.drop_last());
        assert((recs + adds).len() > 0);
        assert((recs + adds).last() == adds.last());
    }
}

/// Law: creating `N` records grows the count by exactly `N`, whatever the
/// store held before and whatever keys the records use.
pub proof fn lemma_count_after_creates(recs: Seq<Record>, adds: Seq<Record>)
    ensures
        (recs + adds).len() == recs.len() + adds.len(),
{
}

/// Law: a count-only scan observes exactly what count reports, whatever
/// limit or start the scan carries.
pub proof fn lemma_scan_count_is_count(len: nat, limit: Option<usize>, start: Option<usize>)
    ensures
        spec_scan_result(len, limit, start, Projection::Count) == len,
{
}

/// Law: a full-record scan with limit `l` from the start observes exactly
/// `l` elements when the store holds at least `l` records, and exactly the
/// store's size otherwise.
pub proof fn lemma_scan_full_bounded(len: nat, l: usize)
    ensures
        spec_scan_result(len, Some(l), None, Projection::Full) == if l as nat <= len {
            l as nat
        } else {
            len
        },
{
}

} // verus!
