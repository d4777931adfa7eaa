//! The operation catalog and run configuration: which store to exercise, how
//! to reach it, which operation to time, and the error taxonomy every layer
//! reports through.

use vstd::prelude::*;
use crate::text::{ascii_lower, dec_rep, eq_lowered, push_dec};
use vstd::string::*;

verus! {

/// The store a run exercises.
#[derive(Clone, Copy, PartialEq, Eq, Structural, Debug)]
pub enum Database {
    HelixDB,
    Neo4j,
}

/// Configuration for one run: the selected store and an optional endpoint
/// override (when absent, the store's default endpoint is used).
#[derive(Clone)]
pub struct Benchmark {
    pub database: Database,
    pub endpoint: Option<String>,
}

/// The identifier domain keyed operations synthesize their keys from.
#[derive(Clone, Copy, PartialEq, Eq, Structural, Debug)]
pub enum KeyType {
    Numeric,
    Textual,
}

/// What a scan returns: identifiers, whole records, or a bare count.
#[derive(Clone, Copy, PartialEq, Eq, Structural, Debug)]
pub enum Projection {
    Id,
    Full,
    Count,
}

/// Parameters of one scan invocation.
#[derive(Clone)]
pub struct Scan {
    pub limit: Option<usize>,
    pub start: Option<usize>,
    projection: Projection,
}

impl Scan {
    pub closed spec fn spec_projection(&self) -> Projection {
        self.projection
    }

    pub closed spec fn spec_limit(&self) -> Option<usize> {
        self.limit
    }

    pub closed spec fn spec_start(&self) -> Option<usize> {
        self.start
    }

    pub fn new(limit: Option<usize>, start: Option<usize>, projection: Projection) -> (r: Self)
        ensures
            r.spec_limit() == limit,
            r.spec_start() == start,
            r.spec_projection() == projection,
    {
        Self { limit, start, projection }
    }

    /// The bound of a range fetch: the carried limit, or 100 when absent.
    pub open spec fn limit_or_default(&self) -> nat {
        match self.spec_limit() {
            Some(l) => l as nat,
            None => 100,
        }
    }

    /// The offset of a range fetch: the carried start, or 0 when absent.
    pub open spec fn start_or_default(&self) -> nat {
        match self.spec_start() {
            Some(s) => s as nat,
            None => 0,
        }
    }

    pub fn limit(&self) -> (r: Option<usize>)
        ensures
            r == self.spec_limit(),
    {
        self.limit
    }

    pub fn start(&self) -> (r: Option<usize>)
        ensures
            r == self.spec_start(),
    {
        self.start
    }

    pub fn projection(&self) -> (r: Result<Projection, BenchError>)
        ensures
            r == Ok::<Projection, BenchError>(self.spec_projection()),
    {
        Ok(self.projection)
    }
}

/// The timeable operations of the catalog.
#[derive(Clone, Copy, PartialEq, Eq, Structural, Debug)]
pub enum Operation {
    Create,
    Read,
    Update,
    Delete,
    Scan,
}

/// Everything a run can fail with.  Every error aborts the run immediately
/// and reaches the caller unchanged.
#[derive(Clone, Copy, PartialEq, Eq, Structural, Debug)]
pub enum BenchError {
    /// An option value names no known database or key type.
    Configuration,
    /// The backend could not be reached at the transport level.
    Connectivity,
    /// A reachable backend answered with the carried non-success status.
    BackendRequest(u16),
    /// A response body was present but not of the expected shape.
    Decode,
    /// A requested operation or capability is not available here.
    UnsupportedOperation,
}

impl BenchError {
    /// The rendering of this error, one line of plain text.
    pub open spec fn spec_describe(self) -> Seq<char> {
        match self {
            BenchError::Configuration => "invalid configuration value"@,
            BenchError::Connectivity => "backend not reachable"@,
            BenchError::BackendRequest(status) => "request failed with status "@ + dec_rep(
                status as nat,
            ),
            BenchError::Decode => "response body not of the expected shape"@,
            BenchError::UnsupportedOperation => "unsupported operation"@,
        }
    }

    pub fn describe(&self) -> (r: String)
        ensures
            r@ == self.spec_describe(),
    {
        match self {
            BenchError::Configuration => {
                let mut s = String::new();
                s.append("invalid configuration value");
                proof {
                    assert(s@ =~= self.spec_describe());
                }
                s
            },
            BenchError::Connectivity => {
                let mut s = String::new();
                s.append("backend not reachable");
                proof {
                    assert(s@ =~= self.spec_describe());
                }
                s
            },
            BenchError::BackendRequest(status) => {
                let mut s = String::new();
                s.append("request failed with status ");
                push_dec(&mut s, *status as u64);
                proof {
                    assert(s@ =~= self.spec_describe());
                }
                s
            },
            BenchError::Decode => {
                let mut s = String::new();
                s.append("response body not of the expected shape");
                proof {
                    assert(s@ =~= self.spec_describe());
                }
                s
            },
            BenchError::UnsupportedOperation => {
                let mut s = String::new();
                s.append("unsupported operation");
                proof {
                    assert(s@ =~= self.spec_describe());
                }
                s
            },
        }
    }
}

/// The display name of a database.
pub fn database_name(database: Database) -> (r: &'static str)
    ensures
        database == Database::HelixDB ==> r@ == "HelixDB"@,
        database == Database::Neo4j ==> r@ == "Neo4j"@,
{
    match database {
        Database::HelixDB => "HelixDB",
        Database::Neo4j => "Neo4j",
    }
}

/// Selects the database named by an option value, ASCII case-insensitively.
/// An unknown name is a configuration error, reported before any network
/// activity can happen.
pub fn parse_database(s: &str) -> (r: Result<Database, BenchError>)
    ensures
        r == if ascii_lower(s@) == "helixdb"@ {
            Ok::<Database, BenchError>(Database::HelixDB)
        } else if ascii_lower(s@) == "neo4j"@ {
            Ok::<Database, BenchError>(Database::Neo4j)
        } else {
            Err::<Database, BenchError>(BenchError::Configuration)
        },
{
    if eq_lowered(s, "helixdb") {
        Ok(Database::HelixDB)
    } else if eq_lowered(s, "neo4j") {
        Ok(Database::Neo4j)
    } else {
        Err(BenchError::Configuration)
    }
}

/// Selects the key type named by an option value, ASCII case-insensitively.
pub fn parse_key_type(s: &str) -> (r: Result<KeyType, BenchError>)
    ensures
        r == if ascii_lower(s@) == "u32"@ {
            Ok::<KeyType, BenchError>(KeyType::Numeric)
        } else if ascii_lower(s@) == "string"@ {
            Ok::<KeyType, BenchError>(KeyType::Textual)
        } else {
            Err::<KeyType, BenchError>(BenchError::Configuration)
        },
{
    if eq_lowered(s, "u32") {
        Ok(KeyType::Numeric)
    } else if eq_lowered(s, "string") {
        Ok(KeyType::Textual)
    } else {
        Err(BenchError::Configuration)
    }
}

/// The operation an option value names, if any.
pub open spec fn spec_parse_operation(s: Seq<char>) -> Option<Operation> {
    if ascii_lower(s) == "create"@ {
        Some(Operation::Create)
    } else if ascii_lower(s) == "read"@ {
        Some(Operation::Read)
    } else if ascii_lower(s) == "update"@ {
        Some(Operation::Update)
    } else if ascii_lower(s) == "delete"@ {
        Some(Operation::Delete)
    } else if ascii_lower(s) == "scan"@ {
        Some(Operation::Scan)
    } else {
        None
    }
}

/// Resolves an operation name; an unknown name is the unsupported-operation
/// error, raised before any request is issued.
pub fn parse_operation(s: &str) -> (r: Result<Operation, BenchError>)
    ensures
        r == match spec_parse_operation(s@) {
            Some(op) => Ok::<Operation, BenchError>(op),
            None => Err::<Operation, BenchError>(BenchError::UnsupportedOperation),
        },
{
    if eq_lowered(s, "create") {
        Ok(Operation::Create)
    } else if eq_lowered(s, "read") {
        Ok(Operation::Read)
    } else if eq_lowered(s, "update") {
        Ok(Operation::Update)
    } else if eq_lowered(s, "delete") {
        Ok(Operation::Delete)
    } else if eq_lowered(s, "scan") {
        Ok(Operation::Scan)
    } else {
        Err(BenchError::UnsupportedOperation)
    }
}

/// Whether an option value names the whole suite rather than one operation.
pub fn is_all(s: &str) -> (r: bool)
    ensures
        r == (ascii_lower(s@) == "all"@),
{
    eq_lowered(s, "all")
}

} // verus!
