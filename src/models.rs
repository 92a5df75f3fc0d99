//! The values that the API exchanges.
use vstd::prelude::*;

verus! {

/// One level of a category path.
#[derive(Debug, Clone)]
pub struct Category {
    pub name: String,
}

/// A tag attached to an entry.
#[derive(Debug, Clone)]
pub struct Tag {
    pub name: String,
    pub version: Option<String>,
}

/// A tag with the number of entries that carry it.
#[derive(Debug, Clone)]
pub struct TagAndCount {
    pub name: String,
    pub version: Option<String>,
    pub count: u32,
}

/// The structured metadata of an entry.
#[derive(Debug, Clone)]
pub struct FrontMatter {
    pub title: String,
    pub summary: String,
    pub categories: Vec<Category>,
    pub tags: Vec<Tag>,
}

/// The earliest second that a timestamp may name, some 250,000 years before
/// the epoch: well inside the years that calendar arithmetic supports.
pub const MIN_UNIX_SECONDS: i64 = -8_000_000_000_000;

/// The latest second that a timestamp may name, some 250,000 years after
/// the epoch.
pub const MAX_UNIX_SECONDS: i64 = 8_000_000_000_000;

/// Whether seconds and nanoseconds since the Unix epoch name an instant.
/// Nanoseconds from one to two billion stand for a leap second, which only
/// the last second of a minute may carry.
pub open spec fn valid_instant(secs: i64, nanos: u32) -> bool {
    &&& MIN_UNIX_SECONDS <= secs <= MAX_UNIX_SECONDS
    &&& nanos < 2_000_000_000
    &&& nanos >= 1_000_000_000 ==> secs % 60 == 59
}

/// An instant in UTC, as seconds and nanoseconds since the Unix epoch.
#[derive(Debug, Clone, Copy)]
pub struct Timestamp {
    secs: i64,
    nanos: u32,
}

impl Timestamp {
    #[verifier::type_invariant]
    spec fn inv(&self) -> bool {
        valid_instant(self.secs, self.nanos)
    }

    /// The seconds since the Unix epoch.
    pub closed spec fn spec_secs(&self) -> i64 {
        self.secs
    }

    /// The nanoseconds within the second.
    pub closed spec fn spec_nanos(&self) -> u32 {
        self.nanos
    }

    /// The instant `secs` seconds and `nanos` nanoseconds after the Unix
    /// epoch, if that names an instant.
    pub fn from_unix(secs: i64, nanos: u32) -> (r: Option<Timestamp>)
        ensures
            r.is_some() == valid_instant(secs, nanos),
            r matches Some(t) ==> t.spec_secs() == secs && t.spec_nanos() == nanos,
    {
        if secs < MIN_UNIX_SECONDS || secs > MAX_UNIX_SECONDS || nanos >= 2_000_000_000 {
            return None;
        }
        if nanos >= 1_000_000_000 {
            let shifted: i64 = secs - MIN_UNIX_SECONDS;
            let second_of_minute: i64 = (shifted + 40) % 60;
            assert(second_of_minute == secs % 60) by (nonlinear_arith)
                requires
                    shifted == secs + 8_000_000_000_000,
                    0 <= shifted,
                    second_of_minute == (shifted + 40) % 60,
            ;
            if second_of_minute != 59 {
                return None;
            }
        }
        Some(Timestamp { secs, nanos })
    }

    /// The seconds since the Unix epoch.
    pub fn secs(&self) -> (r: i64)
        ensures
            r == self.spec_secs(),
            valid_instant(self.spec_secs(), self.spec_nanos()),
    {
        proof {
            use_type_invariant(self);
        }
        self.secs
    }

    /// The nanoseconds within the second.
    pub fn nanos(&self) -> (r: u32)
        ensures
            r == self.spec_nanos(),
            valid_instant(self.spec_secs(), self.spec_nanos()),
    {
        proof {
            use_type_invariant(self);
        }
        self.nanos
    }
}

/// Who touched an entry, and when.
#[derive(Debug, Clone)]
pub struct Author {
    pub name: String,
    pub date: Option<Timestamp>,
}

/// An entry as the server returns it.
#[derive(Debug, Clone)]
pub struct Entry {
    pub entry_id: u64,
    pub tenant_id: String,
    pub front_matter: FrontMatter,
    pub content: Option<String>,
    pub created: Author,
    pub updated: Author,
}

/// One page of a cursor-paginated listing. Cursor tokens are opaque.
#[derive(Debug, Clone)]
pub struct CursorPage<T> {
    pub content: Vec<T>,
    pub size: u32,
    pub has_previous: bool,
    pub has_next: bool,
    pub next_cursor: Option<String>,
    pub previous_cursor: Option<String>,
}

/// The structured error body of the server.
#[derive(Debug, Clone)]
pub struct ProblemDetail {
    pub detail: String,
    pub instance: String,
    pub status: u16,
    pub title: String,
    pub problem_type: Option<String>,
}

/// Filters of a listing: free text, categories and one tag.
#[derive(Debug, Clone)]
pub struct SearchCriteria {
    pub query: Option<String>,
    pub categories: Vec<String>,
    pub tag: Option<String>,
}

/// Which page of a listing to fetch.
#[derive(Debug, Clone)]
pub struct PageRequest {
    pub cursor: Option<String>,
    pub size: Option<u32>,
    pub direction: Option<String>,
}

/// The body of a request that replaces an entry's summary.
#[derive(Debug, Clone)]
pub struct EntrySummaryPatchRequest {
    pub summary: String,
}

} // verus!
