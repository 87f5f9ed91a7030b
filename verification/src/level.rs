//! Severity levels and filter thresholds.
//!
//! `Level` is the severity of a single log event; `LevelFilter` is a ceiling
//! that an event's level is compared against, with the extra value `Off`
//! that rejects every event. Both share one total order, written here as a
//! numeric rank: the most severe level (`Error`) has the smallest rank, so
//! "event at level `l` passes ceiling `f`" is `l.rank() <= f.rank()`.

use vstd::prelude::*;
use vstd::string::StrSliceExecFns;

verus! {

/// Error returned when a textual level or filter name is not one of the
/// supported spellings.
#[derive(Clone, Copy, Debug, PartialEq, Eq, Structural)]
pub struct ParseLevelError;

impl ParseLevelError {
    /// A description of the failure, for callers that report it.
    pub fn description(&self) -> (s: &'static str)
        ensures
            s@ == "attempted to convert a string that doesn't match an existing log level"@,
    {
        "attempted to convert a string that doesn't match an existing log level"
    }
}

/// `s` spells the name whose lowercase form is `lower` and uppercase form
/// is `upper`, with each character in either case.
pub open spec fn name_matches(s: Seq<char>, lower: Seq<char>, upper: Seq<char>) -> bool {
    &&& s.len() == lower.len()
    &&& s.len() == upper.len()
    &&& forall|i: int| 0 <= i < s.len() ==> s[i] == lower[i] || s[i] == upper[i]
}

/// The level that the name `s` denotes, if any; names are matched without
/// regard to case.
pub open spec fn level_for_name(s: Seq<char>) -> Option<Level> {
    if name_matches(s, "error"@, "ERROR"@) {
        Some(Level::Error)
    } else if name_matches(s, "warn"@, "WARN"@) {
        Some(Level::Warn)
    } else if name_matches(s, "info"@, "INFO"@) {
        Some(Level::Info)
    } else if name_matches(s, "debug"@, "DEBUG"@) {
        Some(Level::Debug)
    } else if name_matches(s, "trace"@, "TRACE"@) {
        Some(Level::Trace)
    } else {
        None
    }
}

/// The filter that the name `s` denotes, if any: the level names plus
/// `"off"`, again without regard to case.
pub open spec fn filter_for_name(s: Seq<char>) -> Option<LevelFilter> {
    if name_matches(s, "off"@, "OFF"@) {
        Some(LevelFilter::Off)
    } else {
        match level_for_name(s) {
            Some(l) => Some(l.to_filter()),
            None => None,
        }
    }
}

/// Whether `s` spells the same name as the equal-length pair
/// `lower`/`upper`, character by character in either case.
fn matches_spelling(s: &str, lower: &str, upper: &str) -> (r: bool)
    requires
        lower@.len() == upper@.len(),
    ensures
        r == name_matches(s@, lower@, upper@),
{
    let n = s.unicode_len();
    if n != lower.unicode_len() {
        return false;
    }
    let mut i: usize = 0;
    while i < n
        invariant
            n == s@.len(),
            n == lower@.len(),
            n == upper@.len(),
            0 <= i <= n,
            forall|j: int| 0 <= j < i ==> s@[j] == lower@[j] || s@[j] == upper@[j],
        decreases n - i,
    {
        let c = s.get_char(i);
        let cl = lower.get_char(i);
        let cu = upper.get_char(i);
        if c != cl && c != cu {
            return false;
        }
        i += 1;
    }
    true
}

/// Severity of a single log event, from most severe (`Error`) to least
/// severe (`Trace`).
#[derive(Clone, Copy, Debug, PartialEq, Eq, Hash, PartialOrd, Ord, Structural)]
pub enum Level {
    Error,
    Warn,
    Info,
    Debug,
    Trace,
}

/// A ceiling on event levels: either a `Level`, or `Off`, which rejects
/// every event.
#[derive(Clone, Copy, Debug, PartialEq, Eq, Hash, PartialOrd, Ord, Structural)]
pub enum LevelFilter {
    Off,
    Error,
    Warn,
    Info,
    Debug,
    Trace,
}

impl Level {
    /// Position of this level in the shared total order; `Error` is
    /// smallest so that lower rank means higher severity.
    pub open spec fn rank(self) -> int {
        match self {
            Level::Error => 1,
            Level::Warn => 2,
            Level::Info => 3,
            Level::Debug => 4,
            Level::Trace => 5,
        }
    }

    /// The filter value that admits exactly the events this level admits.
    pub open spec fn to_filter(self) -> LevelFilter {
        match self {
            Level::Error => LevelFilter::Error,
            Level::Warn => LevelFilter::Warn,
            Level::Info => LevelFilter::Info,
            Level::Debug => LevelFilter::Debug,
            Level::Trace => LevelFilter::Trace,
        }
    }

    /// Rank as an executable integer.
    pub fn as_usize(self) -> (n: usize)
        ensures
            n == self.rank(),
    {
        match self {
            Level::Error => 1,
            Level::Warn => 2,
            Level::Info => 3,
            Level::Debug => 4,
            Level::Trace => 5,
        }
    }

    /// Order between two event levels.
    pub fn le(self, other: Level) -> (r: bool)
        ensures
            r == (self.rank() <= other.rank()),
    {
        self.as_usize() <= other.as_usize()
    }

    /// Whether an event at this level passes the ceiling `filter`.
    pub fn le_filter(self, filter: LevelFilter) -> (r: bool)
        ensures
            r == (self.rank() <= filter.rank()),
    {
        self.as_usize() <= filter.as_usize()
    }

    /// Lossless conversion into the equal-valued filter.
    pub fn to_level_filter(self) -> (f: LevelFilter)
        ensures
            f == self.to_filter(),
    {
        match self {
            Level::Error => LevelFilter::Error,
            Level::Warn => LevelFilter::Warn,
            Level::Info => LevelFilter::Info,
            Level::Debug => LevelFilter::Debug,
            Level::Trace => LevelFilter::Trace,
        }
    }

    /// The canonical (uppercase) spelling of this level's name.
    pub open spec fn canonical_name(self) -> Seq<char> {
        match self {
            Level::Error => "ERROR"@,
            Level::Warn => "WARN"@,
            Level::Info => "INFO"@,
            Level::Debug => "DEBUG"@,
            Level::Trace => "TRACE"@,
        }
    }

    /// The lowercase spelling of this level's name.
    pub open spec fn lower_name(self) -> Seq<char> {
        match self {
            Level::Error => "error"@,
            Level::Warn => "warn"@,
            Level::Info => "info"@,
            Level::Debug => "debug"@,
            Level::Trace => "trace"@,
        }
    }

    /// Render this level as its canonical name.
    pub fn as_str(self) -> (s: &'static str)
        ensures
            s@ == self.canonical_name(),
    {
        match self {
            Level::Error => "ERROR",
            Level::Warn => "WARN",
            Level::Info => "INFO",
            Level::Debug => "DEBUG",
            Level::Trace => "TRACE",
        }
    }

    /// Parse a level from its name, in any mix of cases; any other text is
    /// rejected with a descriptive error.
    pub fn from_name(s: &str) -> (r: Result<Level, ParseLevelError>)
        ensures
            match r {
                Ok(l) => level_for_name(s@) == Some(l),
                Err(e) => level_for_name(s@) is None,
            },
    {
        proof {
            reveal_strlit("error");
            reveal_strlit("ERROR");
            reveal_strlit("warn");
            reveal_strlit("WARN");
            reveal_strlit("info");
            reveal_strlit("INFO");
            reveal_strlit("debug");
            reveal_strlit("DEBUG");
            reveal_strlit("trace");
            reveal_strlit("TRACE");
        }
        if matches_spelling(s, "error", "ERROR") {
            Ok(Level::Error)
        } else if matches_spelling(s, "warn", "WARN") {
            Ok(Level::Warn)
        } else if matches_spelling(s, "info", "INFO") {
            Ok(Level::Info)
        } else if matches_spelling(s, "debug", "DEBUG") {
            Ok(Level::Debug)
        } else if matches_spelling(s, "trace", "TRACE") {
            Ok(Level::Trace)
        } else {
            Err(ParseLevelError)
        }
    }
}

impl LevelFilter {
    /// Position of this filter in the shared total order; `Off` is below
    /// every level, so it rejects everything.
    pub open spec fn rank(self) -> int {
        match self {
            LevelFilter::Off => 0,
            LevelFilter::Error => 1,
            LevelFilter::Warn => 2,
            LevelFilter::Info => 3,
            LevelFilter::Debug => 4,
            LevelFilter::Trace => 5,
        }
    }

    /// The most severe level this filter admits, if it admits any.
    pub open spec fn to_level_spec(self) -> Option<Level> {
        match self {
            LevelFilter::Off => None,
            LevelFilter::Error => Some(Level::Error),
            LevelFilter::Warn => Some(Level::Warn),
            LevelFilter::Info => Some(Level::Info),
            LevelFilter::Debug => Some(Level::Debug),
            LevelFilter::Trace => Some(Level::Trace),
        }
    }

    /// Rank as an executable integer.
    pub fn as_usize(self) -> (n: usize)
        ensures
            n == self.rank(),
    {
        match self {
            LevelFilter::Off => 0,
            LevelFilter::Error => 1,
            LevelFilter::Warn => 2,
            LevelFilter::Info => 3,
            LevelFilter::Debug => 4,
            LevelFilter::Trace => 5,
        }
    }

    /// Order between two filters.
    pub fn le(self, other: LevelFilter) -> (r: bool)
        ensures
            r == (self.rank() <= other.rank()),
    {
        self.as_usize() <= other.as_usize()
    }

    /// The most severe level this filter admits, if any.
    pub fn to_level(self) -> (l: Option<Level>)
        ensures
            l == self.to_level_spec(),
    {
        match self {
            LevelFilter::Off => None,
            LevelFilter::Error => Some(Level::Error),
            LevelFilter::Warn => Some(Level::Warn),
            LevelFilter::Info => Some(Level::Info),
            LevelFilter::Debug => Some(Level::Debug),
            LevelFilter::Trace => Some(Level::Trace),
        }
    }

    /// The canonical (uppercase) spelling of this filter's name.
    pub open spec fn canonical_name(self) -> Seq<char> {
        match self {
            LevelFilter::Off => "OFF"@,
            LevelFilter::Error => "ERROR"@,
            LevelFilter::Warn => "WARN"@,
            LevelFilter::Info => "INFO"@,
            LevelFilter::Debug => "DEBUG"@,
            LevelFilter::Trace => "TRACE"@,
        }
    }

    /// Render this filter as its canonical name.
    pub fn as_str(self) -> (s: &'static str)
        ensures
            s@ == self.canonical_name(),
    {
        match self {
            LevelFilter::Off => "OFF",
            LevelFilter::Error => "ERROR",
            LevelFilter::Warn => "WARN",
            LevelFilter::Info => "INFO",
            LevelFilter::Debug => "DEBUG",
            LevelFilter::Trace => "TRACE",
        }
    }

    /// Parse a filter from its name, in any mix of cases; any other text is
    /// rejected with a descriptive error.
    pub fn from_name(s: &str) -> (r: Result<LevelFilter, ParseLevelError>)
        ensures
            match r {
                Ok(f) => filter_for_name(s@) == Some(f),
                Err(e) => filter_for_name(s@) is None,
            },
    {
        proof {
            reveal_strlit("off");
            reveal_strlit("OFF");
        }
        if matches_spelling(s, "off", "OFF") {
            Ok(LevelFilter::Off)
        } else {
            match Level::from_name(s) {
                Ok(l) => Ok(l.to_level_filter()),
                Err(e) => Err(e),
            }
        }
    }
}

/// An event at `level` is eligible to reach a backend exactly when it
/// passes both the fixed ceiling `static_max` and the runtime ceiling
/// `dynamic_max`.
pub open spec fn event_eligible(static_max: LevelFilter, dynamic_max: LevelFilter, level: Level) -> bool {
    level.rank() <= static_max.rank() && level.rank() <= dynamic_max.rank()
}

/// The shared order lists levels from most to least severe, and converting
/// a level to the equal-valued filter preserves the order exactly, with
/// `Off` strictly below every level.
pub proof fn lemma_order_agrees_with_severity()
    ensures
        Level::Error.rank() < Level::Warn.rank(),
        Level::Warn.rank() < Level::Info.rank(),
        Level::Info.rank() < Level::Debug.rank(),
        Level::Debug.rank() < Level::Trace.rank(),
        forall|a: Level, b: Level|
            (a.rank() <= b.rank()) == (#[trigger] a.to_filter().rank() <= #[trigger] b.to_filter().rank()),
        forall|l: Level| LevelFilter::Off.rank() < #[trigger] l.to_filter().rank(),
{
}

/// A name cannot spell a pair from which it differs, in both cases, at
/// some index.
proof fn lemma_spelling_mismatch(s: Seq<char>, lower: Seq<char>, upper: Seq<char>, i: int)
    requires
        0 <= i < s.len(),
        s[i] != lower[i],
        s[i] != upper[i],
    ensures
        !name_matches(s, lower, upper),
{
}

/// Round trip of names: rendering a level or filter and parsing the text
/// back yields the same value, and any name that parses at all is a
/// case-insensitive spelling of the canonical name of the value it yields.
pub proof fn lemma_name_round_trip()
    ensures
        forall|l: Level| #[trigger] level_for_name(l.canonical_name()) == Some(l),
        forall|f: LevelFilter| #[trigger] filter_for_name(f.canonical_name()) == Some(f),
        forall|s: Seq<char>, l: Level|
            level_for_name(s) == Some(l) ==> name_matches(s, l.lower_name(), l.canonical_name()),
{
    reveal_strlit("off");
    reveal_strlit("OFF");
    reveal_strlit("error");
    reveal_strlit("ERROR");
    reveal_strlit("warn");
    reveal_strlit("WARN");
    reveal_strlit("info");
    reveal_strlit("INFO");
    reveal_strlit("debug");
    reveal_strlit("DEBUG");
    reveal_strlit("trace");
    reveal_strlit("TRACE");
    lemma_spelling_mismatch("INFO"@, "warn"@, "WARN"@, 0);
    lemma_spelling_mismatch("DEBUG"@, "error"@, "ERROR"@, 0);
    lemma_spelling_mismatch("TRACE"@, "error"@, "ERROR"@, 0);
    lemma_spelling_mismatch("TRACE"@, "debug"@, "DEBUG"@, 0);
    assert(level_for_name("ERROR"@) == Some(Level::Error));
    assert(level_for_name("WARN"@) == Some(Level::Warn));
    assert(level_for_name("INFO"@) == Some(Level::Info));
    assert(level_for_name("DEBUG"@) == Some(Level::Debug));
    assert(level_for_name("TRACE"@) == Some(Level::Trace));
    assert(filter_for_name("OFF"@) == Some(LevelFilter::Off));
    assert forall|l: Level| #[trigger] level_for_name(l.canonical_name()) == Some(l) by {
        match l {
            Level::Error => assert(level_for_name("ERROR"@) == Some(Level::Error)),
            Level::Warn => assert(level_for_name("WARN"@) == Some(Level::Warn)),
            Level::Info => assert(level_for_name("INFO"@) == Some(Level::Info)),
            Level::Debug => assert(level_for_name("DEBUG"@) == Some(Level::Debug)),
            Level::Trace => assert(level_for_name("TRACE"@) == Some(Level::Trace)),
        }
    }
    assert forall|f: LevelFilter| #[trigger] filter_for_name(f.canonical_name()) == Some(f) by {
        match f {
            LevelFilter::Off => assert(filter_for_name("OFF"@) == Some(LevelFilter::Off)),
            LevelFilter::Error => assert(filter_for_name("ERROR"@) == Some(LevelFilter::Error)),
            LevelFilter::Warn => assert(filter_for_name("WARN"@) == Some(LevelFilter::Warn)),
            LevelFilter::Info => assert(filter_for_name("INFO"@) == Some(LevelFilter::Info)),
            LevelFilter::Debug => assert(filter_for_name("DEBUG"@) == Some(LevelFilter::Debug)),
            LevelFilter::Trace => assert(filter_for_name("TRACE"@) == Some(LevelFilter::Trace)),
        }
    }
}

} // verus!
