//! UTC instants as plain values, backed by `chrono` for what only it computes.
use std::fmt::Write;
use vstd::prelude::*;

verus! {

/// The rendering, by `chrono`'s strftime-style pattern `pattern`, of the UTC
/// instant `secs` seconds and `nanos` nanoseconds after the Unix epoch;
/// `None` when `chrono` cannot represent that instant or the pattern cannot
/// be rendered.
pub uninterp spec fn utc_format_text(secs: i64, nanos: u32, pattern: Seq<char>) -> Option<Seq<char>>;

/// Calls `chrono::DateTime::<Utc>::from_timestamp` and, when it yields an
/// instant, writes `DateTime::format(pattern)` into a string; a formatting
/// error becomes `None`. The contract claims only that the result is the
/// named function `utc_format_text` of the three arguments.
#[verifier::external_body]
fn chrono_utc_format(secs: i64, nanos: u32, pattern: &str) -> (res: Option<String>)
    ensures
        match res {
            Some(s) => utc_format_text(secs, nanos, pattern@) == Some(s@),
            None => utc_format_text(secs, nanos, pattern@) is None,
        },
{
    match chrono::DateTime::from_timestamp(secs, nanos) {
        Some(dt) => {
            let mut out = String::new();
            match write!(out, "{}", dt.format(pattern)) {
                Ok(()) => Some(out),
                Err(_) => None,
            }
        },
        None => None,
    }
}

/// Calls `chrono::Utc::now()` and splits the instant into
/// `DateTime::timestamp()` and `DateTime::timestamp_subsec_nanos()`. The
/// contract claims only what holds of every outcome: `chrono` documents that
/// these two parts round-trip through `from_timestamp`, and its `%Y-%m-%d`
/// rendering of an instant it holds never fails, so `utc_format_text` renders
/// the instant with that pattern.
#[verifier::external_body]
fn chrono_utc_now() -> (res: (i64, u32))
    ensures
        utc_format_text(res.0, res.1, "%Y-%m-%d"@) is Some,
{
    let now = chrono::Utc::now();
    (now.timestamp(), now.timestamp_subsec_nanos())
}

/// The pattern of a UTC calendar date: year, month and day, `YYYY-MM-DD`.
pub const UTC_DATE_PATTERN: &'static str = "%Y-%m-%d";

/// A UTC instant: whole seconds since the Unix epoch and the nanoseconds
/// since the last whole second. Every value is an instant that `chrono`
/// can represent.
#[derive(Clone, Copy, Debug, PartialEq, Eq)]
pub struct Timestamp {
    secs: i64,
    nanos: u32,
}

impl Timestamp {
    #[verifier::type_invariant]
    spec fn representable(self) -> bool {
        utc_format_text(self.secs, self.nanos, UTC_DATE_PATTERN@) is Some
    }

    /// Seconds since the Unix epoch.
    pub closed spec fn spec_secs(self) -> i64 {
        self.secs
    }

    /// Nanoseconds since the last whole second.
    pub closed spec fn spec_nanos(self) -> u32 {
        self.nanos
    }

    /// The `%Y-%m-%d` rendering of this instant.
    pub open spec fn date_text(self) -> Seq<char> {
        utc_format_text(self.spec_secs(), self.spec_nanos(), UTC_DATE_PATTERN@).unwrap()
    }

    /// The current instant.
    pub fn now() -> (res: Timestamp) {
        let (secs, nanos) = chrono_utc_now();
        proof {
            reveal_strlit("%Y-%m-%d");
        }
        Timestamp { secs, nanos }
    }

    /// The instant `secs` seconds and `nanos` nanoseconds after the Unix
    /// epoch, or `None` when `chrono` cannot represent it (cannot render its
    /// calendar date).
    pub fn from_unix(secs: i64, nanos: u32) -> (res: Option<Timestamp>)
        ensures
            res is Some <==> utc_format_text(secs, nanos, UTC_DATE_PATTERN@) is Some,
            res matches Some(t) ==> t.spec_secs() == secs && t.spec_nanos() == nanos,
    {
        match chrono_utc_format(secs, nanos, UTC_DATE_PATTERN) {
            Some(_) => Some(Timestamp { secs, nanos }),
            None => None,
        }
    }

    /// Seconds since the Unix epoch.
    pub fn secs(&self) -> (res: i64)
        ensures
            res == self.spec_secs(),
    {
        self.secs
    }

    /// Nanoseconds since the last whole second.
    pub fn nanos(&self) -> (res: u32)
        ensures
            res == self.spec_nanos(),
    {
        self.nanos
    }

    /// The UTC calendar date of this instant, written `%Y-%m-%d`.
    pub fn utc_date(&self) -> (res: String)
        ensures
            res@ == self.date_text(),
    {
        proof {
            use_type_invariant(self);
        }
        match chrono_utc_format(self.secs, self.nanos, UTC_DATE_PATTERN) {
            Some(s) => s,
            None => {
                proof {
                    assert(false);
                }
                String::new()
            },
        }
    }
}

} // verus!
