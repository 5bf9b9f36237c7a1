//! Instants on the UTC time line and the clock that reads them.

use vstd::prelude::*;

verus! {

/// An instant in UTC: whole seconds since the Unix epoch and the nanoseconds
/// past that second.
///
/// Instants are ordered by `secs` first and by `nanos` within the same second.
/// During a leap second `nanos` may run past 999,999,999; the order is the
/// same.
#[derive(Clone, Copy, Debug, PartialEq, Eq, Structural)]
pub struct Timestamp {
    pub secs: i64,
    pub nanos: u32,
}

impl Timestamp {
    /// `self` lies strictly before `other`.
    pub open spec fn is_before(self, other: Timestamp) -> bool {
        self.secs < other.secs || (self.secs == other.secs && self.nanos < other.nanos)
    }

    /// The instant `nanos` nanoseconds past the second `secs`.
    pub fn new(secs: i64, nanos: u32) -> (t: Timestamp)
        ensures
            t.secs == secs,
            t.nanos == nanos,
    {
        Timestamp { secs, nanos }
    }

    /// Whether `self` lies strictly before `other`.
    pub fn before(&self, other: &Timestamp) -> (earlier: bool)
        ensures
            earlier == self.is_before(*other),
    {
        self.secs < other.secs || (self.secs == other.secs && self.nanos < other.nanos)
    }
}

/// Of two instants exactly one holds: the first is before the second, they
/// are equal, or the second is before the first.
pub proof fn lemma_before_is_total(a: Timestamp, b: Timestamp)
    ensures
        a.is_before(b) || a == b || b.is_before(a),
        !(a.is_before(b) && b.is_before(a)),
        !a.is_before(a),
{
}

/// What is before an instant is before everything that the instant is before.
pub proof fn lemma_before_is_transitive(a: Timestamp, b: Timestamp, c: Timestamp)
    requires
        a.is_before(b),
        b.is_before(c),
    ensures
        a.is_before(c),
{
}

/// Reads the system clock through `chrono::Utc::now` and hands the instant
/// back as its Unix seconds (`DateTime::timestamp`) and the nanoseconds past
/// them (`DateTime::timestamp_subsec_nanos`). Nothing is claimed of the
/// instant: two readings may differ in either direction. `Utc::now` panics
/// where the system clock stands before the Unix epoch.
#[verifier::external_body]
pub(crate) fn now() -> (t: Timestamp) {
    let t = chrono::Utc::now();
    Timestamp { secs: t.timestamp(), nanos: t.timestamp_subsec_nanos() }
}

} // verus!
