//! Points in time, as seconds and nanoseconds since the Unix epoch.
use vstd::prelude::*;

verus! {

/// A point in time: whole seconds since the Unix epoch, and the nanoseconds
/// past that second.
#[derive(Clone, Copy, Debug, PartialEq, Eq, Structural)]
pub struct Timestamp {
    pub secs: i64,
    pub nanos: u32,
}

impl Timestamp {
    /// Whether `self` lies strictly before `other`.
    pub open spec fn is_before(&self, other: Timestamp) -> bool {
        self.secs < other.secs || (self.secs == other.secs && self.nanos < other.nanos)
    }

    /// Whether `self` lies strictly before `other`.
    pub fn before(&self, other: &Timestamp) -> (r: bool)
        ensures
            r == self.is_before(*other),
    {
        self.secs < other.secs || (self.secs == other.secs && self.nanos < other.nanos)
    }

    /// The point `secs` whole seconds after `self`, or `None` where that is
    /// past the last second that can be represented.
    pub fn checked_add_seconds(&self, secs: u64) -> (r: Option<Timestamp>)
        ensures
            r is Some <==> self.secs + secs <= i64::MAX,
            r matches Some(t) ==> t.secs == self.secs + secs && t.nanos == self.nanos,
    {
        let sum: i128 = self.secs as i128 + secs as i128;
        if sum <= i64::MAX as i128 {
            Some(Timestamp { secs: sum as i64, nanos: self.nanos })
        } else {
            None
        }
    }
}

/// A later point stays later than whatever lies before the earlier one, and
/// no point lies before itself.
pub proof fn lemma_before_is_strict_order(a: Timestamp, b: Timestamp, c: Timestamp)
    ensures
        !a.is_before(a),
        a.is_before(b) && b.is_before(c) ==> a.is_before(c),
        a.is_before(b) ==> !b.is_before(a),
{
}

/// Adding a positive number of whole seconds gives a strictly later point.
pub proof fn lemma_add_seconds_is_later(a: Timestamp, b: Timestamp, secs: u64)
    requires
        secs > 0,
        b.secs == a.secs + secs,
        b.nanos == a.nanos,
    ensures
        a.is_before(b),
{
}

} // verus!
