//! Points in time, held as plain numbers.

use vstd::prelude::*;

verus! {

/// Nanoseconds in one second.
pub const NANOS_PER_SECOND: i64 = 1_000_000_000;

/// A point in time on the UTC time line: whole seconds since the Unix epoch
/// and the nanoseconds that have passed since that second began. During a
/// leap second `nanos` may run past 999,999,999.
#[derive(Clone, Copy, Debug, PartialEq, Eq, Hash, Structural)]
pub struct Timestamp {
    pub secs: i64,
    pub nanos: u32,
}

impl Timestamp {
    /// Nanoseconds between the Unix epoch and this point in time.
    pub open spec fn unix_nanos(self) -> int {
        self.secs * 1_000_000_000 + self.nanos
    }

    /// Whole milliseconds between the Unix epoch and this point in time.
    pub open spec fn unix_millis(self) -> int {
        self.secs * 1000 + self.nanos / 1_000_000
    }

    /// The point in time can be written as unsigned seconds and nanoseconds
    /// since the epoch: it does not lie before the epoch, and its distance
    /// from the epoch in nanoseconds fits in 64 bits.
    pub open spec fn has_unix_parts(self) -> bool {
        0 <= self.secs && self.unix_nanos() <= i64::MAX
    }

    /// Puts a point in time together from its two parts.
    pub fn new(secs: i64, nanos: u32) -> (t: Timestamp)
        ensures
            t.secs == secs,
            t.nanos == nanos,
    {
        Timestamp { secs, nanos }
    }

    /// Reads the system clock through `chrono::Utc::now`.
    ///
    /// Trusted, and nothing is promised of the result: it is whatever the
    /// clock says.
    #[verifier::external_body]
    pub(crate) fn now() -> Timestamp {
        let now = chrono::Utc::now();
        Timestamp { secs: now.timestamp(), nanos: now.timestamp_subsec_nanos() }
    }

    /// Nanoseconds since the epoch, where that number fits in an `i64`.
    pub fn unix_nanos_opt(&self) -> (r: Option<i64>)
        ensures
            match r {
                Some(n) => n == self.unix_nanos(),
                None => self.unix_nanos() < i64::MIN || i64::MAX < self.unix_nanos(),
            },
    {
        let secs: i128 = self.secs as i128;
        assert(i64::MIN * 1_000_000_000 <= secs * 1_000_000_000 <= i64::MAX * 1_000_000_000)
            by (nonlinear_arith)
            requires
                i64::MIN <= secs <= i64::MAX,
        ;
        let total: i128 = secs * (NANOS_PER_SECOND as i128) + (self.nanos as i128);
        if (i64::MIN as i128) <= total && total <= (i64::MAX as i128) {
            Some(total as i64)
        } else {
            None
        }
    }

    /// Splits the point in time into unsigned seconds since the epoch and the
    /// nanoseconds within that second, where it can be written that way.
    pub fn unix_parts(&self) -> (r: Option<(u64, u32)>)
        ensures
            match r {
                Some((secs, nanos)) => self.has_unix_parts() && secs == self.secs && nanos
                    == self.nanos,
                None => !self.has_unix_parts(),
            },
    {
        if self.secs < 0 {
            return None;
        }
        match self.unix_nanos_opt() {
            Some(_) => Some((self.secs as u64, self.nanos)),
            None => None,
        }
    }
}

/// Later points in time never have a smaller millisecond count.
pub proof fn lemma_unix_millis_monotonic(earlier: Timestamp, later: Timestamp)
    requires
        earlier.unix_nanos() <= later.unix_nanos(),
    ensures
        earlier.unix_millis() <= later.unix_millis(),
{
    lemma_unix_millis_is_floor(earlier);
    lemma_unix_millis_is_floor(later);
    assert(earlier.unix_nanos() / 1_000_000 <= later.unix_nanos() / 1_000_000) by (nonlinear_arith)
        requires
            earlier.unix_nanos() <= later.unix_nanos(),
    ;
}

/// The millisecond count is the nanosecond count divided by a million,
/// rounded down.
pub proof fn lemma_unix_millis_is_floor(t: Timestamp)
    ensures
        t.unix_millis() == t.unix_nanos() / 1_000_000,
{
    let s = t.secs as int;
    let n = t.nanos as int;
    assert((s * 1_000_000_000 + n) / 1_000_000 == s * 1000 + n / 1_000_000) by (nonlinear_arith);
}

} // verus!
