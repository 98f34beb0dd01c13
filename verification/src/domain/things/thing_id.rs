//! Time-ordered unique identifiers.
//!
//! An identifier is 128 bits wide. One made by this module is laid out as a
//! version 7 UUID: the upper 48 bits count the milliseconds since the Unix
//! epoch, four bits give the version, two bits the variant, and the rest is
//! random. Read as plain numbers, such identifiers sort by the millisecond in
//! which they were made.

use crate::domain::things::timestamp::{
    lemma_unix_millis_is_floor, lemma_unix_millis_monotonic, Timestamp,
};
use crate::error::Error;
use vstd::prelude::*;

verus! {

/// The identifier of a thing: 128 bits, compared as one unsigned number.
#[derive(Clone, Copy, Debug, PartialEq, Eq, PartialOrd, Ord, Hash, Structural)]
pub struct ThingId(pub u128);

impl ThingId {
    /// The upper 48 bits: milliseconds since the Unix epoch in a time-ordered
    /// identifier.
    pub open spec fn spec_timestamp_millis(&self) -> u64 {
        (self.0 >> 80) as u64
    }

    /// The four version bits.
    pub open spec fn version(self) -> u128 {
        (self.0 >> 76) & 0xf
    }

    /// The two variant bits.
    pub open spec fn variant(self) -> u128 {
        (self.0 >> 62) & 0x3
    }

    /// The identifier carries version 7 and the standard variant.
    pub open spec fn spec_is_time_ordered(&self) -> bool {
        self.version() == 7 && self.variant() == 2
    }

    /// The identifier is time-ordered and was stamped with `millis`.
    pub open spec fn is_stamped(self, millis: int) -> bool {
        self.spec_is_time_ordered() && self.spec_timestamp_millis() == millis
    }

    /// `self` is an identifier that [`ThingId::generate_from`] may return
    /// for `at`.
    pub open spec fn is_generated_from(self, at: Timestamp) -> bool {
        at.has_unix_parts() && self.is_stamped(at.unix_millis())
    }

    /// Makes an identifier of the given bits.
    pub fn from_u128(bits: u128) -> (id: ThingId)
        ensures
            id.0 == bits,
    {
        ThingId(bits)
    }

    /// The identifier as one number.
    pub fn as_u128(&self) -> (bits: u128)
        ensures
            bits == self.0,
    {
        self.0
    }

    /// The milliseconds since the Unix epoch held in the upper 48 bits.
    #[verifier::when_used_as_spec(spec_timestamp_millis)]
    pub fn timestamp_millis(&self) -> (millis: u64)
        ensures
            millis == self.spec_timestamp_millis(),
    {
        let bits: u128 = self.0;
        assert(bits >> 80 <= u64::MAX) by (bit_vector);
        (bits >> 80) as u64
    }

    /// Tells whether the identifier carries version 7 and the standard
    /// variant.
    #[verifier::when_used_as_spec(spec_is_time_ordered)]
    pub fn is_time_ordered(&self) -> (b: bool)
        ensures
            b == self.spec_is_time_ordered(),
    {
        (self.0 >> 76) & 0xf == 7 && (self.0 >> 62) & 0x3 == 2
    }

    /// Makes a fresh time-ordered identifier stamped with the current time.
    pub fn generate_now() -> (id: ThingId)
        ensures
            id.is_time_ordered(),
    {
        uuid_v7_now()
    }

    /// Makes a fresh time-ordered identifier stamped with `at`.
    ///
    /// Fails, without making anything, when `at` cannot be written as
    /// unsigned seconds and nanoseconds since the epoch.
    pub fn generate_from(at: Timestamp) -> (r: Result<ThingId, Error>)
        ensures
            match r {
                Ok(id) => id.is_generated_from(at),
                Err(e) => !at.has_unix_parts() && e == Error::IdentifierGeneration,
            },
    {
        match at.unix_parts() {
            Some((secs, nanos)) => Ok(uuid_v7_at(secs, nanos)),
            None => Err(Error::IdentifierGeneration),
        }
    }
}

/// Calls `uuid::Uuid::new_v7` on the reading that `uuid::Timestamp::now`
/// takes of the system clock.
///
/// Trusted: the result carries version 7 and the standard variant. The
/// other bits depend on the clock and on chance. The call does not return on
/// a machine whose clock stands before the Unix epoch, or whose operating
/// system hands out no random bytes.
#[verifier::external_body]
fn uuid_v7_now() -> (id: ThingId)
    ensures
        id.is_time_ordered(),
{
    ThingId(uuid::Uuid::new_v7(uuid::Timestamp::now(uuid::NoContext)).as_u128())
}

/// Calls `uuid::Uuid::new_v7` on `uuid::Timestamp::from_unix(NoContext,
/// secs, nanos)`.
///
/// Trusted: the upper 48 bits of the result hold `secs * 1000 + nanos /
/// 1_000_000`, which the `requires` keeps within 48 bits, and the result
/// carries version 7 and the standard variant. The other bits are random;
/// the call does not return where the operating system hands out no random
/// bytes.
#[verifier::external_body]
fn uuid_v7_at(secs: u64, nanos: u32) -> (id: ThingId)
    requires
        secs * 1000 + nanos / 1_000_000 < 0x1_0000_0000_0000,
    ensures
        id.is_stamped(secs * 1000 + nanos / 1_000_000),
{
    ThingId(
        uuid::Uuid::new_v7(uuid::Timestamp::from_unix(uuid::NoContext, secs, nanos)).as_u128(),
    )
}

/// The time stamp of an identifier gives back the point in time that the
/// identifier was generated from, to the millisecond.
pub proof fn lemma_stamp_decodes(at: Timestamp, id: ThingId)
    requires
        id.is_generated_from(at),
    ensures
        id.spec_timestamp_millis() == at.unix_millis(),
        id.spec_timestamp_millis() * 1_000_000 <= at.unix_nanos() < (id.spec_timestamp_millis()
            + 1) * 1_000_000,
{
    lemma_unix_millis_is_floor(at);
    let nanos = at.unix_nanos();
    assert((nanos / 1_000_000) * 1_000_000 <= nanos < (nanos / 1_000_000 + 1) * 1_000_000)
        by (nonlinear_arith);
}

/// An identifier stamped with an earlier millisecond is the smaller number,
/// whatever the random bits of the two are.
pub proof fn lemma_earlier_stamp_sorts_first(first: ThingId, second: ThingId)
    requires
        first.spec_timestamp_millis() < second.spec_timestamp_millis(),
    ensures
        first.0 < second.0,
{
    let a = first.0;
    let b = second.0;
    assert(((a >> 80) as u64) < ((b >> 80) as u64) ==> a < b) by (bit_vector);
}

/// Identifiers sort by the time they were generated from.
///
/// Take two points in time, the first before the second, and an identifier
/// generated from each. The time stamp of the first identifier is never the
/// larger one. Where the two points in time fall into different
/// milliseconds, the first identifier is the smaller number. Within one
/// millisecond the random bits decide.
pub proof fn lemma_identifier_ordering(
    earlier: Timestamp,
    later: Timestamp,
    first: ThingId,
    second: ThingId,
)
    requires
        earlier.unix_nanos() < later.unix_nanos(),
        first.is_generated_from(earlier),
        second.is_generated_from(later),
    ensures
        first.spec_timestamp_millis() <= second.spec_timestamp_millis(),
        earlier.unix_millis() < later.unix_millis() ==> first.0 < second.0,
{
    lemma_unix_millis_monotonic(earlier, later);
    if earlier.unix_millis() < later.unix_millis() {
        lemma_earlier_stamp_sorts_first(first, second);
    }
}

} // verus!
