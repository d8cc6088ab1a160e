//! 128-bit ULID identifiers: a 48-bit millisecond timestamp followed by 80 random bits.

use vstd::prelude::*;

verus! {

/// `2^80`: the weight of the timestamp part of a ULID.
pub const ULID_TIMESTAMP_SHIFT: u128 = 0x1_0000_0000_0000_0000_0000;

/// `2^48`: timestamps are taken modulo this value.
pub const ULID_TIMESTAMP_RANGE: u64 = 0x1_0000_0000_0000;

/// A ULID, held as its 128-bit value.
#[derive(Debug, Clone, Copy, PartialEq, Eq, Hash, PartialOrd, Ord, Structural)]
pub struct ULID(pub u128);

/// Relies on `std::time::SystemTime::duration_since`, from `SystemTime::now()` to the Unix
/// epoch: `Ok` with the milliseconds since the epoch, or `Err` with the milliseconds before it
/// when the clock reads earlier. Nothing is promised of the values.
#[verifier::external_body]
fn system_clock_millis() -> (r: Result<u64, u64>) {
    std::time::SystemTime::now()
        .duration_since(std::time::UNIX_EPOCH)
        .map(|d| d.as_millis() as u64)
        .map_err(|e| e.duration().as_millis() as u64)
}

/// The current time in milliseconds since the Unix epoch, negative before it, saturated to
/// the range of `i64`.
pub(crate) fn now_millis() -> (r: i64)
    ensures
        r > i64::MIN,
{
    match system_clock_millis() {
        Ok(m) => if m > i64::MAX as u64 {
            i64::MAX
        } else {
            m as i64
        },
        Err(m) => if m > i64::MAX as u64 {
            -i64::MAX
        } else {
            -(m as i64)
        },
    }
}

/// Relies on `sodiumoxide::randombytes::randombytes`: `size` random bytes.
#[verifier::external_body]
pub(crate) fn random_bytes(size: usize) -> (r: Vec<u8>)
    ensures
        r@.len() == size,
{
    sodiumoxide::randombytes::randombytes(size)
}

impl ULID {
    /// The millisecond timestamp that the ULID carries.
    pub open spec fn spec_timestamp(self) -> int {
        self.0 as int / ULID_TIMESTAMP_SHIFT as int
    }

    /// The random part of the ULID.
    pub open spec fn spec_randomness(self) -> int {
        self.0 as int % ULID_TIMESTAMP_SHIFT as int
    }

    /// Builds a ULID from a timestamp (taken modulo `2^48`) and 80 random bits.
    pub fn from_parts(millis: u64, randomness: u128) -> (r: ULID)
        requires
            randomness < ULID_TIMESTAMP_SHIFT,
        ensures
            r.0 == (millis % ULID_TIMESTAMP_RANGE) as int * ULID_TIMESTAMP_SHIFT + randomness,
            r.spec_timestamp() == millis % ULID_TIMESTAMP_RANGE,
            r.spec_randomness() == randomness,
    {
        let ts: u128 = (millis % ULID_TIMESTAMP_RANGE) as u128;
        let v: u128 = ts * ULID_TIMESTAMP_SHIFT + randomness;
        ULID(v)
    }

    /// The millisecond timestamp that the ULID carries.
    pub fn timestamp_millis(&self) -> (r: u64)
        ensures
            r == self.spec_timestamp(),
    {
        (self.0 / ULID_TIMESTAMP_SHIFT) as u64
    }

    /// Generates a ULID stamped with the current time (a clock before the Unix epoch counts
    /// as the epoch).
    pub fn generate() -> (r: ULID) {
        let now = now_millis();
        let millis: u64 = if now < 0 {
            0
        } else {
            now as u64
        };
        let bytes = random_bytes(10);
        let randomness = crate::wire::read_le(bytes.as_slice(), 0, 10);
        proof {
            crate::wire::lemma_le_value_bound(bytes@.subrange(0, 10));
            reveal_with_fuel(crate::wire::pow256, 11);
        }
        ULID::from_parts(millis, randomness)
    }
}

/// A domain name that qualifies a ULID.
#[derive(Debug, Clone, Copy, PartialEq, Eq, Hash)]
pub struct Domain(pub &'static str);

/// A ULID qualified by the domain that it identifies.
#[derive(Debug, Clone, Copy, PartialEq, Eq, Hash)]
pub struct DomainULID {
    pub domain: Domain,
    pub ulid: ULID,
}

impl DomainULID {
    /// Qualifies `ulid` with `domain`.
    pub fn from_ulid(domain: Domain, ulid: ULID) -> (r: DomainULID)
        ensures
            r.domain == domain,
            r.ulid == ulid,
    {
        DomainULID { domain, ulid }
    }
}

} // verus!
