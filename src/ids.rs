//! Record identifiers.
use vstd::prelude::*;

verus! {

/// A 128-bit record identifier (a UUID as a big-endian integer).
#[derive(Clone, Copy, Debug, PartialEq, Eq, Structural)]
pub struct RecordId {
    pub bits: u128,
}

impl RecordId {
    /// The identifier whose big-endian integer value is `bits`.
    pub fn from_u128(bits: u128) -> (r: RecordId)
        ensures
            r.bits == bits,
    {
        RecordId { bits }
    }
}

/// Relies on uuid's `Uuid::new_v4` and `Uuid::as_u128`: a random identifier
/// whose version nibble is 4.
#[verifier::external_body]
pub fn new_v4() -> (r: RecordId)
    ensures
        (r.bits >> 76u128) & 0xfu128 == 4u128,
{
    RecordId { bits: uuid::Uuid::new_v4().as_u128() }
}

} // verus!
