//! Fresh identifiers for new records.
use vstd::prelude::*;

verus! {

/// Whether `id`, read as a UUID, is of version 7 (time-ordered) in the
/// RFC 9562 layout: the version number sits in bits 76 to 79 and the
/// variant bits 62 and 63 read `10`.
pub open spec fn is_uuid_v7(id: u128) -> bool {
    &&& (id >> 76u128) & 0xfu128 == 7u128
    &&& (id >> 62u128) & 0x3u128 == 2u128
}

/// Calls `uuid::Uuid::now_v7` and returns the new UUID as its 128-bit
/// big-endian value (`Uuid::as_u128`). The crate builds it with the version
/// nibble 7 and the RFC 9562 variant bits; that is all that is claimed: the
/// other bits depend on the clock and on random bits, and the ordering of
/// identifiers made one after another is a relation between calls that this
/// contract does not state.
#[verifier::external_body]
pub(crate) fn new_uuid_v7() -> (id: u128)
    ensures
        is_uuid_v7(id),
{
    uuid::Uuid::now_v7().as_u128()
}

/// A run of identifiers drawn from `uuid::Uuid::now_v7`, remembering the
/// last one. Its field is only ever set to an identifier that `now_v7` just
/// returned: by the method below and by `start`.
pub(crate) struct UuidSequence {
    last: u128,
}

impl UuidSequence {
    /// The identifier drawn last.
    pub(crate) closed spec fn last(&self) -> u128 {
        self.last
    }

    /// Calls `uuid::Uuid::now_v7` for the first identifier of the run and
    /// keeps it (as `Uuid::as_u128`) as the last one drawn. The crate builds
    /// it with the version nibble 7 and the RFC 9562 variant bits.
    #[verifier::external_body]
    pub(crate) fn start() -> (r: Self)
        ensures
            is_uuid_v7(r.last()),
    {
        UuidSequence { last: uuid::Uuid::now_v7().as_u128() }
    }

    /// Calls `uuid::Uuid::now_v7` and returns the new UUID as its 128-bit
    /// big-endian value, keeping it as the last one drawn. Besides the
    /// version and variant bits, the claim is the one the crate documents
    /// above `now_v7`: the UUIDs it makes in one process are ordered by
    /// their creation, so the new one is greater than the last one drawn.
    /// The other bits depend on the clock and on random bits.
    #[verifier::external_body]
    pub(crate) fn next(&mut self) -> (id: u128)
        ensures
            is_uuid_v7(id),
            old(self).last() < id,
            final(self).last() == id,
    {
        let id = uuid::Uuid::now_v7().as_u128();
        self.last = id;
        id
    }
}

} // verus!
