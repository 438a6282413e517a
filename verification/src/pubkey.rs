//! Identities, annotated account references, and the outgoing request shape.
//!
//! An identity (`Pubkey`) is an opaque 32-byte value naming a participant or a
//! registry entry. The distinguished all-zero identity is the placeholder that
//! fills a fixed-position optional account slot when no identity was supplied;
//! the execution host's system allocator also lives at the all-zero identity.

use vstd::prelude::*;

verus! {

/// The length in bytes of every identity.
pub const PUBKEY_BYTES: usize = 32;

/// An opaque 32-byte identity.
#[derive(Clone, Copy, Debug, PartialEq, Eq)]
pub struct Pubkey {
    pub bytes: [u8; 32],
}

impl View for Pubkey {
    type V = Seq<u8>;

    open spec fn view(&self) -> Seq<u8> {
        self.bytes@
    }
}

/// The all-zero identity: the placeholder for an unused fixed-position
/// optional account slot.
pub open spec fn placeholder_key() -> Seq<u8> {
    Seq::new(32, |i: int| 0u8)
}

/// The identity of the execution host's system allocator, which is the
/// all-zero identity.
pub open spec fn system_program_key() -> Seq<u8> {
    placeholder_key()
}

impl Pubkey {
    /// Wraps 32 raw bytes as an identity.
    pub fn new(bytes: [u8; 32]) -> (r: Pubkey)
        ensures
            r@ == bytes@,
    {
        Pubkey { bytes }
    }

    /// True of the placeholder identity alone.
    pub open spec fn is_placeholder(&self) -> bool {
        self@ == placeholder_key()
    }
}

impl Default for Pubkey {
    /// The placeholder identity.
    fn default() -> (r: Pubkey)
        ensures
            r.is_placeholder(),
    {
        let r = Pubkey { bytes: [0u8; 32] };
        proof {
            assert(r@ =~= placeholder_key());
        }
        r
    }
}

/// The identity of the system allocator owned by the execution host.
pub fn system_program_id() -> (r: Pubkey)
    ensures
        r@ == system_program_key(),
{
    let r = Pubkey { bytes: [0u8; 32] };
    proof {
        assert(r@ =~= system_program_key());
    }
    r
}

} // verus!
