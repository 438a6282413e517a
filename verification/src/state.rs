//! The registry entry's record header.
//!
//! The execution host reads and writes this record; this crate only fixes its
//! shape. The header is three consecutive 32-byte identities — 96 bytes, no
//! length prefixes and no versioning field. An entry that has never been
//! assigned a parent or a class holds the placeholder identity in that slot.

use vstd::prelude::*;

use crate::pubkey::Pubkey;
use crate::pubkey::PUBKEY_BYTES;

verus! {

/// The fixed header of a registry entry record.
#[derive(Clone, Copy, Debug, PartialEq, Eq)]
pub struct NameRecordHeader {
    /// The identity of the parent entry, or the placeholder identity.
    pub parent_name: Pubkey,
    /// The identity that owns the entry.
    pub owner: Pubkey,
    /// The class of the entry, or the placeholder identity.
    pub class: Pubkey,
}

/// The byte length of the header as the execution host stores it: three raw
/// 32-byte identities.
pub const NAME_RECORD_HEADER_LEN: usize = 3 * PUBKEY_BYTES;

} // verus!
