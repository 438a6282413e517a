//! The request schema, its binary encoding, and the per-operation account
//! lists.
//!
//! A request is one of five variants. Its payload is encoded as a single tag
//! byte (the variant's declaration-order position) followed by the variant's
//! fields in declaration order: fixed-width integers little-endian, byte
//! sequences behind a 32-bit little-endian length prefix, identities as 32 raw
//! bytes. Every builder returns the payload together with the exact ordered
//! account list that the execution host expects for that operation.

use vstd::bytes::lemma_auto_spec_u32_to_from_le_bytes;
use vstd::bytes::lemma_auto_spec_u64_to_from_le_bytes;
use vstd::bytes::spec_u32_from_le_bytes;
use vstd::bytes::spec_u32_to_le_bytes;
use vstd::bytes::spec_u64_from_le_bytes;
use vstd::bytes::spec_u64_to_le_bytes;
use vstd::bytes::u32_from_le_bytes;
use vstd::bytes::u32_to_le_bytes;
use vstd::bytes::u64_from_le_bytes;
use vstd::bytes::u64_to_le_bytes;
use vstd::prelude::*;
use vstd::slice::slice_to_vec;

use crate::accounts::AccountMeta;
use crate::accounts::AccountModel;
use crate::accounts::Instruction;
use crate::pubkey::placeholder_key;
use crate::pubkey::system_program_id;
use crate::pubkey::system_program_key;
use crate::pubkey::Pubkey;

verus! {

/// A request against a registry entry: the closed set of operations the
/// execution host understands.
#[derive(Clone, Debug, PartialEq, Eq)]
pub enum NameRegistryInstruction {
    /// Create a new entry keyed by a pre-hashed name, funded with `lamports`
    /// base units and sized `space` bytes.
    Create { hashed_name: Vec<u8>, lamports: u64, space: u32 },
    /// Overwrite entry data starting at byte `offset`.
    Update { offset: u32, data: Vec<u8> },
    /// Change the entry's owner reference.
    Transfer { new_owner: Pubkey },
    /// Remove the entry and reclaim its storage.
    Delete,
    /// Resize the entry's data region to `space` bytes.
    Realloc { space: u32 },
}

/// The mathematical value of a [`NameRegistryInstruction`]: the same variants
/// over byte sequences.
#[verifier::ext_equal]
pub ghost enum RequestModel {
    Create { hashed_name: Seq<u8>, lamports: u64, space: u32 },
    Update { offset: u32, data: Seq<u8> },
    Transfer { new_owner: Seq<u8> },
    Delete,
    Realloc { space: u32 },
}

impl View for NameRegistryInstruction {
    type V = RequestModel;

    open spec fn view(&self) -> RequestModel {
        match self {
            NameRegistryInstruction::Create { hashed_name, lamports, space } => (RequestModel::Create {
                hashed_name: hashed_name@,
                lamports: *lamports,
                space: *space,
            }),
            NameRegistryInstruction::Update { offset, data } => (RequestModel::Update {
                offset: *offset,
                data: data@,
            }),
            NameRegistryInstruction::Transfer { new_owner } => (RequestModel::Transfer {
                new_owner: new_owner@,
            }),
            NameRegistryInstruction::Delete => RequestModel::Delete,
            NameRegistryInstruction::Realloc { space } => (RequestModel::Realloc { space: *space }),
        }
    }
}

impl RequestModel {
    /// A request is well formed when every byte sequence it carries fits
    /// behind the 32-bit length prefix of the encoding, and every identity it
    /// carries is 32 bytes long.
    pub open spec fn wf(self) -> bool {
        match self {
            RequestModel::Create { hashed_name, .. } => hashed_name.len() <= u32::MAX,
            RequestModel::Update { data, .. } => data.len() <= u32::MAX,
            RequestModel::Transfer { new_owner } => new_owner.len() == 32,
            _ => true,
        }
    }
}

/// The tag byte of each variant: its declaration-order position.
pub open spec fn spec_tag(m: RequestModel) -> u8 {
    match m {
        RequestModel::Create { .. } => 0,
        RequestModel::Update { .. } => 1,
        RequestModel::Transfer { .. } => 2,
        RequestModel::Delete => 3,
        RequestModel::Realloc { .. } => 4,
    }
}

/// The byte encoding of a request: one tag byte, then the variant's fields in
/// declaration order under the fixed binary rules.
pub open spec fn spec_encode(m: RequestModel) -> Seq<u8> {
    match m {
        RequestModel::Create { hashed_name, lamports, space } => seq![0u8]
            + spec_u32_to_le_bytes(hashed_name.len() as u32) + hashed_name + spec_u64_to_le_bytes(
            lamports,
        ) + spec_u32_to_le_bytes(space),
        RequestModel::Update { offset, data } => seq![1u8] + spec_u32_to_le_bytes(offset)
            + spec_u32_to_le_bytes(data.len() as u32) + data,
        RequestModel::Transfer { new_owner } => seq![2u8] + new_owner,
        RequestModel::Delete => seq![3u8],
        RequestModel::Realloc { space } => seq![4u8] + spec_u32_to_le_bytes(space),
    }
}

/// The inverse reading of the encoding rules: `Some` exactly on the byte
/// strings that a well-formed request encodes to, and `None` on every other
/// byte string.
pub open spec fn spec_decode(s: Seq<u8>) -> Option<RequestModel> {
    if s.len() == 0 {
        None
    } else if s[0] == 0u8 {
        if s.len() < 17 {
            None
        } else {
            let n: int = spec_u32_from_le_bytes(s.subrange(1, 5)) as int;
            if s.len() == 17 + n {
                Some(
                    RequestModel::Create {
                        hashed_name: s.subrange(5, 5 + n),
                        lamports: spec_u64_from_le_bytes(s.subrange(5 + n, 13 + n)),
                        space: spec_u32_from_le_bytes(s.subrange(13 + n, 17 + n)),
                    },
                )
            } else {
                None
            }
        }
    } else if s[0] == 1u8 {
        if s.len() < 9 {
            None
        } else {
            let n: int = spec_u32_from_le_bytes(s.subrange(5, 9)) as int;
            if s.len() == 9 + n {
                Some(
                    RequestModel::Update {
                        offset: spec_u32_from_le_bytes(s.subrange(1, 5)),
                        data: s.subrange(9, 9 + n),
                    },
                )
            } else {
                None
            }
        }
    } else if s[0] == 2u8 {
        if s.len() == 33 {
            Some(RequestModel::Transfer { new_owner: s.subrange(1, 33) })
        } else {
            None
        }
    } else if s[0] == 3u8 {
        if s.len() == 1 {
            Some(RequestModel::Delete)
        } else {
            None
        }
    } else if s[0] == 4u8 {
        if s.len() == 5 {
            Some(RequestModel::Realloc { space: spec_u32_from_le_bytes(s.subrange(1, 5)) })
        } else {
            None
        }
    } else {
        None
    }
}

/// Round-trip: reading the bytes that a well-formed request encodes to by the
/// inverse of the encoding rules gives back exactly that request.
pub proof fn lemma_encode_then_decode(m: RequestModel)
    requires
        m.wf(),
    ensures
        spec_decode(spec_encode(m)) == Some(m),
{
    let s = spec_encode(m);
    lemma_auto_spec_u32_to_from_le_bytes();
    lemma_auto_spec_u64_to_from_le_bytes();
    match m {
        RequestModel::Create { hashed_name, lamports, space } => {
            let n: int = hashed_name.len() as int;
            assert(s.len() == 17 + n);
            assert(s.subrange(1, 5) =~= spec_u32_to_le_bytes(hashed_name.len() as u32));
            assert(spec_u32_from_le_bytes(s.subrange(1, 5)) == n);
            assert(s.subrange(5, 5 + n) =~= hashed_name);
            assert(s.subrange(5 + n, 13 + n) =~= spec_u64_to_le_bytes(lamports));
            assert(s.subrange(13 + n, 17 + n) =~= spec_u32_to_le_bytes(space));
        },
        RequestModel::Update { offset, data } => {
            let n: int = data.len() as int;
            assert(s.len() == 9 + n);
            assert(s.subrange(1, 5) =~= spec_u32_to_le_bytes(offset));
            assert(s.subrange(5, 9) =~= spec_u32_to_le_bytes(data.len() as u32));
            assert(spec_u32_from_le_bytes(s.subrange(5, 9)) == n);
            assert(s.subrange(9, 9 + n) =~= data);
        },
        RequestModel::Transfer { new_owner } => {
            assert(s.len() == 33);
            assert(s.subrange(1, 33) =~= new_owner);
        },
        RequestModel::Delete => {
            assert(s.len() == 1);
        },
        RequestModel::Realloc { space } => {
            assert(s.len() == 5);
            assert(s.subrange(1, 5) =~= spec_u32_to_le_bytes(space));
        },
    }
}

/// The other direction of the round trip: a byte string that decodes at all is
/// the encoding of the request it decodes to, which is well formed. Together
/// with [`lemma_encode_then_decode`] this makes the encoding exactly
/// invertible.
pub proof fn lemma_decode_then_encode(s: Seq<u8>, m: RequestModel)
    requires
        spec_decode(s) == Some(m),
    ensures
        m.wf(),
        spec_encode(m) == s,
{
    lemma_auto_spec_u32_to_from_le_bytes();
    lemma_auto_spec_u64_to_from_le_bytes();
    if s[0] == 0u8 {
        let n: int = spec_u32_from_le_bytes(s.subrange(1, 5)) as int;
        assert(spec_u32_to_le_bytes(spec_u32_from_le_bytes(s.subrange(1, 5))) == s.subrange(1, 5));
        assert(spec_u64_to_le_bytes(spec_u64_from_le_bytes(s.subrange(5 + n, 13 + n)))
            == s.subrange(5 + n, 13 + n));
        assert(spec_u32_to_le_bytes(spec_u32_from_le_bytes(s.subrange(13 + n, 17 + n)))
            == s.subrange(13 + n, 17 + n));
        assert(m->Create_hashed_name.len() as u32 == spec_u32_from_le_bytes(s.subrange(1, 5)));
        assert(spec_encode(m) =~= s);
    } else if s[0] == 1u8 {
        let n: int = spec_u32_from_le_bytes(s.subrange(5, 9)) as int;
        assert(spec_u32_to_le_bytes(spec_u32_from_le_bytes(s.subrange(1, 5))) == s.subrange(1, 5));
        assert(spec_u32_to_le_bytes(spec_u32_from_le_bytes(s.subrange(5, 9))) == s.subrange(5, 9));
        assert(m->Update_data.len() as u32 == spec_u32_from_le_bytes(s.subrange(5, 9)));
        assert(spec_encode(m) =~= s);
    } else if s[0] == 2u8 {
        assert(spec_encode(m) =~= s);
    } else if s[0] == 3u8 {
        assert(spec_encode(m) =~= s);
    } else if s[0] == 4u8 {
        assert(spec_u32_to_le_bytes(spec_u32_from_le_bytes(s.subrange(1, 5))) == s.subrange(1, 5));
        assert(spec_encode(m) =~= s);
    }
}

/// Tag stability: the first byte of every encoding is the variant's fixed
/// declaration-order tag, whatever the field contents.
pub proof fn lemma_tag_stable(m: RequestModel)
    ensures
        spec_encode(m).len() >= 1,
        spec_encode(m)[0] == spec_tag(m),
{
    match m {
        RequestModel::Create { .. } => {
            assert(spec_encode(m)[0] == 0u8);
        },
        RequestModel::Update { .. } => {
            assert(spec_encode(m)[0] == 1u8);
        },
        RequestModel::Transfer { .. } => {
            assert(spec_encode(m)[0] == 2u8);
        },
        RequestModel::Delete => {
            assert(spec_encode(m)[0] == 3u8);
        },
        RequestModel::Realloc { .. } => {
            assert(spec_encode(m)[0] == 4u8);
        },
    }
}

/// Copies a byte vector.
fn copy_bytes(src: &Vec<u8>) -> (r: Vec<u8>)
    ensures
        r@ == src@,
{
    let mut r: Vec<u8> = Vec::new();
    let mut i: usize = 0;
    while i < src.len()
        invariant
            i <= src@.len(),
            r@ == src@.subrange(0, i as int),
        decreases src@.len() - i,
    {
        r.push(src[i]);
        proof {
            assert(r@ =~= src@.subrange(0, i + 1 as int));
        }
        i = i + 1;
    }
    proof {
        assert(r@ =~= src@);
    }
    r
}

impl NameRegistryInstruction {
    /// Serializes the request into its exact wire bytes.
    pub fn encode(&self) -> (out: Vec<u8>)
        requires
            self@.wf(),
        ensures
            out@ == spec_encode(self@),
    {
        let mut out: Vec<u8> = Vec::new();
        match self {
            NameRegistryInstruction::Create { hashed_name, lamports, space } => {
                out.push(0u8);
                let mut len_bytes = u32_to_le_bytes(hashed_name.len() as u32);
                out.append(&mut len_bytes);
                let mut name_bytes = copy_bytes(hashed_name);
                out.append(&mut name_bytes);
                let mut lamport_bytes = u64_to_le_bytes(*lamports);
                out.append(&mut lamport_bytes);
                let mut space_bytes = u32_to_le_bytes(*space);
                out.append(&mut space_bytes);
            },
            NameRegistryInstruction::Update { offset, data } => {
                out.push(1u8);
                let mut offset_bytes = u32_to_le_bytes(*offset);
                out.append(&mut offset_bytes);
                let mut len_bytes = u32_to_le_bytes(data.len() as u32);
                out.append(&mut len_bytes);
                let mut data_bytes = copy_bytes(data);
                out.append(&mut data_bytes);
            },
            NameRegistryInstruction::Transfer { new_owner } => {
                out.push(2u8);
                let mut key_bytes = slice_to_vec(new_owner.bytes.as_slice());
                out.append(&mut key_bytes);
            },
            NameRegistryInstruction::Delete => {
                out.push(3u8);
            },
            NameRegistryInstruction::Realloc { space } => {
                out.push(4u8);
                let mut space_bytes = u32_to_le_bytes(*space);
                out.append(&mut space_bytes);
            },
        }
        proof {
            assert(out@ =~= spec_encode(self@));
        }
        out
    }

    /// Reads a request back out of its wire bytes, accepting exactly the byte
    /// strings that the encoding rules produce.
    pub fn decode(data: &[u8]) -> (r: Option<NameRegistryInstruction>)
        ensures
            (match r {
                Some(x) => spec_decode(data@) == Some(x@) && x@.wf(),
                None => spec_decode(data@) is None,
            }),
    {
        if data.len() == 0 {
            return None;
        }
        let tag = data[0];
        if tag == 0 {
            if data.len() < 17 {
                return None;
            }
            let n32 = u32_from_le_bytes(&data[1..5]);
            let n = n32 as usize;
            if data.len() - 17 != n {
                return None;
            }
            let hashed_name = slice_to_vec(&data[5..5 + n]);
            let lamports = u64_from_le_bytes(&data[5 + n..13 + n]);
            let space = u32_from_le_bytes(&data[13 + n..17 + n]);
            let x = NameRegistryInstruction::Create { hashed_name, lamports, space };
            proof {
                assert(spec_decode(data@) == Some(x@));
            }
            Some(x)
        } else if tag == 1 {
            if data.len() < 9 {
                return None;
            }
            let offset = u32_from_le_bytes(&data[1..5]);
            let n32 = u32_from_le_bytes(&data[5..9]);
            let n = n32 as usize;
            if data.len() - 9 != n {
                return None;
            }
            let body = slice_to_vec(&data[9..9 + n]);
            let x = NameRegistryInstruction::Update { offset, data: body };
            proof {
                assert(spec_decode(data@) == Some(x@));
            }
            Some(x)
        } else if tag == 2 {
            if data.len() != 33 {
                return None;
            }
            let mut bytes = [0u8; 32];
            let mut i: usize = 0;
            while i < 32
                invariant
                    i <= 32,
                    data@.len() == 33,
                    forall|j: int| 0 <= j < i ==> bytes@[j] == data@[j + 1],
                decreases 32 - i,
            {
                bytes[i] = data[1 + i];
                i = i + 1;
            }
            let x = NameRegistryInstruction::Transfer { new_owner: Pubkey { bytes } };
            proof {
                assert(bytes@ =~= data@.subrange(1, 33));
                assert(spec_decode(data@) == Some(x@));
            }
            Some(x)
        } else if tag == 3 {
            if data.len() != 1 {
                return None;
            }
            Some(NameRegistryInstruction::Delete)
        } else if tag == 4 {
            if data.len() != 5 {
                return None;
            }
            let space = u32_from_le_bytes(&data[1..5]);
            Some(NameRegistryInstruction::Realloc { space })
        } else {
            None
        }
    }
}

/// The identities of an optional participant, as supplied.
pub open spec fn opt_key(o: Option<Pubkey>) -> Option<Seq<u8>> {
    match o {
        Some(k) => Some(k@),
        None => None,
    }
}

/// Create's class slot: the supplied class read-only and marked as signer, or
/// the placeholder identity read-only and non-signer.
pub open spec fn spec_class_slot(class: Option<Seq<u8>>) -> AccountModel {
    match class {
        Some(k) => (AccountModel { key: k, is_signer: true, is_writable: false }),
        None => (AccountModel { key: placeholder_key(), is_signer: false, is_writable: false }),
    }
}

/// Create's parent slot: the supplied parent, or the placeholder identity;
/// read-only and non-signer either way.
pub open spec fn spec_parent_slot(parent: Option<Seq<u8>>) -> AccountModel {
    match parent {
        Some(k) => (AccountModel { key: k, is_signer: false, is_writable: false }),
        None => (AccountModel { key: placeholder_key(), is_signer: false, is_writable: false }),
    }
}

/// The ordered account list of a Create request: system allocator, payer, new
/// entry, owner, then the two fixed-position optional slots, then the
/// parent-owner appended only when supplied.
pub open spec fn spec_create_accounts(
    name_account: Seq<u8>,
    payer: Seq<u8>,
    owner: Seq<u8>,
    class: Option<Seq<u8>>,
    parent: Option<Seq<u8>>,
    parent_owner: Option<Seq<u8>>,
) -> Seq<AccountModel> {
    let fixed = seq![
        AccountModel { key: system_program_key(), is_signer: false, is_writable: false },
        AccountModel { key: payer, is_signer: true, is_writable: true },
        AccountModel { key: name_account, is_signer: false, is_writable: true },
        AccountModel { key: owner, is_signer: false, is_writable: false },
        spec_class_slot(class),
        spec_parent_slot(parent),
    ];
    match parent_owner {
        Some(k) => fixed + seq![AccountModel { key: k, is_signer: true, is_writable: false }],
        None => fixed,
    }
}

/// The ordered account list of an Update request: entry, update authority,
/// then the parent appended writable only when supplied.
pub open spec fn spec_update_accounts(
    name_account: Seq<u8>,
    update_signer: Seq<u8>,
    parent: Option<Seq<u8>>,
) -> Seq<AccountModel> {
    let fixed = seq![
        AccountModel { key: name_account, is_signer: false, is_writable: true },
        AccountModel { key: update_signer, is_signer: true, is_writable: false },
    ];
    match parent {
        Some(k) => fixed + seq![AccountModel { key: k, is_signer: false, is_writable: true }],
        None => fixed,
    }
}

/// The ordered account list of a Transfer request: entry, current owner, then
/// the class appended read-only and as signer only when supplied.
pub open spec fn spec_transfer_accounts(
    name_account: Seq<u8>,
    owner: Seq<u8>,
    class: Option<Seq<u8>>,
) -> Seq<AccountModel> {
    let fixed = seq![
        AccountModel { key: name_account, is_signer: false, is_writable: true },
        AccountModel { key: owner, is_signer: true, is_writable: false },
    ];
    match class {
        Some(k) => fixed + seq![AccountModel { key: k, is_signer: true, is_writable: false }],
        None => fixed,
    }
}

/// The ordered account list of a Delete request: entry, owner, refund target;
/// fixed, no optional accounts.
pub open spec fn spec_delete_accounts(
    name_account: Seq<u8>,
    owner: Seq<u8>,
    refund_target: Seq<u8>,
) -> Seq<AccountModel> {
    seq![
        AccountModel { key: name_account, is_signer: false, is_writable: true },
        AccountModel { key: owner, is_signer: true, is_writable: false },
        AccountModel { key: refund_target, is_signer: false, is_writable: true },
    ]
}

/// The ordered account list of a Realloc request: system allocator, payer,
/// entry, owner; fixed, no optional accounts.
pub open spec fn spec_realloc_accounts(
    payer: Seq<u8>,
    name_account: Seq<u8>,
    owner: Seq<u8>,
) -> Seq<AccountModel> {
    seq![
        AccountModel { key: system_program_key(), is_signer: false, is_writable: false },
        AccountModel { key: payer, is_signer: true, is_writable: true },
        AccountModel { key: name_account, is_signer: false, is_writable: true },
        AccountModel { key: owner, is_signer: true, is_writable: false },
    ]
}

/// Builds a Create request: the encoded payload plus the Create account list,
/// with the placeholder identity standing in for an omitted class or parent
/// and the parent owner appended only when supplied.
pub fn create(
    name_service_program_id: Pubkey,
    instruction_data: NameRegistryInstruction,
    name_account_key: Pubkey,
    payer_key: Pubkey,
    name_owner: Pubkey,
    name_class_opt: Option<Pubkey>,
    name_parent_opt: Option<Pubkey>,
    name_parent_owner_opt: Option<Pubkey>,
) -> (r: Instruction)
    requires
        instruction_data@.wf(),
    ensures
        r@.program_id == name_service_program_id@,
        r@.data == spec_encode(instruction_data@),
        r@.accounts == spec_create_accounts(
            name_account_key@,
            payer_key@,
            name_owner@,
            opt_key(name_class_opt),
            opt_key(name_parent_opt),
            opt_key(name_parent_owner_opt),
        ),
{
    let data = instruction_data.encode();
    let mut accounts: Vec<AccountMeta> = Vec::new();
    accounts.push(AccountMeta::new_readonly(system_program_id(), false));
    accounts.push(AccountMeta::new(payer_key, true));
    accounts.push(AccountMeta::new(name_account_key, false));
    accounts.push(AccountMeta::new_readonly(name_owner, false));
    match name_class_opt {
        Some(name_class) => accounts.push(AccountMeta::new_readonly(name_class, true)),
        None => accounts.push(AccountMeta::new_readonly(Pubkey::default(), false)),
    }
    match name_parent_opt {
        Some(name_parent) => accounts.push(AccountMeta::new_readonly(name_parent, false)),
        None => accounts.push(AccountMeta::new_readonly(Pubkey::default(), false)),
    }
    if let Some(key) = name_parent_owner_opt {
        accounts.push(AccountMeta::new_readonly(key, true));
    }
    let r = Instruction { program_id: name_service_program_id, accounts, data };
    proof {
        assert(r@.accounts =~= spec_create_accounts(
            name_account_key@,
            payer_key@,
            name_owner@,
            opt_key(name_class_opt),
            opt_key(name_parent_opt),
            opt_key(name_parent_owner_opt),
        ));
    }
    r
}

/// Builds an Update request: the encoded payload plus the Update account list,
/// with the parent appended writable only when supplied.
pub fn update(
    name_service_program_id: Pubkey,
    offset: u32,
    data: Vec<u8>,
    name_account_key: Pubkey,
    name_update_signer: Pubkey,
    name_parent: Option<Pubkey>,
) -> (r: Instruction)
    requires
        data@.len() <= u32::MAX,
    ensures
        r@.program_id == name_service_program_id@,
        r@.data == spec_encode(RequestModel::Update { offset, data: data@ }),
        r@.accounts == spec_update_accounts(
            name_account_key@,
            name_update_signer@,
            opt_key(name_parent),
        ),
{
    let instruction_data = NameRegistryInstruction::Update { offset, data };
    let payload = instruction_data.encode();
    let mut accounts: Vec<AccountMeta> = Vec::new();
    accounts.push(AccountMeta::new(name_account_key, false));
    accounts.push(AccountMeta::new_readonly(name_update_signer, true));
    if let Some(name_parent_key) = name_parent {
        accounts.push(AccountMeta::new(name_parent_key, false));
    }
    let r = Instruction { program_id: name_service_program_id, accounts, data: payload };
    proof {
        assert(r@.accounts =~= spec_update_accounts(
            name_account_key@,
            name_update_signer@,
            opt_key(name_parent),
        ));
    }
    r
}

/// Builds a Transfer request: the encoded payload plus the Transfer account
/// list, with the class appended read-only and as signer only when supplied.
pub fn transfer(
    name_service_program_id: Pubkey,
    new_owner: Pubkey,
    name_account_key: Pubkey,
    name_owner_key: Pubkey,
    name_class_opt: Option<Pubkey>,
) -> (r: Instruction)
    ensures
        r@.program_id == name_service_program_id@,
        r@.data == spec_encode(RequestModel::Transfer { new_owner: new_owner@ }),
        r@.accounts == spec_transfer_accounts(
            name_account_key@,
            name_owner_key@,
            opt_key(name_class_opt),
        ),
{
    let instruction_data = NameRegistryInstruction::Transfer { new_owner };
    let payload = instruction_data.encode();
    let mut accounts: Vec<AccountMeta> = Vec::new();
    accounts.push(AccountMeta::new(name_account_key, false));
    accounts.push(AccountMeta::new_readonly(name_owner_key, true));
    if let Some(key) = name_class_opt {
        accounts.push(AccountMeta::new_readonly(key, true));
    }
    let r = Instruction { program_id: name_service_program_id, accounts, data: payload };
    proof {
        assert(r@.accounts =~= spec_transfer_accounts(
            name_account_key@,
            name_owner_key@,
            opt_key(name_class_opt),
        ));
    }
    r
}

/// Builds a Delete request: the one-byte payload plus the fixed three-entry
/// account list.
pub fn delete(
    name_service_program_id: Pubkey,
    name_account_key: Pubkey,
    name_owner_key: Pubkey,
    refund_target: Pubkey,
) -> (r: Instruction)
    ensures
        r@.program_id == name_service_program_id@,
        r@.data == spec_encode(RequestModel::Delete),
        r@.accounts == spec_delete_accounts(name_account_key@, name_owner_key@, refund_target@),
{
    let instruction_data = NameRegistryInstruction::Delete;
    let payload = instruction_data.encode();
    let mut accounts: Vec<AccountMeta> = Vec::new();
    accounts.push(AccountMeta::new(name_account_key, false));
    accounts.push(AccountMeta::new_readonly(name_owner_key, true));
    accounts.push(AccountMeta::new(refund_target, false));
    let r = Instruction { program_id: name_service_program_id, accounts, data: payload };
    proof {
        assert(r@.accounts =~= spec_delete_accounts(
            name_account_key@,
            name_owner_key@,
            refund_target@,
        ));
    }
    r
}

/// Builds a Realloc request: the encoded payload plus the fixed four-entry
/// account list.
pub fn realloc(
    name_service_program_id: Pubkey,
    payer_key: Pubkey,
    name_account_key: Pubkey,
    name_owner_key: Pubkey,
    space: u32,
) -> (r: Instruction)
    ensures
        r@.program_id == name_service_program_id@,
        r@.data == spec_encode(RequestModel::Realloc { space }),
        r@.accounts == spec_realloc_accounts(payer_key@, name_account_key@, name_owner_key@),
{
    let instruction_data = NameRegistryInstruction::Realloc { space };
    let payload = instruction_data.encode();
    let mut accounts: Vec<AccountMeta> = Vec::new();
    accounts.push(AccountMeta::new_readonly(system_program_id(), false));
    accounts.push(AccountMeta::new(payer_key, true));
    accounts.push(AccountMeta::new(name_account_key, false));
    accounts.push(AccountMeta::new_readonly(name_owner_key, true));
    let r = Instruction { program_id: name_service_program_id, accounts, data: payload };
    proof {
        assert(r@.accounts =~= spec_realloc_accounts(
            payer_key@,
            name_account_key@,
            name_owner_key@,
        ));
    }
    r
}

/// Account-list determinism for Create: two instructions that `create` built
/// from identical inputs agree in target, payload bytes, and the ordered
/// account list with its flags.
pub proof fn lemma_create_deterministic(
    a: Instruction,
    b: Instruction,
    program_id: Seq<u8>,
    request: RequestModel,
    name_account: Seq<u8>,
    payer: Seq<u8>,
    owner: Seq<u8>,
    class: Option<Seq<u8>>,
    parent: Option<Seq<u8>>,
    parent_owner: Option<Seq<u8>>,
)
    requires
        a@.program_id == program_id,
        a@.data == spec_encode(request),
        a@.accounts == spec_create_accounts(name_account, payer, owner, class, parent, parent_owner),
        b@.program_id == program_id,
        b@.data == spec_encode(request),
        b@.accounts == spec_create_accounts(name_account, payer, owner, class, parent, parent_owner),
    ensures
        a@ == b@,
{
    assert(a@ =~= b@);
}

/// Account-list determinism for Update: as [`lemma_create_deterministic`],
/// for `update`.
pub proof fn lemma_update_deterministic(
    a: Instruction,
    b: Instruction,
    program_id: Seq<u8>,
    offset: u32,
    data: Seq<u8>,
    name_account: Seq<u8>,
    update_signer: Seq<u8>,
    parent: Option<Seq<u8>>,
)
    requires
        a@.program_id == program_id,
        a@.data == spec_encode(RequestModel::Update { offset, data }),
        a@.accounts == spec_update_accounts(name_account, update_signer, parent),
        b@.program_id == program_id,
        b@.data == spec_encode(RequestModel::Update { offset, data }),
        b@.accounts == spec_update_accounts(name_account, update_signer, parent),
    ensures
        a@ == b@,
{
    assert(a@ =~= b@);
}

/// Account-list determinism for Transfer: as [`lemma_create_deterministic`],
/// for `transfer`.
pub proof fn lemma_transfer_deterministic(
    a: Instruction,
    b: Instruction,
    program_id: Seq<u8>,
    new_owner: Seq<u8>,
    name_account: Seq<u8>,
    owner: Seq<u8>,
    class: Option<Seq<u8>>,
)
    requires
        a@.program_id == program_id,
        a@.data == spec_encode(RequestModel::Transfer { new_owner }),
        a@.accounts == spec_transfer_accounts(name_account, owner, class),
        b@.program_id == program_id,
        b@.data == spec_encode(RequestModel::Transfer { new_owner }),
        b@.accounts == spec_transfer_accounts(name_account, owner, class),
    ensures
        a@ == b@,
{
    assert(a@ =~= b@);
}

/// Account-list determinism for Delete: as [`lemma_create_deterministic`],
/// for `delete`.
pub proof fn lemma_delete_deterministic(
    a: Instruction,
    b: Instruction,
    program_id: Seq<u8>,
    name_account: Seq<u8>,
    owner: Seq<u8>,
    refund_target: Seq<u8>,
)
    requires
        a@.program_id == program_id,
        a@.data == spec_encode(RequestModel::Delete),
        a@.accounts == spec_delete_accounts(name_account, owner, refund_target),
        b@.program_id == program_id,
        b@.data == spec_encode(RequestModel::Delete),
        b@.accounts == spec_delete_accounts(name_account, owner, refund_target),
    ensures
        a@ == b@,
{
    assert(a@ =~= b@);
}

/// Account-list determinism for Realloc: as [`lemma_create_deterministic`],
/// for `realloc`.
pub proof fn lemma_realloc_deterministic(
    a: Instruction,
    b: Instruction,
    program_id: Seq<u8>,
    space: u32,
    payer: Seq<u8>,
    name_account: Seq<u8>,
    owner: Seq<u8>,
)
    requires
        a@.program_id == program_id,
        a@.data == spec_encode(RequestModel::Realloc { space }),
        a@.accounts == spec_realloc_accounts(payer, name_account, owner),
        b@.program_id == program_id,
        b@.data == spec_encode(RequestModel::Realloc { space }),
        b@.accounts == spec_realloc_accounts(payer, name_account, owner),
    ensures
        a@ == b@,
{
    assert(a@ =~= b@);
}

/// Optional-slot placeholder invariant: omitting Create's class and/or parent
/// never changes the list's length — the omitted fixed-position slot holds the
/// placeholder identity, read-only and non-signer — while omitting the parent
/// owner shortens the list by exactly one entry.
pub proof fn lemma_create_optional_slots(
    name_account: Seq<u8>,
    payer: Seq<u8>,
    owner: Seq<u8>,
    class: Option<Seq<u8>>,
    parent: Option<Seq<u8>>,
    parent_owner: Option<Seq<u8>>,
)
    ensures
        spec_create_accounts(name_account, payer, owner, class, parent, parent_owner).len() == (
        if parent_owner is Some {
            7int
        } else {
            6int
        }),
        class is None ==> spec_create_accounts(name_account, payer, owner, class, parent, parent_owner)[4]
            == (AccountModel { key: placeholder_key(), is_signer: false, is_writable: false }),
        (class matches Some(k) ==> spec_create_accounts(name_account, payer, owner, class, parent, parent_owner)[4]
            == (AccountModel { key: k, is_signer: true, is_writable: false })),
        parent is None ==> spec_create_accounts(name_account, payer, owner, class, parent, parent_owner)[5]
            == (AccountModel { key: placeholder_key(), is_signer: false, is_writable: false }),
        (parent matches Some(k) ==> spec_create_accounts(name_account, payer, owner, class, parent, parent_owner)[5]
            == (AccountModel { key: k, is_signer: false, is_writable: false })),
        (parent_owner matches Some(k) ==> spec_create_accounts(name_account, payer, owner, class, parent, parent_owner)[6]
            == (AccountModel { key: k, is_signer: true, is_writable: false })),
{
}

/// Variable-tail invariant for Update: the list is exactly one entry longer
/// when the parent is supplied, the extra entry is the supplied parent itself
/// (writable, non-signer) at the end, and no placeholder identity enters
/// either list.
pub proof fn lemma_update_variable_tail(
    name_account: Seq<u8>,
    update_signer: Seq<u8>,
    parent: Seq<u8>,
)
    ensures
        spec_update_accounts(name_account, update_signer, None) == seq![
            AccountModel { key: name_account, is_signer: false, is_writable: true },
            AccountModel { key: update_signer, is_signer: true, is_writable: false },
        ],
        spec_update_accounts(name_account, update_signer, Some(parent)) == spec_update_accounts(
            name_account,
            update_signer,
            None,
        ) + seq![AccountModel { key: parent, is_signer: false, is_writable: true }],
        spec_update_accounts(name_account, update_signer, Some(parent)).len()
            == spec_update_accounts(name_account, update_signer, None).len() + 1,
{
}

/// Variable-tail invariant for Transfer: the list is exactly one entry longer
/// when the class is supplied, the extra entry is the supplied class itself
/// (read-only, signer) at the end, and no placeholder identity enters either
/// list.
pub proof fn lemma_transfer_variable_tail(name_account: Seq<u8>, owner: Seq<u8>, class: Seq<u8>)
    ensures
        spec_transfer_accounts(name_account, owner, None) == seq![
            AccountModel { key: name_account, is_signer: false, is_writable: true },
            AccountModel { key: owner, is_signer: true, is_writable: false },
        ],
        spec_transfer_accounts(name_account, owner, Some(class)) == spec_transfer_accounts(
            name_account,
            owner,
            None,
        ) + seq![AccountModel { key: class, is_signer: true, is_writable: false }],
        spec_transfer_accounts(name_account, owner, Some(class)).len() == spec_transfer_accounts(
            name_account,
            owner,
            None,
        ).len() + 1,
{
}

} // verus!
