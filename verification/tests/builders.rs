//! Account-list tests: the exact order and flags of every builder's list, the
//! fixed-position placeholder slots, the variable tails, and determinism.

use spl_name_service::accounts::AccountMeta;
use spl_name_service::instruction::create;
use spl_name_service::instruction::delete;
use spl_name_service::instruction::realloc;
use spl_name_service::instruction::transfer;
use spl_name_service::instruction::update;
use spl_name_service::instruction::NameRegistryInstruction;
use spl_name_service::pubkey::Pubkey;

fn filled_key(fill: u8) -> Pubkey {
    Pubkey::new([fill; 32])
}

fn meta(pubkey: Pubkey, is_signer: bool, is_writable: bool) -> AccountMeta {
    AccountMeta { pubkey, is_signer, is_writable }
}

#[test]
fn create_list_fully_specified() {
    let program = filled_key(1);
    let entry = filled_key(2);
    let payer = filled_key(3);
    let owner = filled_key(4);
    let class = filled_key(5);
    let parent = filled_key(6);
    let parent_owner = filled_key(7);
    let ins = NameRegistryInstruction::Create { hashed_name: vec![9; 4], lamports: 10, space: 20 };
    let built = create(
        program,
        ins,
        entry,
        payer,
        owner,
        Some(class),
        Some(parent),
        Some(parent_owner),
    );
    assert_eq!(built.program_id, program);
    assert_eq!(
        built.accounts,
        vec![
            meta(Pubkey::default(), false, false),
            meta(payer, true, true),
            meta(entry, false, true),
            meta(owner, false, false),
            meta(class, true, false),
            meta(parent, false, false),
            meta(parent_owner, true, false),
        ]
    );
}

#[test]
fn create_list_placeholder_slots() {
    let program = filled_key(1);
    let entry = filled_key(2);
    let payer = filled_key(3);
    let owner = filled_key(4);
    let ins = NameRegistryInstruction::Create {
        hashed_name: vec![0xAB; 4],
        lamports: 1_000_000,
        space: 100,
    };
    let built = create(program, ins, entry, payer, owner, None, None, None);
    // Same length as with class and parent supplied: the two fixed-position
    // slots hold the placeholder identity instead of being omitted.
    assert_eq!(built.accounts.len(), 6);
    assert_eq!(built.accounts[4], meta(Pubkey::default(), false, false));
    assert_eq!(built.accounts[5], meta(Pubkey::default(), false, false));
    // Omitting only the parent owner shortens the list by exactly one entry.
    let ins = NameRegistryInstruction::Create {
        hashed_name: vec![0xAB; 4],
        lamports: 1_000_000,
        space: 100,
    };
    let with_parent_owner =
        create(program, ins, entry, payer, owner, None, None, Some(filled_key(7)));
    assert_eq!(with_parent_owner.accounts.len(), 7);
    assert_eq!(with_parent_owner.accounts[..6], built.accounts[..]);
    // The payload is tag + length prefix + name bytes + lamports + space.
    assert_eq!(built.data.len(), 1 + 4 + 4 + 8 + 4);
    assert_eq!(built.data[0], 0);
}

#[test]
fn create_class_slot_is_signer_when_supplied() {
    let ins = NameRegistryInstruction::Create { hashed_name: vec![], lamports: 0, space: 0 };
    let built = create(
        filled_key(1),
        ins,
        filled_key(2),
        filled_key(3),
        filled_key(4),
        Some(filled_key(5)),
        None,
        None,
    );
    assert_eq!(built.accounts.len(), 6);
    assert_eq!(built.accounts[4], meta(filled_key(5), true, false));
    assert_eq!(built.accounts[5], meta(Pubkey::default(), false, false));
}

#[test]
fn update_list_variable_tail() {
    let program = filled_key(1);
    let entry = filled_key(2);
    let signer = filled_key(3);
    let parent = filled_key(4);
    let without = update(program, 5, vec![1, 2], entry, signer, None);
    assert_eq!(without.accounts, vec![meta(entry, false, true), meta(signer, true, false)]);
    let with = update(program, 5, vec![1, 2], entry, signer, Some(parent));
    assert_eq!(
        with.accounts,
        vec![meta(entry, false, true), meta(signer, true, false), meta(parent, false, true)]
    );
    assert_eq!(with.accounts.len(), without.accounts.len() + 1);
    assert_eq!(with.data, without.data);
}

#[test]
fn transfer_list_variable_tail() {
    let program = filled_key(1);
    let entry = filled_key(2);
    let owner = filled_key(3);
    let class = filled_key(4);
    let new_owner = filled_key(9);
    let without = transfer(program, new_owner, entry, owner, None);
    assert_eq!(without.accounts, vec![meta(entry, false, true), meta(owner, true, false)]);
    let with = transfer(program, new_owner, entry, owner, Some(class));
    assert_eq!(
        with.accounts,
        vec![meta(entry, false, true), meta(owner, true, false), meta(class, true, false)]
    );
    assert_eq!(with.accounts.len(), without.accounts.len() + 1);
    let mut expected_payload = vec![2u8];
    expected_payload.extend_from_slice(&[9; 32]);
    assert_eq!(with.data, expected_payload);
}

#[test]
fn delete_list_is_fixed() {
    let program = filled_key(1);
    let entry = filled_key(2);
    let owner = filled_key(3);
    let refund = filled_key(4);
    let built = delete(program, entry, owner, refund);
    assert_eq!(
        built.accounts,
        vec![meta(entry, false, true), meta(owner, true, false), meta(refund, false, true)]
    );
    assert_eq!(built.data, vec![3u8]);
}

#[test]
fn realloc_list_is_fixed() {
    let program = filled_key(1);
    let payer = filled_key(2);
    let entry = filled_key(3);
    let owner = filled_key(4);
    let built = realloc(program, payer, entry, owner, 512);
    assert_eq!(
        built.accounts,
        vec![
            meta(Pubkey::default(), false, false),
            meta(payer, true, true),
            meta(entry, false, true),
            meta(owner, true, false),
        ]
    );
    let mut expected_payload = vec![4u8];
    expected_payload.extend_from_slice(&512u32.to_le_bytes());
    assert_eq!(built.data, expected_payload);
}

#[test]
fn builders_are_deterministic() {
    let program = filled_key(1);
    let entry = filled_key(2);
    let payer = filled_key(3);
    let owner = filled_key(4);
    let class = filled_key(5);
    let parent = filled_key(6);
    let refund = filled_key(7);
    let make_create = || {
        let ins = NameRegistryInstruction::Create { hashed_name: vec![8; 3], lamports: 1, space: 2 };
        create(program, ins, entry, payer, owner, Some(class), Some(parent), None)
    };
    assert_eq!(make_create(), make_create());
    let make_update = || update(program, 3, vec![4, 5], entry, owner, Some(parent));
    assert_eq!(make_update(), make_update());
    let make_transfer = || transfer(program, filled_key(9), entry, owner, Some(class));
    assert_eq!(make_transfer(), make_transfer());
    let make_delete = || delete(program, entry, owner, refund);
    assert_eq!(make_delete(), make_delete());
    let make_realloc = || realloc(program, payer, entry, owner, 64);
    assert_eq!(make_realloc(), make_realloc());
}

#[test]
fn create_encodes_supplied_request_unchanged() {
    // `create` takes the request itself, so the payload carries whatever
    // variant the caller supplied.
    let ins = NameRegistryInstruction::Delete;
    let built = create(
        filled_key(1),
        ins,
        filled_key(2),
        filled_key(3),
        filled_key(4),
        None,
        None,
        None,
    );
    assert_eq!(built.data, vec![3u8]);
    assert_eq!(built.accounts.len(), 6);
}
