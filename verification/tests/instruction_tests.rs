use buddy_link::constants::bl_program_id;
use buddy_link::instruction::transfer_reward::{
    transfer_checked_global_only_reward, transfer_checked_global_reward,
    transfer_secure_local_reward, transfer_unchecked_local_shared_reward,
    GeneralTransferRewardArgs, TransferUncheckedLocalSharedRewardArgs,
};
use buddy_link::instruction::validate_referrer::validate_referrer;
use buddy_link::model::{AccountMeta, Address};
use buddy_link::utils::get_account_meta_or_read_default;

fn addr(tag: u8) -> Address {
    Address::new([tag; 32])
}

fn writable(tag: u8) -> AccountMeta {
    AccountMeta { pubkey: addr(tag), is_signer: false, is_writable: true }
}

fn readonly(tag: u8) -> AccountMeta {
    AccountMeta { pubkey: addr(tag), is_signer: false, is_writable: false }
}

fn sentinel_meta() -> AccountMeta {
    AccountMeta { pubkey: bl_program_id(), is_signer: false, is_writable: false }
}

const SELECTOR_UNCHECKED_MULTIPLE: [u8; 8] = [228, 217, 40, 252, 58, 66, 148, 69];
const SELECTOR_SECURE_NO_GLOBAL: [u8; 8] = [174, 15, 234, 146, 49, 183, 195, 64];
const SELECTOR_SPL: [u8; 8] = [96, 240, 108, 156, 27, 222, 43, 52];
const SELECTOR_GLOBAL: [u8; 8] = [160, 201, 210, 182, 93, 220, 117, 92];

#[test]
fn test_validate_referrer() {
    let instruction = validate_referrer(
        addr(1),
        addr(2),
        Some(addr(3)),
        Some(addr(4)),
        Some(addr(5)),
        Some(addr(6)),
        Some(addr(6)),
        addr(7),
        addr(7),
        addr(8),
        addr(9),
    );

    assert_eq!(instruction.program_id, bl_program_id());
    assert!(instruction.data.is_empty());
    assert_eq!(
        instruction.accounts,
        vec![
            AccountMeta { pubkey: addr(1), is_signer: true, is_writable: true },
            readonly(2),
            readonly(7),
            readonly(7),
            writable(8),
            readonly(9),
            readonly(5),
            readonly(6),
            readonly(6),
            readonly(3),
            readonly(4),
        ]
    );
}

#[test]
fn test_transfer_unchecked_local_shared_reward() {
    let system_program = addr(11);
    let instruction = transfer_unchecked_local_shared_reward(
        addr(1),
        Some(system_program),
        None,
        None,
        None,
        &[addr(21), addr(22)],
        &TransferUncheckedLocalSharedRewardArgs {
            total_amount: 10,
            shares_in_bps: vec![10_000],
            members_included: true,
        },
    );

    assert_eq!(instruction.program_id, bl_program_id());
    assert_eq!(
        instruction.accounts,
        vec![
            AccountMeta { pubkey: addr(1), is_signer: true, is_writable: true },
            readonly(11),
            sentinel_meta(),
            sentinel_meta(),
            sentinel_meta(),
            writable(21),
            writable(22),
        ]
    );
    let mut expected_data = SELECTOR_UNCHECKED_MULTIPLE.to_vec();
    expected_data.extend_from_slice(&[10, 0, 0, 0, 0, 0, 0, 0]);
    expected_data.extend_from_slice(&[1, 0, 0, 0]);
    expected_data.extend_from_slice(&[16, 39]);
    expected_data.push(1);
    assert_eq!(instruction.data, expected_data);
}

#[test]
fn test_transfer_secure_local_reward() {
    let instruction = transfer_secure_local_reward(
        addr(1),
        addr(2),
        addr(3),
        addr(4),
        addr(5),
        addr(6),
        addr(7),
        addr(7),
        addr(8),
        addr(8),
        addr(9),
        addr(10),
        &GeneralTransferRewardArgs { amount: 10 },
    );

    assert_eq!(instruction.program_id, bl_program_id());
    assert_eq!(
        instruction.accounts,
        vec![
            AccountMeta { pubkey: addr(1), is_signer: true, is_writable: true },
            readonly(2),
            readonly(3),
            writable(4),
            writable(6),
            writable(7),
            writable(7),
            writable(8),
            writable(8),
            writable(9),
            writable(10),
            writable(5),
        ]
    );
    let mut expected_data = SELECTOR_SECURE_NO_GLOBAL.to_vec();
    expected_data.extend_from_slice(&[10, 0, 0, 0, 0, 0, 0, 0]);
    assert_eq!(instruction.data, expected_data);
}

#[test]
fn test_transfer_checked_global_reward() {
    let instruction = transfer_checked_global_reward(
        addr(1),
        addr(2),
        addr(3),
        addr(4),
        addr(5),
        Some(addr(6)),
        addr(7),
        addr(7),
        addr(8),
        Some(addr(7)),
        Some(addr(5)),
        &GeneralTransferRewardArgs { amount: 10 },
    );

    assert_eq!(instruction.program_id, bl_program_id());
    assert_eq!(
        instruction.accounts,
        vec![
            AccountMeta { pubkey: addr(1), is_signer: true, is_writable: true },
            writable(7),
            writable(5),
            writable(6),
            writable(7),
            writable(7),
            writable(8),
            readonly(2),
            readonly(3),
            writable(4),
            writable(5),
        ]
    );
    let mut expected_data = SELECTOR_SPL.to_vec();
    expected_data.extend_from_slice(&[10, 0, 0, 0, 0, 0, 0, 0]);
    assert_eq!(instruction.data, expected_data);
}

#[test]
fn test_transfer_checked_global_only_reward() {
    let instruction = transfer_checked_global_only_reward(
        addr(1),
        None,
        Some(addr(2)),
        Some(addr(3)),
        Some(addr(4)),
        Some(addr(5)),
        addr(7),
        addr(7),
        addr(8),
        addr(8),
        &GeneralTransferRewardArgs { amount: 1 },
    );

    assert_eq!(instruction.program_id, bl_program_id());
    assert_eq!(
        instruction.accounts,
        vec![
            AccountMeta { pubkey: addr(1), is_signer: true, is_writable: true },
            writable(7),
            writable(7),
            readonly(8),
            readonly(8),
            sentinel_meta(),
            readonly(2),
            readonly(3),
            writable(5),
            writable(4),
        ]
    );
    let mut expected_data = SELECTOR_GLOBAL.to_vec();
    expected_data.extend_from_slice(&[1, 0, 0, 0, 0, 0, 0, 0]);
    assert_eq!(instruction.data, expected_data);
}

#[test]
fn test_meta_list_length_constant_across_optionals() {
    let args = GeneralTransferRewardArgs { amount: 3 };

    let all_some = transfer_checked_global_only_reward(
        addr(1),
        Some(addr(2)),
        Some(addr(3)),
        Some(addr(4)),
        Some(addr(5)),
        Some(addr(6)),
        addr(7),
        addr(8),
        addr(9),
        addr(10),
        &args,
    );
    let all_none = transfer_checked_global_only_reward(
        addr(1),
        None,
        None,
        None,
        None,
        None,
        addr(7),
        addr(8),
        addr(9),
        addr(10),
        &args,
    );
    assert_eq!(all_some.accounts.len(), 10);
    assert_eq!(all_none.accounts.len(), 10);

    let checked_some = transfer_checked_global_reward(
        addr(1),
        addr(2),
        addr(3),
        addr(4),
        addr(5),
        Some(addr(6)),
        addr(7),
        addr(8),
        addr(9),
        Some(addr(10)),
        Some(addr(11)),
        &args,
    );
    let checked_none = transfer_checked_global_reward(
        addr(1),
        addr(2),
        addr(3),
        addr(4),
        addr(5),
        None,
        addr(7),
        addr(8),
        addr(9),
        None,
        None,
        &args,
    );
    assert_eq!(checked_some.accounts.len(), 11);
    assert_eq!(checked_none.accounts.len(), 11);

    let validate_some = validate_referrer(
        addr(1),
        addr(2),
        Some(addr(3)),
        Some(addr(4)),
        Some(addr(5)),
        Some(addr(6)),
        Some(addr(7)),
        addr(8),
        addr(9),
        addr(10),
        addr(11),
    );
    let validate_none = validate_referrer(
        addr(1),
        addr(2),
        None,
        None,
        None,
        None,
        None,
        addr(8),
        addr(9),
        addr(10),
        addr(11),
    );
    assert_eq!(validate_some.accounts.len(), 11);
    assert_eq!(validate_none.accounts.len(), 11);

    let shared_args = TransferUncheckedLocalSharedRewardArgs {
        total_amount: 5,
        shares_in_bps: vec![5_000, 5_000],
        members_included: false,
    };
    let remaining = [addr(20), addr(21)];
    let shared_some = transfer_unchecked_local_shared_reward(
        addr(1),
        Some(addr(2)),
        Some(addr(3)),
        Some(addr(4)),
        Some(addr(5)),
        &remaining,
        &shared_args,
    );
    let shared_none = transfer_unchecked_local_shared_reward(
        addr(1),
        None,
        None,
        None,
        None,
        &remaining,
        &shared_args,
    );
    assert_eq!(shared_some.accounts.len(), 7);
    assert_eq!(shared_none.accounts.len(), 7);
}

#[test]
fn test_absent_optional_slot_resolves_to_sentinel() {
    assert_eq!(get_account_meta_or_read_default(&None), sentinel_meta());
    assert_eq!(get_account_meta_or_read_default(&Some(addr(5))), writable(5));

    let instruction = validate_referrer(
        addr(1),
        addr(2),
        None,
        None,
        None,
        None,
        None,
        addr(8),
        addr(9),
        addr(10),
        addr(11),
    );
    for slot in 6..11 {
        assert_eq!(instruction.accounts[slot], sentinel_meta());
    }
}

#[test]
fn test_remaining_accounts_order_preserved() {
    let args = TransferUncheckedLocalSharedRewardArgs {
        total_amount: 4,
        shares_in_bps: vec![10_000],
        members_included: false,
    };
    let ordered = transfer_unchecked_local_shared_reward(
        addr(1),
        None,
        None,
        None,
        None,
        &[addr(30), addr(31)],
        &args,
    );
    assert_eq!(&ordered.accounts[5..], &[writable(30), writable(31)]);

    let duplicated = transfer_unchecked_local_shared_reward(
        addr(1),
        None,
        None,
        None,
        None,
        &[addr(30), addr(30)],
        &args,
    );
    assert_eq!(&duplicated.accounts[5..], &[writable(30), writable(30)]);
}

#[test]
fn test_global_only_all_optionals_absent() {
    let instruction = transfer_checked_global_only_reward(
        addr(1),
        None,
        None,
        None,
        None,
        None,
        addr(7),
        addr(8),
        addr(9),
        addr(10),
        &GeneralTransferRewardArgs { amount: 2 },
    );

    assert_eq!(
        instruction.accounts,
        vec![
            AccountMeta { pubkey: addr(1), is_signer: true, is_writable: true },
            writable(7),
            writable(8),
            readonly(9),
            readonly(10),
            sentinel_meta(),
            sentinel_meta(),
            sentinel_meta(),
            sentinel_meta(),
            sentinel_meta(),
        ]
    );
}

#[test]
fn test_validate_referrer_payload_always_empty() {
    let with_options = validate_referrer(
        addr(1),
        addr(2),
        Some(addr(3)),
        Some(addr(4)),
        Some(addr(5)),
        Some(addr(6)),
        Some(addr(7)),
        addr(8),
        addr(9),
        addr(10),
        addr(11),
    );
    let without_options = validate_referrer(
        addr(1),
        addr(2),
        None,
        None,
        None,
        None,
        None,
        addr(8),
        addr(9),
        addr(10),
        addr(11),
    );
    assert!(with_options.data.is_empty());
    assert!(without_options.data.is_empty());
}
