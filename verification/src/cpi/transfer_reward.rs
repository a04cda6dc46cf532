//! Account contexts of the four reward-transfer operations, and the adapters
//! that turn each context into its finished instruction.

use vstd::prelude::*;
use crate::instruction::transfer_reward::{
    shared_args_bytes, transfer_checked_global_only_reward as build_checked_global_only,
    transfer_checked_global_reward as build_checked_global,
    transfer_secure_local_reward as build_secure_local,
    transfer_unchecked_local_shared_reward as build_unchecked_shared, GeneralTransferRewardArgs,
    TransferUncheckedLocalSharedRewardArgs,
};
use crate::constants::spec_bl_program_id;
use crate::codec::u64_le_bytes;
use crate::model::{meta, Address, Instruction};
use crate::utils::{or_sentinel, resolved_meta, selector_of};

verus! {

/// The address an optional context account contributes when the remote
/// program's own account stands in for an absent one.
pub open spec fn key_or(slot: Option<Address>, default: Address) -> Address {
    match slot {
        Some(address) => address,
        None => default,
    }
}

/// The declared account set of the multi-recipient unchecked transfer.
/// Remaining accounts ride alongside: referrer treasuries, optionally paired
/// with referrer members.
#[derive(Clone, Copy, PartialEq, Eq, Debug)]
pub struct TransferRewardUncheckedMultiple {
    /// The remote referral program's own account.
    pub buddy_link_program: Address,
    /// Authority of the account sending the funds.
    pub authority: Address,
    /// System program; only supplied when sending the native token.
    pub system_program: Option<Address>,
    /// Mint; absent when sending the native token.
    pub mint: Option<Address>,
    /// Token program; absent when sending the native token.
    pub token_program: Option<Address>,
    /// Account sending the funds; absent to send from the authority.
    pub from_token_account: Option<Address>,
}

/// Adapts the context into the multi-recipient unchecked transfer
/// instruction. The system- and token-program slots fall back to the
/// context's remote-program account; the mint and source slots fall back to
/// the sentinel; the remaining accounts follow in order, writable.
pub fn transfer_unchecked_local_shared_reward(
    accounts: &TransferRewardUncheckedMultiple,
    remaining_accounts: &[Address],
    total_amount: u64,
    shares_in_bps: Vec<u16>,
    members_included: bool,
) -> (r: Instruction)
    requires
        shares_in_bps@.len() <= 0xffff_ffff,
    ensures
        r.program_id == spec_bl_program_id(),
        r.data@ == selector_of("transfer_reward_unchecked_multiple"@) + shared_args_bytes(
            total_amount,
            shares_in_bps@,
            members_included,
        ),
        r.data@.len() == 21 + 2 * shares_in_bps@.len(),
        r.accounts@.len() == 5 + remaining_accounts@.len(),
        r.accounts@.subrange(0, 5) == seq![
            meta(accounts.authority, true, true),
            meta(key_or(accounts.system_program, accounts.buddy_link_program), false, false),
            meta(or_sentinel(accounts.mint), false, false),
            meta(key_or(accounts.token_program, accounts.buddy_link_program), false, false),
            resolved_meta(accounts.from_token_account),
        ],
        forall|i: int|
            0 <= i < remaining_accounts@.len() ==> r.accounts@[5 + i] == meta(
                remaining_accounts@[i],
                false,
                true,
            ),
{
    build_unchecked_shared(
        accounts.authority,
        Some(accounts.system_program.unwrap_or(accounts.buddy_link_program)),
        accounts.mint,
        Some(accounts.token_program.unwrap_or(accounts.buddy_link_program)),
        accounts.from_token_account,
        remaining_accounts,
        &TransferUncheckedLocalSharedRewardArgs { total_amount, shares_in_bps, members_included },
    )
}

/// The declared account set of the secure local transfer: every slot is
/// required.
#[derive(Clone, Copy, PartialEq, Eq, Debug)]
pub struct TransferSecureLocalReward {
    /// The remote referral program's own account.
    pub buddy_link_program: Address,
    /// Authority of the account sending the funds.
    pub authority: Address,
    /// Mint of the transferred token.
    pub mint: Address,
    /// Token program.
    pub token_program: Address,
    /// Account sending the funds.
    pub from_token_account: Address,
    /// Account receiving the funds.
    pub referrer_token_account: Address,
    /// Referrer member within the caller's organization.
    pub referrer_member: Address,
    /// Treasury that owns the referrer member.
    pub referrer_treasury: Address,
    /// Treasury linked to the current mint.
    pub referrer_treasury_for_reward: Address,
    /// Profile of the referee.
    pub referee_buddy_profile: Address,
    /// Paid buddy of the referee.
    pub referee_buddy: Address,
    /// Treasury owned by the referee's buddy.
    pub referee_treasury: Address,
    /// Referee member within the caller's organization.
    pub referee_member: Address,
}

/// Adapts the context into the secure local transfer instruction: twelve
/// required slots in fixed order, no substitution.
pub fn transfer_secure_local_reward(
    accounts: &TransferSecureLocalReward,
    amount: u64,
) -> (r: Instruction)
    ensures
        r.program_id == spec_bl_program_id(),
        r.data@ == selector_of("transfer_reward_secure_no_global"@) + u64_le_bytes(amount),
        r.data@.len() == 16,
        r.accounts@.len() == 12,
        r.accounts@ == seq![
            meta(accounts.authority, true, true),
            meta(accounts.mint, false, false),
            meta(accounts.token_program, false, false),
            meta(accounts.from_token_account, false, true),
            meta(accounts.referrer_member, false, true),
            meta(accounts.referrer_treasury, false, true),
            meta(accounts.referrer_treasury_for_reward, false, true),
            meta(accounts.referee_buddy_profile, false, true),
            meta(accounts.referee_buddy, false, true),
            meta(accounts.referee_treasury, false, true),
            meta(accounts.referee_member, false, true),
            meta(accounts.referrer_token_account, false, true),
        ],
{
    build_secure_local(
        accounts.authority,
        accounts.mint,
        accounts.token_program,
        accounts.from_token_account,
        accounts.referrer_token_account,
        accounts.referrer_member,
        accounts.referrer_treasury,
        accounts.referrer_treasury_for_reward,
        accounts.referee_buddy_profile,
        accounts.referee_buddy,
        accounts.referee_treasury,
        accounts.referee_member,
        &GeneralTransferRewardArgs { amount },
    )
}

/// The declared account set of the checked global transfer.
#[derive(Clone, Copy, PartialEq, Eq, Debug)]
pub struct TransferCheckedGlobalReward {
    /// The remote referral program's own account.
    pub buddy_link_program: Address,
    /// Authority of the account sending the funds.
    pub authority: Address,
    /// Mint of the transferred token.
    pub mint: Address,
    /// Token program.
    pub token_program: Address,
    /// Account sending the funds.
    pub from_token_account: Address,
    /// Account receiving the funds.
    pub referrer_token_account: Address,
    /// Referrer member; absent when on-chain analytics are not wanted.
    pub referrer_member: Option<Address>,
    /// Treasury that owns the referrer member.
    pub referrer_treasury: Address,
    /// Treasury linked to the current mint.
    pub referrer_treasury_for_reward: Address,
    /// Referee member within the caller's organization.
    pub referee_member: Address,
    /// Treasury of the referee's global referrer; absent without one.
    pub buddy_global_referrer_treasury: Option<Address>,
    /// Token account linked to the global referrer's treasury.
    pub buddy_global_referrer_token_account: Option<Address>,
}

/// Adapts the context into the checked global transfer instruction: the
/// global-referrer pair and the referrer member resolve to the sentinel when
/// absent.
pub fn transfer_checked_global_reward(
    accounts: &TransferCheckedGlobalReward,
    amount: u64,
) -> (r: Instruction)
    ensures
        r.program_id == spec_bl_program_id(),
        r.data@ == selector_of("transfer_reward_spl"@) + u64_le_bytes(amount),
        r.data@.len() == 16,
        r.accounts@.len() == 11,
        r.accounts@ == seq![
            meta(accounts.authority, true, true),
            resolved_meta(accounts.buddy_global_referrer_treasury),
            resolved_meta(accounts.buddy_global_referrer_token_account),
            resolved_meta(accounts.referrer_member),
            meta(accounts.referrer_treasury, false, true),
            meta(accounts.referrer_treasury_for_reward, false, true),
            meta(accounts.referee_member, false, true),
            meta(accounts.mint, false, false),
            meta(accounts.token_program, false, false),
            meta(accounts.from_token_account, false, true),
            meta(accounts.referrer_token_account, false, true),
        ],
{
    build_checked_global(
        accounts.authority,
        accounts.mint,
        accounts.token_program,
        accounts.from_token_account,
        accounts.referrer_token_account,
        accounts.referrer_member,
        accounts.referrer_treasury,
        accounts.referrer_treasury_for_reward,
        accounts.referee_member,
        accounts.buddy_global_referrer_treasury,
        accounts.buddy_global_referrer_token_account,
        &GeneralTransferRewardArgs { amount },
    )
}

/// The declared account set of the global-only checked transfer.
#[derive(Clone, Copy, PartialEq, Eq, Debug)]
pub struct TransferCheckedGlobalOnlyReward {
    /// The remote referral program's own account.
    pub buddy_link_program: Address,
    /// Authority of the account sending the funds.
    pub authority: Address,
    /// System program; only supplied when sending the native token.
    pub system_program: Option<Address>,
    /// Mint; absent when sending the native token.
    pub mint: Option<Address>,
    /// Token program; absent when sending the native token.
    pub token_program: Option<Address>,
    /// Account sending the funds; absent to send from the authority.
    pub from_token_account: Option<Address>,
    /// Account receiving the funds; absent to send to the treasury.
    pub referrer_token_account: Option<Address>,
    /// Treasury of the referee's global referrer.
    pub global_referrer_treasury: Address,
    /// Global referrer's treasury linked to the current mint.
    pub global_referrer_treasury_for_reward: Address,
    /// Profile of the referee.
    pub referee_buddy_profile: Address,
    /// Paid buddy of the referee.
    pub referee_buddy: Address,
}

/// Adapts the context into the global-only checked transfer instruction. The
/// system- and token-program slots fall back to the context's remote-program
/// account; the mint, source and destination slots fall back to the sentinel.
pub fn transfer_checked_global_only_reward(
    accounts: &TransferCheckedGlobalOnlyReward,
    amount: u64,
) -> (r: Instruction)
    ensures
        r.program_id == spec_bl_program_id(),
        r.data@ == selector_of("transfer_reward_global"@) + u64_le_bytes(amount),
        r.data@.len() == 16,
        r.accounts@.len() == 10,
        r.accounts@ == seq![
            meta(accounts.authority, true, true),
            meta(accounts.global_referrer_treasury, false, true),
            meta(accounts.global_referrer_treasury_for_reward, false, true),
            meta(accounts.referee_buddy_profile, false, false),
            meta(accounts.referee_buddy, false, false),
            meta(key_or(accounts.system_program, accounts.buddy_link_program), false, false),
            meta(or_sentinel(accounts.mint), false, false),
            meta(key_or(accounts.token_program, accounts.buddy_link_program), false, false),
            resolved_meta(accounts.referrer_token_account),
            resolved_meta(accounts.from_token_account),
        ],
{
    build_checked_global_only(
        accounts.authority,
        Some(accounts.system_program.unwrap_or(accounts.buddy_link_program)),
        accounts.mint,
        Some(accounts.token_program.unwrap_or(accounts.buddy_link_program)),
        accounts.from_token_account,
        accounts.referrer_token_account,
        accounts.global_referrer_treasury,
        accounts.global_referrer_treasury_for_reward,
        accounts.referee_buddy_profile,
        accounts.referee_buddy,
        &GeneralTransferRewardArgs { amount },
    )
}

} // verus!
