//! The referral-validation operation: a selector-less instruction with an
//! empty payload whose account list alone carries the request.

use vstd::prelude::*;
use crate::constants::{bl_program_id, spec_bl_program_id};
use crate::model::{meta, AccountMeta, Address, Instruction};
use crate::utils::or_sentinel;

verus! {

/// Builds the referral-validation instruction. The payload is always empty;
/// the five optional slots resolve to the remote program's own address when
/// absent, read-only and non-signer, so the account list always has eleven
/// slots in this fixed order.
pub fn validate_referrer(
    payer: Address,
    authority: Address,
    mint: Option<Address>,
    referrer_token_account: Option<Address>,
    referrer_member: Option<Address>,
    referrer_treasury: Option<Address>,
    referrer_treasury_for_reward: Option<Address>,
    referee_buddy_profile: Address,
    referee_buddy: Address,
    referee_treasury: Address,
    referee_member: Address,
) -> (r: Instruction)
    ensures
        r.program_id == spec_bl_program_id(),
        r.data@ == Seq::<u8>::empty(),
        r.accounts@.len() == 11,
        r.accounts@ == seq![
            meta(payer, true, true),
            meta(authority, false, false),
            meta(referee_buddy_profile, false, false),
            meta(referee_buddy, false, false),
            meta(referee_treasury, false, true),
            meta(referee_member, false, false),
            meta(or_sentinel(referrer_member), false, false),
            meta(or_sentinel(referrer_treasury), false, false),
            meta(or_sentinel(referrer_treasury_for_reward), false, false),
            meta(or_sentinel(mint), false, false),
            meta(or_sentinel(referrer_token_account), false, false),
        ],
{
    let accounts: Vec<AccountMeta> = vec![
        AccountMeta::new(payer, true),
        AccountMeta::new_readonly(authority, false),
        AccountMeta::new_readonly(referee_buddy_profile, false),
        AccountMeta::new_readonly(referee_buddy, false),
        AccountMeta::new(referee_treasury, false),
        AccountMeta::new_readonly(referee_member, false),
        AccountMeta::new_readonly(referrer_member.unwrap_or(bl_program_id()), false),
        AccountMeta::new_readonly(referrer_treasury.unwrap_or(bl_program_id()), false),
        AccountMeta::new_readonly(referrer_treasury_for_reward.unwrap_or(bl_program_id()), false),
        AccountMeta::new_readonly(mint.unwrap_or(bl_program_id()), false),
        AccountMeta::new_readonly(referrer_token_account.unwrap_or(bl_program_id()), false),
    ];

    Instruction { program_id: bl_program_id(), accounts, data: Vec::new() }
}

} // verus!
