//! Account context of the referral-validation operation, and the adapter
//! that turns it into the instruction a direct (unsigned) invocation submits.

use vstd::prelude::*;
use crate::constants::spec_bl_program_id;
use crate::instruction::validate_referrer::validate_referrer as build_validate_referrer;
use crate::model::{meta, Address, Instruction};
use crate::utils::or_sentinel;

verus! {

/// The declared account set of the referral validation. The five optional
/// slots ask for extra checks: a mint-specific validation or a referrer
/// validation.
#[derive(Clone, Copy, PartialEq, Eq, Debug)]
pub struct ValidateReferrer {
    /// The remote referral program's own account.
    pub buddy_link_program: Address,
    /// Payer of the transaction.
    pub payer: Address,
    /// Owner of the referee accounts.
    pub authority: Address,
    /// Profile of the referee.
    pub referee_buddy_profile: Address,
    /// Paid buddy of the referee.
    pub referee_buddy: Address,
    /// Treasury owned by the referee's buddy.
    pub referee_treasury: Address,
    /// Referee member within the caller's organization.
    pub referee_member: Address,
    /// Referrer member, to validate the referee's referrer.
    pub referrer_member: Option<Address>,
    /// Treasury that owns the referrer member.
    pub referrer_treasury: Option<Address>,
    /// Referrer treasury linked to the current mint.
    pub referrer_treasury_for_reward: Option<Address>,
    /// Token account linked to the mint.
    pub referrer_token_account: Option<Address>,
    /// The mint, to validate the referral tree against it.
    pub mint: Option<Address>,
}

/// Adapts the context into the referral-validation instruction: an
/// empty-payload instruction whatever combination of optional accounts is
/// supplied, with every absent slot resolved to the sentinel, read-only.
pub fn validate_referrer(accounts: &ValidateReferrer) -> (r: Instruction)
    ensures
        r.program_id == spec_bl_program_id(),
        r.data@ == Seq::<u8>::empty(),
        r.accounts@.len() == 11,
        r.accounts@ == seq![
            meta(accounts.payer, true, true),
            meta(accounts.authority, false, false),
            meta(accounts.referee_buddy_profile, false, false),
            meta(accounts.referee_buddy, false, false),
            meta(accounts.referee_treasury, false, true),
            meta(accounts.referee_member, false, false),
            meta(or_sentinel(accounts.referrer_member), false, false),
            meta(or_sentinel(accounts.referrer_treasury), false, false),
            meta(or_sentinel(accounts.referrer_treasury_for_reward), false, false),
            meta(or_sentinel(accounts.mint), false, false),
            meta(or_sentinel(accounts.referrer_token_account), false, false),
        ],
{
    build_validate_referrer(
        accounts.payer,
        accounts.authority,
        accounts.mint,
        accounts.referrer_token_account,
        accounts.referrer_member,
        accounts.referrer_treasury,
        accounts.referrer_treasury_for_reward,
        accounts.referee_buddy_profile,
        accounts.referee_buddy,
        accounts.referee_treasury,
        accounts.referee_member,
    )
}

} // verus!
