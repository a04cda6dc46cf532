//! The four reward-transfer operations: their argument records, the records'
//! wire encoding, and the builders that assemble each operation's
//! instruction.

use vstd::prelude::*;
use crate::codec::{
    bool_byte, lemma_u16s_le_bytes_len, lemma_u16s_round_trip, lemma_u32_round_trip,
    lemma_u64_round_trip, push_u16_le, push_u32_le, push_u64_le, read_u16_le, u16s_from_le,
    u16s_le_bytes, u32_from_le, u32_le_bytes, u64_from_le, u64_le_bytes,
};
use crate::constants::{bl_program_id, spec_bl_program_id};
use crate::model::{meta, AccountMeta, Address, Instruction};
use crate::utils::{
    get_account_meta_or_read_default, get_instruction_name_data, or_sentinel, resolved_meta,
    selector_of,
};

verus! {

/// Arguments of the single-recipient transfer operations.
#[derive(PartialEq, Eq, Debug, Clone)]
pub struct GeneralTransferRewardArgs {
    /// The amount of tokens to be transferred.
    pub amount: u64,
}

/// Arguments of the multi-recipient unchecked transfer operation.
#[derive(PartialEq, Eq, Debug, Clone)]
pub struct TransferUncheckedLocalSharedRewardArgs {
    /// The amount of tokens to be split and transferred.
    pub total_amount: u64,
    /// How the amount is split, in basis points per recipient.
    pub shares_in_bps: Vec<u16>,
    /// Whether referrer members are interleaved into the remaining accounts.
    pub members_included: bool,
}

impl GeneralTransferRewardArgs {
    /// The record's wire bytes: the amount, little-endian.
    pub open spec fn spec_bytes(&self) -> Seq<u8> {
        u64_le_bytes(self.amount)
    }

    /// The record a byte string decodes to: exactly eight bytes, read
    /// little-endian; anything else is rejected.
    pub open spec fn spec_parsed(s: Seq<u8>) -> Option<GeneralTransferRewardArgs> {
        if s.len() == 8 {
            Some(GeneralTransferRewardArgs { amount: u64_from_le(s) })
        } else {
            None
        }
    }

    /// Serializes the record into its fixed eight-byte layout.
    pub fn to_bytes(&self) -> (r: Vec<u8>)
        ensures
            r@ == self.spec_bytes(),
    {
        let mut out: Vec<u8> = Vec::new();
        push_u64_le(&mut out, self.amount);
        out
    }

    /// Deserializes a record, accepting exactly the encodings `to_bytes`
    /// produces.
    pub fn from_bytes(bytes: &[u8]) -> (r: Option<GeneralTransferRewardArgs>)
        ensures
            r == Self::spec_parsed(bytes@),
    {
        if bytes.len() != 8 {
            return None;
        }
        let amount = (bytes[0] as u64) | ((bytes[1] as u64) << 8) | ((bytes[2] as u64) << 16)
            | ((bytes[3] as u64) << 24) | ((bytes[4] as u64) << 32) | ((bytes[5] as u64) << 40)
            | ((bytes[6] as u64) << 48) | ((bytes[7] as u64) << 56);
        Some(GeneralTransferRewardArgs { amount })
    }
}

/// Decoding an encoded record gives the record back.
pub proof fn lemma_general_args_round_trip(args: GeneralTransferRewardArgs)
    ensures
        GeneralTransferRewardArgs::spec_parsed(args.spec_bytes()) == Some(args),
{
    lemma_u64_round_trip(args.amount);
}

/// The wire bytes of a multi-recipient argument record with the given
/// fields: the total amount, a four-byte length prefix, two bytes per share,
/// and the trailing flag byte.
pub open spec fn shared_args_bytes(total_amount: u64, shares: Seq<u16>, members_included: bool) -> Seq<
    u8,
> {
    u64_le_bytes(total_amount) + u32_le_bytes(shares.len() as u32) + u16s_le_bytes(shares)
        + seq![bool_byte(members_included)]
}

impl TransferUncheckedLocalSharedRewardArgs {
    /// The record's wire bytes.
    pub open spec fn spec_bytes(&self) -> Seq<u8> {
        shared_args_bytes(self.total_amount, self.shares_in_bps@, self.members_included)
    }

    /// The fields a byte string decodes to: the total amount, the shares, and
    /// the flag, provided the length prefix matches the byte count and the
    /// flag byte is 0 or 1.
    pub open spec fn spec_parsed(s: Seq<u8>) -> Option<(u64, Seq<u16>, bool)> {
        if s.len() < 13 {
            None
        } else {
            let total = u64_from_le(s.subrange(0, 8));
            let count = u32_from_le(s.subrange(8, 12)) as int;
            let flag = s[s.len() - 1];
            if s.len() - 13 == 2 * count && (flag == 0 || flag == 1) {
                Some((total, u16s_from_le(s.subrange(12, s.len() - 1)), flag == 1))
            } else {
                None
            }
        }
    }

    /// Serializes the record: fields in declaration order, the share sequence
    /// length-prefixed.
    pub fn to_bytes(&self) -> (r: Vec<u8>)
        requires
            self.shares_in_bps@.len() <= 0xffff_ffff,
        ensures
            r@ == self.spec_bytes(),
    {
        let mut out: Vec<u8> = Vec::new();
        push_u64_le(&mut out, self.total_amount);
        push_u32_le(&mut out, self.shares_in_bps.len() as u32);
        let ghost prefix = out@;
        let mut i: usize = 0;
        while i < self.shares_in_bps.len()
            invariant
                i <= self.shares_in_bps@.len(),
                out@ == prefix + u16s_le_bytes(self.shares_in_bps@.take(i as int)),
            decreases self.shares_in_bps@.len() - i,
        {
            push_u16_le(&mut out, self.shares_in_bps[i]);
            proof {
                let shares = self.shares_in_bps@;
                assert(shares.take(i + 1).drop_last() =~= shares.take(i as int));
                assert(shares.take(i + 1).last() == shares[i as int]);
                assert(out@ =~= prefix + u16s_le_bytes(shares.take(i + 1)));
            }
            i = i + 1;
        }
        proof {
            assert(self.shares_in_bps@.take(self.shares_in_bps@.len() as int)
                =~= self.shares_in_bps@);
        }
        out.push(if self.members_included { 1 } else { 0 });
        proof {
            assert(out@ =~= self.spec_bytes());
        }
        out
    }

    /// Deserializes a record, accepting exactly the encodings `to_bytes`
    /// produces.
    pub fn from_bytes(bytes: &[u8]) -> (r: Option<TransferUncheckedLocalSharedRewardArgs>)
        ensures
            match r {
                Some(args) => Self::spec_parsed(bytes@) == Some(
                    (args.total_amount, args.shares_in_bps@, args.members_included),
                ),
                None => Self::spec_parsed(bytes@) is None,
            },
    {
        let n = bytes.len();
        if n < 13 {
            return None;
        }
        let total = (bytes[0] as u64) | ((bytes[1] as u64) << 8) | ((bytes[2] as u64) << 16)
            | ((bytes[3] as u64) << 24) | ((bytes[4] as u64) << 32) | ((bytes[5] as u64) << 40)
            | ((bytes[6] as u64) << 48) | ((bytes[7] as u64) << 56);
        proof {
            assert(total == u64_from_le(bytes@.subrange(0, 8)));
        }
        let count32 = (bytes[8] as u32) | ((bytes[9] as u32) << 8) | ((bytes[10] as u32) << 16)
            | ((bytes[11] as u32) << 24);
        proof {
            assert(count32 == u32_from_le(bytes@.subrange(8, 12)));
        }
        let rest = n - 13;
        if rest % 2 != 0 || rest / 2 != count32 as usize {
            return None;
        }
        let flag = bytes[n - 1];
        if flag > 1 {
            return None;
        }
        let count = count32 as usize;
        let mut shares: Vec<u16> = Vec::new();
        let mut i: usize = 0;
        while i < count
            invariant
                i <= count,
                n == bytes@.len(),
                13 <= n,
                n - 13 == 2 * count,
                shares@ == u16s_from_le(bytes@.subrange(12, 12 + 2 * (i as int))),
            decreases count - i,
        {
            let share = read_u16_le(bytes[12 + 2 * i], bytes[13 + 2 * i]);
            shares.push(share);
            proof {
                let s2 = bytes@.subrange(12, 12 + 2 * (i + 1));
                assert(s2.drop_last().drop_last() =~= bytes@.subrange(12, 12 + 2 * (i as int)));
                assert(s2.subrange(s2.len() - 2, s2.len() as int)
                    =~= seq![bytes@[12 + 2 * (i as int)], bytes@[13 + 2 * (i as int)]]);
                assert(shares@ =~= u16s_from_le(s2));
            }
            i = i + 1;
        }
        proof {
            assert(bytes@.subrange(12, 12 + 2 * (count as int)) =~= bytes@.subrange(12, n - 1));
        }
        Some(TransferUncheckedLocalSharedRewardArgs {
            total_amount: total,
            shares_in_bps: shares,
            members_included: flag == 1,
        })
    }
}

/// Builds the multi-recipient unchecked transfer instruction. Five fixed
/// slots come first — three read-only optional slots and the source slot all
/// falling back to the remote program's own address when absent — followed by
/// the remaining accounts exactly in the order given, each writable and
/// non-signer, never reordered or deduplicated.
pub fn transfer_unchecked_local_shared_reward(
    authority: Address,
    system_program: Option<Address>,
    mint: Option<Address>,
    token_program: Option<Address>,
    from_account: Option<Address>,
    remaining_accounts: &[Address],
    transfer_args: &TransferUncheckedLocalSharedRewardArgs,
) -> (r: Instruction)
    requires
        transfer_args.shares_in_bps@.len() <= 0xffff_ffff,
    ensures
        r.program_id == spec_bl_program_id(),
        r.data@ == selector_of("transfer_reward_unchecked_multiple"@) + transfer_args.spec_bytes(),
        r.data@.len() == 21 + 2 * transfer_args.shares_in_bps@.len(),
        r.accounts@.len() == 5 + remaining_accounts@.len(),
        r.accounts@.subrange(0, 5) == seq![
            meta(authority, true, true),
            meta(or_sentinel(system_program), false, false),
            meta(or_sentinel(mint), false, false),
            meta(or_sentinel(token_program), false, false),
            resolved_meta(from_account),
        ],
        forall|i: int|
            0 <= i < remaining_accounts@.len() ==> r.accounts@[5 + i] == meta(
                remaining_accounts@[i],
                false,
                true,
            ),
{
    let mut instruction_data = get_instruction_name_data("transfer_reward_unchecked_multiple");
    let mut args_bytes = transfer_args.to_bytes();
    instruction_data.append(&mut args_bytes);
    proof {
        lemma_u16s_le_bytes_len(transfer_args.shares_in_bps@);
    }

    let mut accounts: Vec<AccountMeta> = vec![
        AccountMeta::new(authority, true),
        AccountMeta::new_readonly(system_program.unwrap_or(bl_program_id()), false),
        AccountMeta::new_readonly(mint.unwrap_or(bl_program_id()), false),
        AccountMeta::new_readonly(token_program.unwrap_or(bl_program_id()), false),
        get_account_meta_or_read_default(&from_account),
    ];

    let ghost fixed = accounts@;
    let mut i: usize = 0;
    while i < remaining_accounts.len()
        invariant
            i <= remaining_accounts@.len(),
            accounts@.len() == 5 + i,
            accounts@.subrange(0, 5) == fixed,
            fixed.len() == 5,
            forall|j: int|
                0 <= j < i ==> accounts@[5 + j] == meta(remaining_accounts@[j], false, true),
        decreases remaining_accounts@.len() - i,
    {
        accounts.push(
            AccountMeta { pubkey: remaining_accounts[i], is_signer: false, is_writable: true },
        );
        proof {
            assert(accounts@.subrange(0, 5) =~= fixed);
        }
        i = i + 1;
    }

    Instruction { program_id: bl_program_id(), accounts, data: instruction_data }
}

/// Builds the secure local transfer instruction: twelve required slots, no
/// optional ones, in the fixed order the remote program decodes.
pub fn transfer_secure_local_reward(
    authority: Address,
    mint: Address,
    token_program: Address,
    from_token_account: Address,
    referrer_token_account: Address,
    referrer_member: Address,
    referrer_treasury: Address,
    referrer_treasury_for_reward: Address,
    referee_buddy_profile: Address,
    referee_buddy: Address,
    referee_treasury: Address,
    referee_member: Address,
    transfer_args: &GeneralTransferRewardArgs,
) -> (r: Instruction)
    ensures
        r.program_id == spec_bl_program_id(),
        r.data@ == selector_of("transfer_reward_secure_no_global"@) + transfer_args.spec_bytes(),
        r.data@.len() == 16,
        r.accounts@.len() == 12,
        r.accounts@ == seq![
            meta(authority, true, true),
            meta(mint, false, false),
            meta(token_program, false, false),
            meta(from_token_account, false, true),
            meta(referrer_member, false, true),
            meta(referrer_treasury, false, true),
            meta(referrer_treasury_for_reward, false, true),
            meta(referee_buddy_profile, false, true),
            meta(referee_buddy, false, true),
            meta(referee_treasury, false, true),
            meta(referee_member, false, true),
            meta(referrer_token_account, false, true),
        ],
{
    let mut instruction_data = get_instruction_name_data("transfer_reward_secure_no_global");
    let mut args_bytes = transfer_args.to_bytes();
    instruction_data.append(&mut args_bytes);

    Instruction {
        program_id: bl_program_id(),
        accounts: vec![
            AccountMeta::new(authority, true),
            AccountMeta::new_readonly(mint, false),
            AccountMeta::new_readonly(token_program, false),
            AccountMeta::new(from_token_account, false),
            AccountMeta::new(referrer_member, false),
            AccountMeta::new(referrer_treasury, false),
            AccountMeta::new(referrer_treasury_for_reward, false),
            AccountMeta::new(referee_buddy_profile, false),
            AccountMeta::new(referee_buddy, false),
            AccountMeta::new(referee_treasury, false),
            AccountMeta::new(referee_member, false),
            AccountMeta::new(referrer_token_account, false),
        ],
        data: instruction_data,
    }
}

/// Builds the checked global transfer instruction: eleven slots, with the
/// global-referrer pair and the referrer member resolving to the sentinel
/// when absent — present values stay writable, absent slots become read-only.
pub fn transfer_checked_global_reward(
    authority: Address,
    mint: Address,
    token_program: Address,
    from_token_account: Address,
    referrer_token_account: Address,
    referrer_member: Option<Address>,
    referrer_treasury: Address,
    referrer_treasury_for_reward: Address,
    referee_member: Address,
    buddy_global_referrer_treasury: Option<Address>,
    buddy_global_referrer_token_account: Option<Address>,
    transfer_args: &GeneralTransferRewardArgs,
) -> (r: Instruction)
    ensures
        r.program_id == spec_bl_program_id(),
        r.data@ == selector_of("transfer_reward_spl"@) + transfer_args.spec_bytes(),
        r.data@.len() == 16,
        r.accounts@.len() == 11,
        r.accounts@ == seq![
            meta(authority, true, true),
            resolved_meta(buddy_global_referrer_treasury),
            resolved_meta(buddy_global_referrer_token_account),
            resolved_meta(referrer_member),
            meta(referrer_treasury, false, true),
            meta(referrer_treasury_for_reward, false, true),
            meta(referee_member, false, true),
            meta(mint, false, false),
            meta(token_program, false, false),
            meta(from_token_account, false, true),
            meta(referrer_token_account, false, true),
        ],
{
    let mut instruction_data = get_instruction_name_data("transfer_reward_spl");
    let mut args_bytes = transfer_args.to_bytes();
    instruction_data.append(&mut args_bytes);

    Instruction {
        program_id: bl_program_id(),
        accounts: vec![
            AccountMeta::new(authority, true),
            get_account_meta_or_read_default(&buddy_global_referrer_treasury),
            get_account_meta_or_read_default(&buddy_global_referrer_token_account),
            get_account_meta_or_read_default(&referrer_member),
            AccountMeta::new(referrer_treasury, false),
            AccountMeta::new(referrer_treasury_for_reward, false),
            AccountMeta::new(referee_member, false),
            AccountMeta::new_readonly(mint, false),
            AccountMeta::new_readonly(token_program, false),
            AccountMeta::new(from_token_account, false),
            AccountMeta::new(referrer_token_account, false),
        ],
        data: instruction_data,
    }
}

/// Builds the global-only checked transfer instruction: ten slots, of which
/// five are optional and resolve to the remote program's own address when
/// absent, so the list length never varies.
pub fn transfer_checked_global_only_reward(
    authority: Address,
    system_program: Option<Address>,
    mint: Option<Address>,
    token_program: Option<Address>,
    from_token_account: Option<Address>,
    referrer_token_account: Option<Address>,
    buddy_global_referrer_treasury: Address,
    buddy_global_referrer_treasury_for_reward: Address,
    referee_buddy_profile: Address,
    referee_buddy: Address,
    transfer_args: &GeneralTransferRewardArgs,
) -> (r: Instruction)
    ensures
        r.program_id == spec_bl_program_id(),
        r.data@ == selector_of("transfer_reward_global"@) + transfer_args.spec_bytes(),
        r.data@.len() == 16,
        r.accounts@.len() == 10,
        r.accounts@ == seq![
            meta(authority, true, true),
            meta(buddy_global_referrer_treasury, false, true),
            meta(buddy_global_referrer_treasury_for_reward, false, true),
            meta(referee_buddy_profile, false, false),
            meta(referee_buddy, false, false),
            meta(or_sentinel(system_program), false, false),
            meta(or_sentinel(mint), false, false),
            meta(or_sentinel(token_program), false, false),
            resolved_meta(referrer_token_account),
            resolved_meta(from_token_account),
        ],
{
    let mut instruction_data = get_instruction_name_data("transfer_reward_global");
    let mut args_bytes = transfer_args.to_bytes();
    instruction_data.append(&mut args_bytes);

    Instruction {
        program_id: bl_program_id(),
        accounts: vec![
            AccountMeta::new(authority, true),
            AccountMeta::new(buddy_global_referrer_treasury, false),
            AccountMeta::new(buddy_global_referrer_treasury_for_reward, false),
            AccountMeta::new_readonly(referee_buddy_profile, false),
            AccountMeta::new_readonly(referee_buddy, false),
            AccountMeta::new_readonly(system_program.unwrap_or(bl_program_id()), false),
            AccountMeta::new_readonly(mint.unwrap_or(bl_program_id()), false),
            AccountMeta::new_readonly(token_program.unwrap_or(bl_program_id()), false),
            get_account_meta_or_read_default(&referrer_token_account),
            get_account_meta_or_read_default(&from_token_account),
        ],
        data: instruction_data,
    }
}

/// Decoding an encoded record gives back the record's fields: the encode and
/// decode directions of the share layout agree on every record whose share
/// count fits the four-byte length prefix.
pub proof fn lemma_shared_args_round_trip(args: TransferUncheckedLocalSharedRewardArgs)
    requires
        args.shares_in_bps@.len() <= 0xffff_ffff,
    ensures
        TransferUncheckedLocalSharedRewardArgs::spec_parsed(args.spec_bytes()) == Some(
            (args.total_amount, args.shares_in_bps@, args.members_included),
        ),
{
    let shares = args.shares_in_bps@;
    let s = args.spec_bytes();
    lemma_u16s_le_bytes_len(shares);
    assert(s.len() == 13 + 2 * shares.len());
    assert(s.subrange(0, 8) =~= u64_le_bytes(args.total_amount));
    lemma_u64_round_trip(args.total_amount);
    assert(s.subrange(8, 12) =~= u32_le_bytes(shares.len() as u32));
    lemma_u32_round_trip(shares.len() as u32);
    assert(s.subrange(12, s.len() - 1) =~= u16s_le_bytes(shares));
    lemma_u16s_round_trip(shares);
    assert(s[s.len() - 1] == bool_byte(args.members_included));
}

} // verus!
