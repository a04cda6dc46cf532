//! The selector computer and the optional-account-slot resolver.

use vstd::prelude::*;
use crate::constants::spec_bl_program_id;
use crate::constants::bl_program_id;
use crate::model::{Address, AccountMeta, meta};

verus! {

/// The 8-byte selector that tags an operation name on the wire: the first
/// eight bytes of the SHA-256 digest of `"global:<name>"`. The digest is a
/// function of the name alone, so the selector is named rather than spelled
/// out.
pub uninterp spec fn selector_of(name: Seq<char>) -> Seq<u8>;

/// Relies on solana_program::hash::hash: it returns the SHA-256 digest of its
/// input, a function of the bytes alone, and Hash::to_bytes yields the
/// digest's 32 bytes, of which the first 8 are kept.
#[verifier::external_body]
pub fn get_instruction_name_data(instruction_name: &str) -> (r: Vec<u8>)
    ensures
        r@ == selector_of(instruction_name@),
        r@.len() == 8,
{
    let digest = solana_program::hash::hash(format!("global:{}", instruction_name).as_bytes());
    digest.to_bytes()[..8].to_vec()
}

/// Two selector computations for the same operation name agree: the selector
/// is a pure function of the name.
pub proof fn lemma_selector_deterministic(name: Seq<char>, first: Seq<u8>, second: Seq<u8>)
    requires
        first == selector_of(name),
        second == selector_of(name),
    ensures
        first == second,
{
}

/// The address an optional slot carries on the wire: the supplied address, or
/// the remote program's own address as the absence sentinel.
pub open spec fn or_sentinel(slot: Option<Address>) -> Address {
    match slot {
        Some(address) => address,
        None => spec_bl_program_id(),
    }
}

/// The account meta a writable optional slot resolves to: the supplied
/// address writable, or the sentinel read-only; never a dropped slot.
pub open spec fn resolved_meta(slot: Option<Address>) -> AccountMeta {
    match slot {
        Some(address) => meta(address, false, true),
        None => meta(spec_bl_program_id(), false, false),
    }
}

/// An absent optional slot always resolves to the remote program's own
/// address, marked non-signer and read-only, whichever resolver a builder
/// uses for it.
pub proof fn lemma_absent_slot_is_sentinel()
    ensures
        or_sentinel(None) == spec_bl_program_id(),
        resolved_meta(None) == meta(spec_bl_program_id(), false, false),
{
}

/// Resolves a writable optional account slot: a supplied address keeps the
/// slot writable; an absent one yields the remote program's own address,
/// non-signer and read-only.
pub fn get_account_meta_or_read_default(pubkey: &Option<Address>) -> (r: AccountMeta)
    ensures
        r == resolved_meta(*pubkey),
{
    if let Some(pubkey) = pubkey {
        return AccountMeta::new(*pubkey, false);
    }
    AccountMeta::new_readonly(bl_program_id(), false)
}

} // verus!
