//! The data an instruction is made of: addresses, account metas and the
//! instruction value itself.

use vstd::prelude::*;

verus! {

/// A 32-byte account address.
#[derive(Clone, Copy, PartialEq, Eq, Debug)]
pub struct Address {
    pub bytes: [u8; 32],
}

impl Address {
    /// Wraps the raw 32 bytes of an address.
    pub fn new(bytes: [u8; 32]) -> (r: Address)
        ensures
            r == (Address { bytes }),
    {
        Address { bytes }
    }
}

/// One positional account slot of an instruction: an address together with
/// its signer and writability flags.
#[derive(Clone, Copy, PartialEq, Eq, Debug)]
pub struct AccountMeta {
    pub pubkey: Address,
    pub is_signer: bool,
    pub is_writable: bool,
}

/// The account meta with the given address and flags.
pub open spec fn meta(pubkey: Address, is_signer: bool, is_writable: bool) -> AccountMeta {
    AccountMeta { pubkey, is_signer, is_writable }
}

impl AccountMeta {
    /// A writable account slot.
    pub fn new(pubkey: Address, is_signer: bool) -> (r: AccountMeta)
        ensures
            r == meta(pubkey, is_signer, true),
    {
        AccountMeta { pubkey, is_signer, is_writable: true }
    }

    /// A read-only account slot.
    pub fn new_readonly(pubkey: Address, is_signer: bool) -> (r: AccountMeta)
        ensures
            r == meta(pubkey, is_signer, false),
    {
        AccountMeta { pubkey, is_signer, is_writable: false }
    }
}

/// A complete instruction for the remote program: target address, ordered
/// account metas and the opaque byte payload.
#[derive(Clone, PartialEq, Eq, Debug)]
pub struct Instruction {
    pub program_id: Address,
    pub accounts: Vec<AccountMeta>,
    pub data: Vec<u8>,
}

} // verus!
