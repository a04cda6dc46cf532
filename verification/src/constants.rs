//! The address registry: the fixed address of the remote referral program,
//! one per deployment profile.

use vstd::prelude::*;
use crate::model::Address;

verus! {

/// Which deployment of the remote program the crate addresses. Exactly one
/// profile is active in a build; the local and devnet deployments share an
/// address.
#[derive(Clone, Copy, PartialEq, Eq, Debug)]
pub enum NetworkProfile {
    Local,
    Devnet,
    Mainnet,
}

/// The remote program's address under the active (local/devnet) profile.
pub open spec fn spec_bl_program_id() -> Address {
    Address {
        bytes: [
            133u8, 134, 93, 25, 3, 212, 90, 11, 47, 249, 159, 240, 162, 211, 20, 243, 102, 218,
            21, 214, 7, 86, 65, 135, 99, 139, 104, 196, 13, 251, 24, 115,
        ],
    }
}

/// The remote program's address under the mainnet profile.
pub open spec fn spec_mainnet_program_id() -> Address {
    Address {
        bytes: [
            155u8, 141, 93, 60, 189, 237, 234, 166, 218, 129, 203, 90, 33, 71, 160, 224, 158, 41,
            73, 87, 1, 231, 120, 111, 209, 115, 219, 22, 216, 61, 57, 56,
        ],
    }
}

/// The remote-program address that a given profile resolves to.
pub open spec fn spec_program_id_for(profile: NetworkProfile) -> Address {
    match profile {
        NetworkProfile::Mainnet => spec_mainnet_program_id(),
        _ => spec_bl_program_id(),
    }
}

/// The active remote-program address: every builder targets it, and it doubles
/// as the sentinel written into absent optional account slots.
pub fn bl_program_id() -> (r: Address)
    ensures
        r == spec_bl_program_id(),
{
    Address {
        bytes: [
            133u8, 134, 93, 25, 3, 212, 90, 11, 47, 249, 159, 240, 162, 211, 20, 243, 102, 218,
            21, 214, 7, 86, 65, 135, 99, 139, 104, 196, 13, 251, 24, 115,
        ],
    }
}

/// The remote-program address of an explicitly chosen deployment profile.
pub fn program_id_for(profile: NetworkProfile) -> (r: Address)
    ensures
        r == spec_program_id_for(profile),
{
    match profile {
        NetworkProfile::Mainnet => Address {
            bytes: [
                155u8, 141, 93, 60, 189, 237, 234, 166, 218, 129, 203, 90, 33, 71, 160, 224, 158,
                41, 73, 87, 1, 231, 120, 111, 209, 115, 219, 22, 216, 61, 57, 56,
            ],
        },
        _ => bl_program_id(),
    }
}

} // verus!
