//! Instruction builders, one per remote operation. Each composes the
//! operation's selector, its encoded argument record and its fixed,
//! ordered account-meta list.

pub mod transfer_reward;
pub mod validate_referrer;
