//! The accounts-context adapters: each bridges a caller's declared, possibly
//! partially supplied account set into the flat ordered list its builder
//! consumes, and yields the instruction a cross-program call submits.

pub mod transfer_reward;
pub mod validate_referrer;
