//! Client-side builders for the BuddyLink referral program's instructions.
//!
//! The crate models addresses, account metas and instructions as plain data,
//! computes each operation's 8-byte selector, encodes argument records in the
//! program's fixed little-endian layout, and resolves optional account slots
//! to the program's sentinel address. Every builder's account ordering and
//! payload bytes are stated in its contract.

pub mod codec;
pub mod constants;
pub mod cpi;
pub mod instruction;
pub mod model;
pub mod utils;
