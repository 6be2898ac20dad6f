//! A token-vesting state machine: a fixed-layout ledger record that locks a
//! pool of fungible tokens for up to ten recipients and releases them along a
//! cliff + linear curve with an upfront TGE share.
//!
//! The library holds the verified core: the record's binary layout, the
//! instruction decoder, the vesting curve, and the three transition
//! validators (create, fund, distribute).  Each validator checks a supplied
//! set of account views and returns a plan of external effects; the host glue
//! performs the token transfers and account allocations the plan describes.

pub mod accounts;
pub mod curve;
pub mod errors;
pub mod instruction;
pub mod ledger;
pub mod processor;
pub mod state;
pub mod wire;
