//! A multi-party authorization vault: a fixed set of members jointly controls
//! a pool of funds and the vault's own upgrade process through proposals that
//! collect signatures until a quorum, expressed in basis points, is reached.
//!
//! The host platform's services (persistent storage, caller authorization,
//! token transfers and code installation) stay outside this library: the
//! state machine here decides, and the host performs what it decides.

use vstd::prelude::*;

pub mod address;
pub mod contract;
pub mod error;
pub mod laws;
pub mod quorum;
pub mod storage;

verus! {

/// Seconds in one hour: the shortest lifetime a proposal may be given.
pub const ONE_HOUR: u64 = 3_600u64;

/// Seconds in seven days: the lifetime of a proposal created without one.
pub const SEVEN_DAYS_EXPIRATION_DATE: u64 = 604_800u64;

} // verus!
