//! Traqora's on-ledger contracts as verified state machines.
//!
//! Each contract keeps its records in a keyed store of its own. An operation
//! takes the ledger time where its rules depend on it, and names its caller,
//! whom the host has already authenticated. It either succeeds completely or
//! returns a named error and leaves the store as it was. What only the host
//! can do (moving tokens, calling other contracts) comes back from an
//! operation as a value for the host to act on.

use vstd::prelude::*;

pub mod address;
pub mod crypto;
pub mod seqs;
pub mod dispute;
pub mod refund;
pub mod governance;
pub mod loyalty;
pub mod token;
pub mod oracle;
pub mod proxy;
pub mod storage_version;
pub mod admin;
pub mod airline;
pub mod booking;

verus! {

} // verus!
