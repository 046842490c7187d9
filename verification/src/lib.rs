//! Peer-to-peer escrow between a creator who locks stablecoin value and a
//! helper who fulfils the matching local-currency payment off-ledger.
//!
//! The crate verifies the core of the system: the order lifecycle state
//! machine, the authorization rules gating each transition, the fee and
//! split arithmetic, and the dispute-resolution payout logic. Custody
//! movements are expressed as `Disbursement` values for the surrounding
//! runtime to execute; the ledger itself is modelled by a per-order
//! escrow balance.

pub mod custody;
pub mod errors;
pub mod expiry;
pub mod fees;
pub mod lifecycle;
pub mod state;

use vstd::prelude::*;

verus! {

} // verus!
