//! Error taxonomy shared by every operation of the order lifecycle.

use vstd::prelude::*;

verus! {

/// Why an attempted operation was rejected. Every error aborts the whole
/// transition: the order record and the escrow balance are left exactly
/// as they were before the attempt.
#[derive(Clone, Copy, Debug, PartialEq, Eq, Structural)]
pub enum ErrorCode {
    /// `amount` or `local_amount` was zero.
    InvalidAmount,
    /// Fee percentage above 100, or split basis points above 10000 or missing.
    InvalidFee,
    /// The transition was attempted from the wrong status.
    InvalidStatus,
    /// The caller lacks the identity the transition demands.
    Unauthorized,
    /// Reserved for operations that demand a joined helper.
    NoHelper,
    /// Auto-release attempted before the expiry boundary.
    NotExpired,
    /// A dispute outcome code outside the three defined outcomes.
    InvalidOutcome,
    /// Widened arithmetic could not be narrowed back, or an addition overflowed.
    MathOverflow,
    /// The payment instruction payload exceeds 500 bytes.
    QRTooLong,
}

} // verus!
