//! The escrow custodian's per-order balance, and the payout instruction
//! the lifecycle hands it.
//!
//! The real custodian is an external service; what the core needs of it is
//! an explicit sub-balance per order: value is locked at creation and
//! drained by exactly one terminal payout. `Disbursement` is the
//! instruction a releasing or resolving transition computes; the runtime
//! executes it against the two parties' accounts.

use vstd::prelude::*;

use crate::errors::ErrorCode;

verus! {

/// A payout instruction: how much of the escrowed value goes to each party.
#[derive(Clone, Copy, Debug, PartialEq, Eq, Structural)]
pub struct Disbursement {
    /// Value owed to the helper.
    pub to_helper: u64,
    /// Value owed to the creator.
    pub to_creator: u64,
}

impl Disbursement {
    /// The aggregate value the instruction moves.
    pub open spec fn total(self) -> int {
        self.to_helper + self.to_creator
    }
}

/// The value held for one order. Tied 1:1 to the order; only the defined
/// transitions ever produce instructions against it.
pub struct EscrowAccount {
    /// Value currently locked for the order.
    pub locked: u64,
}

impl EscrowAccount {
    /// A fresh, empty escrow sub-balance.
    pub fn new() -> (r: EscrowAccount)
        ensures
            r.locked == 0,
    {
        EscrowAccount { locked: 0 }
    }

    /// Lock `value` into the escrow. Fails, leaving the balance untouched,
    /// when the balance would no longer fit the asset's integer domain.
    pub fn lock(&mut self, value: u64) -> (r: Result<(), ErrorCode>)
        ensures
            (if old(self).locked + value <= u64::MAX {
                r == Ok::<(), ErrorCode>(()) && final(self).locked == old(self).locked + value
            } else {
                r == Err::<(), ErrorCode>(ErrorCode::MathOverflow) && *final(self) == *old(self)
            }),
    {
        match self.locked.checked_add(value) {
            Some(n) => {
                self.locked = n;
                Ok(())
            },
            None => Err(ErrorCode::MathOverflow),
        }
    }

    /// Execute a payout instruction against the balance. Fails, leaving
    /// the balance untouched, when the instruction asks for more than is
    /// locked.
    pub fn pay_out(&mut self, d: &Disbursement) -> (r: Result<(), ErrorCode>)
        ensures
            (if d.total() <= old(self).locked {
                r == Ok::<(), ErrorCode>(()) && final(self).locked == old(self).locked - d.total()
            } else {
                r == Err::<(), ErrorCode>(ErrorCode::MathOverflow) && *final(self) == *old(self)
            }),
    {
        let owed = match d.to_helper.checked_add(d.to_creator) {
            Some(owed) => owed,
            None => {
                return Err(ErrorCode::MathOverflow);
            },
        };
        match self.locked.checked_sub(owed) {
            Some(n) => {
                self.locked = n;
                Ok(())
            },
            None => Err(ErrorCode::MathOverflow),
        }
    }
}

} // verus!
