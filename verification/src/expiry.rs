//! ExpiryGate: the pure predicate that authorizes an auto-release once the
//! current time passes the stored deadline. It runs only when an external
//! caller invokes auto-release; nothing in the core triggers itself.

use vstd::prelude::*;

use crate::state::Order;

verus! {

/// An order may be auto-released once a deadline was actually set and the
/// current time has reached it.
pub open spec fn spec_eligible(expiry_at: i64, now: i64) -> bool {
    expiry_at > 0 && now >= expiry_at
}

/// Runtime form of `spec_eligible` on an order.
pub fn eligible(order: &Order, now: i64) -> (r: bool)
    ensures
        r == spec_eligible(order.expiry_at, now),
{
    order.expiry_at > 0 && now >= order.expiry_at
}

} // verus!
