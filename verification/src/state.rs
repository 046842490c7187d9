//! The order record and its status graph.
//!
//! An `Order` is the persistent record of one escrow agreement. Identities
//! are 32-byte values, opaque to the core: the logic only ever compares
//! them. The status graph is the heart of the lifecycle: `spec_status_advances`
//! enumerates every edge a transition may take, and each edge strictly
//! increases the status code, so the lifecycle never regresses.

use vstd::prelude::*;

use crate::fees::spec_total_escrow;

verus! {

/// A party of the system: creator, helper or arbiter. 32 bytes, compared
/// for equality and otherwise opaque to the core.
pub type Identity = [u8; 32];

/// Byte-for-byte identity comparison.
pub fn identity_eq(a: &Identity, b: &Identity) -> (r: bool)
    ensures
        r == (a@ == b@),
{
    let mut i: usize = 0;
    while i < 32
        invariant
            0 <= i <= 32,
            forall|j: int| 0 <= j < i ==> a@[j] == b@[j],
        decreases 32 - i,
    {
        if a[i] != b[i] {
            return false;
        }
        i = i + 1;
    }
    proof {
        assert(a@ =~= b@);
    }
    true
}

/// Where an order stands in its lifecycle.
#[derive(Clone, Copy, Debug, PartialEq, Eq, Structural)]
pub enum Status {
    /// Value locked, waiting for a helper.
    Created,
    /// A helper has committed to pay the local amount.
    Joined,
    /// The off-ledger payment has been attested.
    PaidLocal,
    /// Principal and fee paid out to the helper. Terminal.
    Released,
    /// One of the parties contests the order.
    Disputed,
    /// The arbiter has divided the principal. Terminal.
    Resolved,
}

/// The persisted code of each status.
pub open spec fn spec_status_code(s: Status) -> u8 {
    match s {
        Status::Created => 0,
        Status::Joined => 1,
        Status::PaidLocal => 2,
        Status::Released => 3,
        Status::Disputed => 4,
        Status::Resolved => 5,
    }
}

/// The persisted one-byte code of a status.
pub fn status_code(s: Status) -> (c: u8)
    ensures
        c == spec_status_code(s),
{
    match s {
        Status::Created => 0,
        Status::Joined => 1,
        Status::PaidLocal => 2,
        Status::Released => 3,
        Status::Disputed => 4,
        Status::Resolved => 5,
    }
}

/// The status a persisted one-byte code denotes, if any.
pub fn status_from_code(c: u8) -> (r: Option<Status>)
    ensures
        (match r {
            Some(s) => spec_status_code(s) == c,
            None => c > 5,
        }),
{
    if c == 0 {
        Some(Status::Created)
    } else if c == 1 {
        Some(Status::Joined)
    } else if c == 2 {
        Some(Status::PaidLocal)
    } else if c == 3 {
        Some(Status::Released)
    } else if c == 4 {
        Some(Status::Disputed)
    } else if c == 5 {
        Some(Status::Resolved)
    } else {
        None
    }
}

/// The edges a transition may take: the cooperative path
/// `Created -> Joined -> PaidLocal -> Released`, the auto-release edge
/// `Joined -> Released`, and the dispute path
/// `Joined | PaidLocal -> Disputed -> Resolved`.
pub open spec fn spec_status_advances(pre: Status, post: Status) -> bool {
    ||| (pre == Status::Created && post == Status::Joined)
    ||| (pre == Status::Joined && post == Status::PaidLocal)
    ||| (pre == Status::PaidLocal && post == Status::Released)
    ||| (pre == Status::Joined && post == Status::Released)
    ||| (pre == Status::Joined && post == Status::Disputed)
    ||| (pre == Status::PaidLocal && post == Status::Disputed)
    ||| (pre == Status::Disputed && post == Status::Resolved)
}

/// Law: every edge of the transition graph strictly increases the status
/// code, so the lifecycle only ever advances and never regresses.
pub proof fn lemma_advance_is_forward(pre: Status, post: Status)
    requires
        spec_status_advances(pre, post),
    ensures
        spec_status_code(pre) < spec_status_code(post),
{
}

/// One escrow agreement between a creator and a helper. One record exists
/// per creator and nonce pair; the nonce is a creator-chosen salt that
/// allows several concurrent orders.
#[derive(Debug, Clone)]
pub struct Order {
    /// The party that locked the principal. Immutable after creation.
    pub creator: Identity,
    /// The counterparty; unset until join, then written exactly once.
    pub helper: Option<Identity>,
    /// Identifier of the custodied asset type.
    pub asset: Identity,
    /// Principal value in smallest asset denomination. Always positive.
    pub amount: u64,
    /// The equivalent in local-currency minor units; informational only.
    pub local_amount: u64,
    /// Where the order stands in its lifecycle.
    pub status: Status,
    /// When the order was created.
    pub created_at: i64,
    /// The auto-release eligibility boundary.
    pub expiry_at: i64,
    /// When the off-ledger payment was marked, once it has been.
    pub paid_at: Option<i64>,
    /// When the escrow was paid out, once it has been.
    pub released_at: Option<i64>,
    /// Attestation of the off-ledger payment, set at most once.
    pub receipt_hash: Option<[u8; 32]>,
    /// Helper incentive as a whole-number percent, at most 100.
    pub fee_percentage: u8,
    /// The identity allowed to resolve a dispute.
    pub arbiter: Identity,
    /// Creator-chosen salt disambiguating concurrent orders.
    pub nonce: u64,
    /// Salt of the derived authority under which the escrow is held.
    pub authority_salt: u8,
    /// The off-ledger payment instruction, at most 500 bytes, opaque here.
    pub qr_payload: Vec<u8>,
}

impl Order {
    /// Everything creation establishes and every transition preserves:
    /// positive principal and local amount, a fee percentage within range,
    /// an escrow total that fits the asset's integer domain, a bounded
    /// payment payload, and a helper present exactly when the status
    /// demands one.
    pub open spec fn wf(self) -> bool {
        &&& self.amount > 0
        &&& self.local_amount > 0
        &&& self.fee_percentage <= 100
        &&& spec_total_escrow(self.amount, self.fee_percentage) <= u64::MAX
        &&& self.qr_payload@.len() <= 500
        &&& (self.status == Status::Created ==> self.helper is None)
        &&& ((self.status == Status::Joined || self.status == Status::PaidLocal
            || self.status == Status::Released) ==> self.helper is Some)
    }

    /// Runtime check of `wf`, for callers outside the verified core that
    /// must establish it before handing an order in.
    pub fn is_well_formed(&self) -> (r: bool)
        ensures
            r == self.wf(),
    {
        if self.amount == 0 || self.local_amount == 0 || self.fee_percentage > 100 {
            return false;
        }
        let total_ok = match crate::fees::total_escrow(self.amount, self.fee_percentage) {
            Ok(_) => true,
            Err(_) => false,
        };
        let helper_ok = match self.status {
            Status::Created => self.helper.is_none(),
            Status::Joined => self.helper.is_some(),
            Status::PaidLocal => self.helper.is_some(),
            Status::Released => self.helper.is_some(),
            Status::Disputed => true,
            Status::Resolved => true,
        };
        total_ok && self.qr_payload.len() <= 500 && helper_ok
    }
}

} // verus!
