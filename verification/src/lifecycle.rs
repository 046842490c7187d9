//! OrderLifecycle: every transition of the state machine, each one an
//! indivisible read-validate-mutate step.
//!
//! A transition either applies completely — record mutated, payout
//! instruction returned — or fails with one error and leaves the record
//! exactly as it was. The authorization rules, the status graph and the
//! payout arithmetic are all stated in the contracts below.

use vstd::prelude::*;

use crate::custody::Disbursement;
use crate::errors::ErrorCode;
use crate::expiry::spec_eligible;
use crate::fees::{spec_to_creator, spec_to_helper, spec_total_escrow, total_escrow};
use crate::state::{identity_eq, spec_status_advances, Identity, Order, Status};

verus! {

/// Whether `caller` is one of the two parties of the order: its creator,
/// or its helper once one has joined.
pub open spec fn spec_caller_is_party(order: Order, caller: Identity) -> bool {
    ||| caller@ == order.creator@
    ||| (order.helper matches Some(h) && caller@ == h@)
}

/// Runtime form of `spec_caller_is_party`.
fn caller_is_party(order: &Order, caller: &Identity) -> (r: bool)
    ensures
        r == spec_caller_is_party(*order, *caller),
{
    if identity_eq(caller, &order.creator) {
        return true;
    }
    match &order.helper {
        Some(h) => identity_eq(caller, h),
        None => false,
    }
}

/// Create an order. Validates every parameter, builds the record in
/// `Created`, and returns beside it the value — principal plus helper
/// fee — that the custodian must lock from the creator.
///
/// The arbiter is the creator: the current mode of dispute resolution.
pub fn create_request(
    creator: Identity,
    asset: Identity,
    amount: u64,
    local_amount: u64,
    now: i64,
    expiry_at: i64,
    fee_percentage: u8,
    nonce: u64,
    authority_salt: u8,
    qr_payload: Vec<u8>,
) -> (r: Result<(Order, u64), ErrorCode>)
    ensures
        (if amount == 0 || local_amount == 0 {
            r == Err::<(Order, u64), ErrorCode>(ErrorCode::InvalidAmount)
        } else if fee_percentage > 100 {
            r == Err::<(Order, u64), ErrorCode>(ErrorCode::InvalidFee)
        } else if qr_payload@.len() > 500 {
            r == Err::<(Order, u64), ErrorCode>(ErrorCode::QRTooLong)
        } else if spec_total_escrow(amount, fee_percentage) > u64::MAX {
            r == Err::<(Order, u64), ErrorCode>(ErrorCode::MathOverflow)
        } else {
            r matches Ok(p) && p.1 == spec_total_escrow(amount, fee_percentage) && p.0 == (Order {
                creator,
                helper: None,
                asset,
                amount,
                local_amount,
                status: Status::Created,
                created_at: now,
                expiry_at,
                paid_at: None,
                released_at: None,
                receipt_hash: None,
                fee_percentage,
                arbiter: creator,
                nonce,
                authority_salt,
                qr_payload,
            }) && p.0.wf()
        }),
{
    if amount == 0 {
        return Err(ErrorCode::InvalidAmount);
    }
    if local_amount == 0 {
        return Err(ErrorCode::InvalidAmount);
    }
    if fee_percentage > 100 {
        return Err(ErrorCode::InvalidFee);
    }
    if qr_payload.len() > 500 {
        return Err(ErrorCode::QRTooLong);
    }
    let total = match total_escrow(amount, fee_percentage) {
        Ok(total) => total,
        Err(e) => {
            return Err(e);
        },
    };
    let order = Order {
        creator,
        helper: None,
        asset,
        amount,
        local_amount,
        status: Status::Created,
        created_at: now,
        expiry_at,
        paid_at: None,
        released_at: None,
        receipt_hash: None,
        fee_percentage,
        arbiter: creator,
        nonce,
        authority_salt,
        qr_payload,
    };
    Ok((order, total))
}

/// Join an open order as its helper. The creator cannot join their own
/// order. Sets the helper — written exactly once — and advances the
/// status to `Joined`.
pub fn join_request(order: &mut Order, helper: Identity) -> (r: Result<(), ErrorCode>)
    requires
        old(order).wf(),
    ensures
        final(order).wf(),
        (if old(order).status != Status::Created {
            r == Err::<(), ErrorCode>(ErrorCode::InvalidStatus) && *final(order) == *old(order)
        } else if helper@ == old(order).creator@ {
            r == Err::<(), ErrorCode>(ErrorCode::Unauthorized) && *final(order) == *old(order)
        } else {
            r == Ok::<(), ErrorCode>(()) && *final(order) == (Order {
                helper: Some(helper),
                status: Status::Joined,
                ..*old(order)
            })
        }),
        r is Ok ==> spec_status_advances(old(order).status, final(order).status),
{
    if !(order.status == Status::Created) {
        return Err(ErrorCode::InvalidStatus);
    }
    if identity_eq(&helper, &order.creator) {
        return Err(ErrorCode::Unauthorized);
    }
    order.helper = Some(helper);
    order.status = Status::Joined;
    Ok(())
}

/// Attest that the local-currency payment happened. Either party may mark
/// it; an optional receipt hash is stored, and never overwritten with
/// nothing. Advances the status to `PaidLocal` and records the time.
pub fn mark_paid(
    order: &mut Order,
    caller: Identity,
    now: i64,
    receipt_hash: Option<[u8; 32]>,
) -> (r: Result<(), ErrorCode>)
    requires
        old(order).wf(),
    ensures
        final(order).wf(),
        (if old(order).status != Status::Joined {
            r == Err::<(), ErrorCode>(ErrorCode::InvalidStatus) && *final(order) == *old(order)
        } else if !spec_caller_is_party(*old(order), caller) {
            r == Err::<(), ErrorCode>(ErrorCode::Unauthorized) && *final(order) == *old(order)
        } else {
            r == Ok::<(), ErrorCode>(()) && *final(order) == (Order {
                status: Status::PaidLocal,
                paid_at: Some(now),
                receipt_hash: (if receipt_hash is Some {
                    receipt_hash
                } else {
                    old(order).receipt_hash
                }),
                ..*old(order)
            })
        }),
        r is Ok ==> spec_status_advances(old(order).status, final(order).status),
{
    if !(order.status == Status::Joined) {
        return Err(ErrorCode::InvalidStatus);
    }
    if !caller_is_party(order, &caller) {
        return Err(ErrorCode::Unauthorized);
    }
    order.status = Status::PaidLocal;
    order.paid_at = Some(now);
    if let Some(h) = receipt_hash {
        order.receipt_hash = Some(h);
    }
    Ok(())
}

/// The cooperative release: the creator acknowledges the attested payment
/// and the whole escrow — principal plus fee — is owed to the helper.
/// Advances the status to `Released` and records the time.
pub fn acknowledge_and_release(order: &mut Order, caller: Identity, now: i64) -> (r: Result<
    Disbursement,
    ErrorCode,
>)
    requires
        old(order).wf(),
    ensures
        final(order).wf(),
        (if old(order).status != Status::PaidLocal {
            r == Err::<Disbursement, ErrorCode>(ErrorCode::InvalidStatus) && *final(order)
                == *old(order)
        } else if caller@ != old(order).creator@ {
            r == Err::<Disbursement, ErrorCode>(ErrorCode::Unauthorized) && *final(order)
                == *old(order)
        } else {
            r == Ok::<Disbursement, ErrorCode>(Disbursement {
                to_helper: spec_total_escrow(old(order).amount, old(order).fee_percentage) as u64,
                to_creator: 0,
            }) && *final(order) == (Order {
                status: Status::Released,
                released_at: Some(now),
                ..*old(order)
            })
        }),
        r matches Ok(d) ==> d.total() == spec_total_escrow(old(order).amount, old(order).fee_percentage),
        r is Ok ==> spec_status_advances(old(order).status, final(order).status),
{
    if !(order.status == Status::PaidLocal) {
        return Err(ErrorCode::InvalidStatus);
    }
    if !identity_eq(&caller, &order.creator) {
        return Err(ErrorCode::Unauthorized);
    }
    release_payout(order, now)
}

/// The timeout path: once the expiry boundary has passed, anyone may force
/// the same payout as the cooperative release, from `Joined` or
/// `PaidLocal`, with no creator-caller check.
pub fn auto_release(order: &mut Order, now: i64) -> (r: Result<Disbursement, ErrorCode>)
    requires
        old(order).wf(),
    ensures
        final(order).wf(),
        (if old(order).status != Status::Joined && old(order).status != Status::PaidLocal {
            r == Err::<Disbursement, ErrorCode>(ErrorCode::InvalidStatus) && *final(order)
                == *old(order)
        } else if !spec_eligible(old(order).expiry_at, now) {
            r == Err::<Disbursement, ErrorCode>(ErrorCode::NotExpired) && *final(order)
                == *old(order)
        } else {
            r == Ok::<Disbursement, ErrorCode>(Disbursement {
                to_helper: spec_total_escrow(old(order).amount, old(order).fee_percentage) as u64,
                to_creator: 0,
            }) && *final(order) == (Order {
                status: Status::Released,
                released_at: Some(now),
                ..*old(order)
            })
        }),
        r matches Ok(d) ==> d.total() == spec_total_escrow(old(order).amount, old(order).fee_percentage),
        r is Ok ==> spec_status_advances(old(order).status, final(order).status),
{
    if !(order.status == Status::Joined || order.status == Status::PaidLocal) {
        return Err(ErrorCode::InvalidStatus);
    }
    if !crate::expiry::eligible(order, now) {
        return Err(ErrorCode::NotExpired);
    }
    release_payout(order, now)
}

/// The payout both release paths share: the whole escrow to the helper,
/// status to `Released`.
fn release_payout(order: &mut Order, now: i64) -> (r: Result<Disbursement, ErrorCode>)
    requires
        old(order).wf(),
        old(order).status == Status::Joined || old(order).status == Status::PaidLocal,
    ensures
        final(order).wf(),
        r == Ok::<Disbursement, ErrorCode>(Disbursement {
            to_helper: spec_total_escrow(old(order).amount, old(order).fee_percentage) as u64,
            to_creator: 0,
        }),
        *final(order) == (Order { status: Status::Released, released_at: Some(now), ..*old(order) }),
{
    let total = match total_escrow(order.amount, order.fee_percentage) {
        Ok(total) => total,
        Err(e) => {
            return Err(e);
        },
    };
    order.status = Status::Released;
    order.released_at = Some(now);
    Ok(Disbursement { to_helper: total, to_creator: 0 })
}

/// Law: the value locked at creation is exactly what a release — prompt
/// or automatic — eventually disburses in aggregate. Creation locks the
/// escrow total of the principal and fee percentage, no transition in
/// between changes those two fields, and the release pays the same total.
pub proof fn lemma_lock_equals_eventual_disbursement(
    created: Order,
    lock: u64,
    released: Order,
    d: Disbursement,
)
    requires
        created.wf(),
        lock == spec_total_escrow(created.amount, created.fee_percentage),
        released.amount == created.amount,
        released.fee_percentage == created.fee_percentage,
        d.to_helper == spec_total_escrow(released.amount, released.fee_percentage) as u64,
        d.to_creator == 0,
    ensures
        d.total() == lock,
{
}

/// Contest the order. Any holder of the record may raise a dispute, and no
/// status precondition is enforced: the status becomes `Disputed` whatever
/// it was — an open point of the design, kept as the system behaves. The
/// reason is not persisted.
pub fn raise_dispute(order: &mut Order, _reason: Option<String>) -> (r: Result<(), ErrorCode>)
    requires
        old(order).wf(),
    ensures
        final(order).wf(),
        r == Ok::<(), ErrorCode>(()),
        *final(order) == (Order { status: Status::Disputed, ..*old(order) }),
        (old(order).status == Status::Joined || old(order).status == Status::PaidLocal)
            ==> spec_status_advances(old(order).status, final(order).status),
{
    order.status = Status::Disputed;
    Ok(())
}

/// A validated dispute resolution: the three defined outcomes, mutually
/// exclusive and exhaustive, with the split carrying its basis points.
#[derive(Clone, Copy, Debug, PartialEq, Eq, Structural)]
pub enum Outcome {
    /// The whole principal goes back to the creator.
    RefundCreator,
    /// The whole principal goes to the helper.
    PayHelper,
    /// The principal is divided at the carried basis points.
    Split(u16),
}

/// How an outcome code and optional basis points parse: code 2 demands
/// basis points of at most 10000, any code above 2 is rejected before any
/// value moves.
pub open spec fn spec_parse_outcome(outcome: u8, split_bps: Option<u16>) -> Result<
    Outcome,
    ErrorCode,
> {
    if outcome == 0 {
        Ok(Outcome::RefundCreator)
    } else if outcome == 1 {
        Ok(Outcome::PayHelper)
    } else if outcome == 2 {
        match split_bps {
            Some(bps) => if bps <= 10000 {
                Ok(Outcome::Split(bps))
            } else {
                Err(ErrorCode::InvalidFee)
            },
            None => Err(ErrorCode::InvalidFee),
        }
    } else {
        Err(ErrorCode::InvalidOutcome)
    }
}

/// Validate an outcome code and its basis points at the boundary.
pub fn parse_outcome(outcome: u8, split_bps: Option<u16>) -> (r: Result<Outcome, ErrorCode>)
    ensures
        r == spec_parse_outcome(outcome, split_bps),
{
    if outcome == 0 {
        Ok(Outcome::RefundCreator)
    } else if outcome == 1 {
        Ok(Outcome::PayHelper)
    } else if outcome == 2 {
        match split_bps {
            Some(bps) => {
                if bps <= 10000 {
                    Ok(Outcome::Split(bps))
                } else {
                    Err(ErrorCode::InvalidFee)
                }
            },
            None => Err(ErrorCode::InvalidFee),
        }
    } else {
        Err(ErrorCode::InvalidOutcome)
    }
}

/// The payout a resolved dispute moves. Only the principal is divided: the
/// fee is a helper incentive for cooperative fulfilment and is forfeited
/// on every dispute outcome — a deliberate asymmetry of the design.
pub open spec fn spec_resolution(outcome: Outcome, amount: u64) -> Disbursement {
    match outcome {
        Outcome::RefundCreator => Disbursement { to_helper: 0, to_creator: amount },
        Outcome::PayHelper => Disbursement { to_helper: amount, to_creator: 0 },
        Outcome::Split(bps) => Disbursement {
            to_helper: spec_to_helper(amount, bps) as u64,
            to_creator: spec_to_creator(amount, bps) as u64,
        },
    }
}

/// Law: every valid resolution moves the principal exactly — no more, no
/// less — however it is divided between the parties.
pub proof fn lemma_resolution_conserves_principal(outcome: Outcome, amount: u64)
    requires
        (outcome matches Outcome::Split(bps) ==> bps <= 10000),
    ensures
        spec_resolution(outcome, amount).total() == amount,
{
    match outcome {
        Outcome::Split(bps) => {
            crate::fees::lemma_split_is_exact(amount, bps);
        },
        _ => {},
    }
}

/// Resolve a disputed order. Only the stored arbiter may; the outcome is
/// validated before any value moves, the principal is divided per
/// `spec_resolution`, and the status becomes `Resolved`.
pub fn resolve_dispute(
    order: &mut Order,
    caller: Identity,
    outcome: u8,
    split_bps: Option<u16>,
) -> (r: Result<Disbursement, ErrorCode>)
    requires
        old(order).wf(),
    ensures
        final(order).wf(),
        (if old(order).status != Status::Disputed {
            r == Err::<Disbursement, ErrorCode>(ErrorCode::InvalidStatus) && *final(order)
                == *old(order)
        } else if caller@ != old(order).arbiter@ {
            r == Err::<Disbursement, ErrorCode>(ErrorCode::Unauthorized) && *final(order)
                == *old(order)
        } else {
            match spec_parse_outcome(outcome, split_bps) {
                Err(e) => r == Err::<Disbursement, ErrorCode>(e) && *final(order) == *old(order),
                Ok(oc) => r == Ok::<Disbursement, ErrorCode>(spec_resolution(oc, old(order).amount))
                    && *final(order) == (Order { status: Status::Resolved, ..*old(order) }),
            }
        }),
        r matches Ok(d) ==> d.total() == old(order).amount,
        r is Ok ==> spec_status_advances(old(order).status, final(order).status),
{
    if !(order.status == Status::Disputed) {
        return Err(ErrorCode::InvalidStatus);
    }
    if !identity_eq(&caller, &order.arbiter) {
        return Err(ErrorCode::Unauthorized);
    }
    let oc = match parse_outcome(outcome, split_bps) {
        Ok(oc) => oc,
        Err(e) => {
            return Err(e);
        },
    };
    let total = order.amount;
    let d = match oc {
        Outcome::RefundCreator => Disbursement { to_helper: 0, to_creator: total },
        Outcome::PayHelper => Disbursement { to_helper: total, to_creator: 0 },
        Outcome::Split(bps) => {
            let h = match crate::fees::to_helper(total, bps) {
                Ok(h) => h,
                Err(e) => {
                    return Err(e);
                },
            };
            let c = match crate::fees::to_creator(total, bps) {
                Ok(c) => c,
                Err(e) => {
                    return Err(e);
                },
            };
            Disbursement { to_helper: h, to_creator: c }
        },
    };
    proof {
        lemma_resolution_conserves_principal(oc, total);
    }
    order.status = Status::Resolved;
    Ok(d)
}

} // verus!
