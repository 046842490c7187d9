use peermint::expiry::eligible;
use peermint::lifecycle::create_request;
use peermint::state::{identity_eq, status_code, status_from_code, Status};

#[test]
fn status_codes_match_the_persisted_layout() {
    assert_eq!(status_code(Status::Created), 0);
    assert_eq!(status_code(Status::Joined), 1);
    assert_eq!(status_code(Status::PaidLocal), 2);
    assert_eq!(status_code(Status::Released), 3);
    assert_eq!(status_code(Status::Disputed), 4);
    assert_eq!(status_code(Status::Resolved), 5);
}

#[test]
fn status_codes_round_trip() {
    for c in 0u8..=5 {
        let s = status_from_code(c).unwrap();
        assert_eq!(status_code(s), c);
    }
    assert_eq!(status_from_code(6), None);
    assert_eq!(status_from_code(255), None);
}

#[test]
fn identities_compare_by_bytes() {
    let a = [1u8; 32];
    let mut b = [1u8; 32];
    assert!(identity_eq(&a, &b));
    b[31] = 2;
    assert!(!identity_eq(&a, &b));
}

#[test]
fn expiry_gate_boundary() {
    let (order, _) = create_request(
        [1u8; 32],
        [7u8; 32],
        1_000_000,
        1,
        100,
        1_000,
        5,
        0,
        255,
        Vec::new(),
    )
    .unwrap();
    assert!(!eligible(&order, 999));
    assert!(eligible(&order, 1_000));
    assert!(eligible(&order, 1_001));
}

#[test]
fn unset_deadline_never_becomes_eligible() {
    let (order, _) = create_request(
        [1u8; 32],
        [7u8; 32],
        1_000_000,
        1,
        100,
        0,
        5,
        0,
        255,
        Vec::new(),
    )
    .unwrap();
    assert!(!eligible(&order, i64::MAX));
}

#[test]
fn well_formedness_checks_the_record() {
    let (order, _) = create_request(
        [1u8; 32],
        [7u8; 32],
        1_000_000,
        1,
        100,
        1_000,
        5,
        0,
        255,
        Vec::new(),
    )
    .unwrap();
    assert!(order.is_well_formed());

    let mut bad = order.clone();
    bad.amount = 0;
    assert!(!bad.is_well_formed());

    let mut bad = order.clone();
    bad.fee_percentage = 101;
    assert!(!bad.is_well_formed());

    let mut bad = order.clone();
    bad.qr_payload = vec![0u8; 501];
    assert!(!bad.is_well_formed());

    let mut bad = order.clone();
    bad.status = Status::Joined;
    // Joined demands a helper.
    assert!(!bad.is_well_formed());

    let mut bad = order.clone();
    bad.helper = Some([2u8; 32]);
    // Created demands no helper.
    assert!(!bad.is_well_formed());
}
