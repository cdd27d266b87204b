use dca_vault::identity::Identity;
use dca_vault::session_keys::{
    check_session, close_session_key, create_session_key, revoke_session_key, update_limits,
    validate_session, ErrorCode, SessionKey,
};

fn id(b: u8) -> Identity {
    Identity::new([b; 32])
}

fn owner() -> Identity {
    id(1)
}

fn delegate() -> Identity {
    id(2)
}

fn target() -> Identity {
    id(3)
}

fn key(per_tx: u64, total: u64) -> SessionKey {
    create_session_key(owner(), delegate(), per_tx, total, 100, 1000, vec![target()]).unwrap()
}

#[test]
fn create_sets_fields() {
    let k = create_session_key(owner(), delegate(), 50, 100, 100, 1000, vec![target(), id(9)])
        .unwrap();
    assert_eq!(k.owner, owner());
    assert_eq!(k.session_pubkey, delegate());
    assert_eq!(k.max_amount_per_tx, 50);
    assert_eq!(k.max_total_amount, 100);
    assert_eq!(k.spent_amount, 0);
    assert_eq!(k.created_at, 100);
    assert_eq!(k.expiry_timestamp, 1000);
    assert_eq!(k.allowed_programs, vec![target(), id(9)]);
    assert!(k.is_active);
}

#[test]
fn create_accepts_ten_targets() {
    let targets: Vec<Identity> = (0..10u8).map(id).collect();
    let k = create_session_key(owner(), delegate(), 1, 1, 0, 10, targets).unwrap();
    assert_eq!(k.allowed_programs.len(), 10);
}

#[test]
fn create_rejects_eleven_targets() {
    let targets: Vec<Identity> = (0..11u8).map(id).collect();
    let r = create_session_key(owner(), delegate(), 1, 1, 0, 10, targets);
    assert_eq!(r.unwrap_err(), ErrorCode::TooManyAllowedPrograms);
}

#[test]
fn validate_twice_then_total_limit() {
    let mut k = key(50, 100);
    assert_eq!(validate_session(&mut k, &delegate(), 200, &target(), 40), Ok(()));
    assert_eq!(k.spent_amount, 40);
    assert_eq!(validate_session(&mut k, &delegate(), 200, &target(), 40), Ok(()));
    assert_eq!(k.spent_amount, 80);
    assert_eq!(
        validate_session(&mut k, &delegate(), 200, &target(), 40),
        Err(ErrorCode::AmountExceedsTotalLimit)
    );
    assert_eq!(k.spent_amount, 80);
}

#[test]
fn validate_exact_total_is_allowed() {
    let mut k = key(100, 100);
    assert_eq!(validate_session(&mut k, &delegate(), 200, &target(), 100), Ok(()));
    assert_eq!(k.spent_amount, 100);
    assert_eq!(
        validate_session(&mut k, &delegate(), 200, &target(), 1),
        Err(ErrorCode::AmountExceedsTotalLimit)
    );
}

#[test]
fn validate_per_tx_limit() {
    let mut k = key(50, 100);
    assert_eq!(
        validate_session(&mut k, &delegate(), 200, &target(), 51),
        Err(ErrorCode::AmountExceedsPerTxLimit)
    );
    assert_eq!(k.spent_amount, 0);
}

#[test]
fn validate_unlisted_target_with_budget_left() {
    let mut k = key(50, 100);
    assert_eq!(
        validate_session(&mut k, &delegate(), 200, &id(4), 1),
        Err(ErrorCode::ProgramNotAllowed)
    );
    assert_eq!(k.spent_amount, 0);
}

#[test]
fn validate_wrong_caller() {
    let mut k = key(50, 100);
    assert_eq!(
        validate_session(&mut k, &owner(), 200, &target(), 1),
        Err(ErrorCode::Unauthorized)
    );
    assert_eq!(k.spent_amount, 0);
}

#[test]
fn validate_after_revoke_always_fails() {
    let mut k = key(50, 100);
    assert_eq!(revoke_session_key(&mut k, &owner()), Ok(()));
    assert!(!k.is_active);
    for amount in [0u64, 1, 50] {
        for t in [target(), id(7)] {
            assert_eq!(
                validate_session(&mut k, &delegate(), 200, &t, amount),
                Err(ErrorCode::SessionKeyNotActive)
            );
        }
    }
    assert_eq!(k.spent_amount, 0);
    assert_eq!(revoke_session_key(&mut k, &owner()), Ok(()));
    assert!(!k.is_active);
}

#[test]
fn validate_at_or_after_expiry_fails() {
    let mut k = key(50, 100);
    assert_eq!(validate_session(&mut k, &delegate(), 999, &target(), 10), Ok(()));
    for now in [1000i64, 1001, 5000] {
        assert_eq!(
            validate_session(&mut k, &delegate(), now, &target(), 0),
            Err(ErrorCode::SessionKeyExpired)
        );
    }
    assert_eq!(k.spent_amount, 10);
}

#[test]
fn spent_never_exceeds_total_over_a_run() {
    let mut k = key(30, 100);
    let mut last = 0u64;
    for amount in [30u64, 25, 30, 20, 10, 5, 0, 15] {
        let _ = validate_session(&mut k, &delegate(), 200, &target(), amount);
        assert!(k.spent_amount <= k.max_total_amount);
        assert!(k.spent_amount >= last);
        last = k.spent_amount;
    }
    assert_eq!(k.spent_amount, 100);
}

#[test]
fn check_session_does_not_charge() {
    let k = key(50, 100);
    assert_eq!(check_session(&k, &delegate(), 200, &target(), 40), Ok(()));
    assert_eq!(k.spent_amount, 0);
}

#[test]
fn revoke_by_stranger_is_refused() {
    let mut k = key(50, 100);
    assert_eq!(revoke_session_key(&mut k, &delegate()), Err(ErrorCode::Unauthorized));
    assert!(k.is_active);
}

#[test]
fn update_limits_below_spent_exhausts_key() {
    let mut k = key(50, 100);
    assert_eq!(validate_session(&mut k, &delegate(), 200, &target(), 40), Ok(()));
    assert_eq!(update_limits(&mut k, &owner(), 10, 30), Ok(()));
    assert_eq!(k.max_amount_per_tx, 10);
    assert_eq!(k.max_total_amount, 30);
    assert!(k.is_exhausted());
    assert_eq!(
        validate_session(&mut k, &delegate(), 200, &target(), 0),
        Err(ErrorCode::AmountExceedsTotalLimit)
    );
    assert_eq!(k.spent_amount, 40);
}

#[test]
fn update_limits_by_stranger_is_refused() {
    let mut k = key(50, 100);
    assert_eq!(update_limits(&mut k, &delegate(), 1, 1), Err(ErrorCode::Unauthorized));
    assert_eq!(k.max_amount_per_tx, 50);
    assert_eq!(k.max_total_amount, 100);
}

#[test]
fn close_needs_owner_not_revocation() {
    let k = key(50, 100);
    assert_eq!(close_session_key(&k, &owner()), Ok(()));
    assert_eq!(close_session_key(&k, &delegate()), Err(ErrorCode::Unauthorized));
}

#[test]
fn identities_compare_by_bytes() {
    let mut b = [5u8; 32];
    assert!(id(5).same_as(&Identity::new(b)));
    b[31] = 6;
    assert!(!id(5).same_as(&Identity::new(b)));
    assert_ne!(id(5), Identity::new(b));
}
