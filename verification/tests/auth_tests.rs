use attested_rpc::user_info::UserInfo;

#[test]
fn test_new_credentials_shape() {
    let u = UserInfo::new("alice", "open sesame");
    assert_eq!(u.id, "alice");
    assert_eq!(u.salt.len(), 16);
    assert_eq!(u.salted_password_hash.len(), 64);
    // The digest is salted and derived, not the password itself.
    assert_ne!(u.salted_password_hash, "open sesame".as_bytes().to_vec());
}

#[test]
fn test_verify_password_round_trip() {
    let u = UserInfo::new("alice", "open sesame");
    assert!(u.verify_password("open sesame"));
    assert!(!u.verify_password("open Sesame"));
    assert!(!u.verify_password(""));
}

#[test]
fn test_same_password_different_salt() {
    let a = UserInfo::new("alice", "pw");
    let b = UserInfo::new("bob", "pw");
    // The random salt makes equal passwords give distinct digests.
    assert_ne!(a.salted_password_hash, b.salted_password_hash);
}

#[test]
fn test_token_round_trip() {
    let u = UserInfo::new("alice", "pw");
    let secret = [42u8; 64];
    let exp = 4_000_000_000u64;
    let token = u.get_token(exp, &secret).expect("token creation succeeds");
    assert!(u.validate_token(&secret, &token));
}

#[test]
fn test_token_rejects_wrong_secret() {
    let u = UserInfo::new("alice", "pw");
    let token = u.get_token(4_000_000_000, &[42u8; 64]).unwrap();
    assert!(!u.validate_token(&[43u8; 64], &token));
}

#[test]
fn test_token_rejects_other_subject() {
    let secret = [42u8; 64];
    let alice = UserInfo::new("alice", "pw");
    let bob = UserInfo::new("bob", "pw");
    let token = alice.get_token(4_000_000_000, &secret).unwrap();
    assert!(!bob.validate_token(&secret, &token));
}

#[test]
fn test_token_rejects_expired() {
    let u = UserInfo::new("alice", "pw");
    let secret = [42u8; 64];
    let token = u.get_token(1, &secret).unwrap();
    assert!(!u.validate_token(&secret, &token));
}

#[test]
fn test_token_rejects_garbage() {
    let u = UserInfo::new("alice", "pw");
    assert!(!u.validate_token(&[42u8; 64], "not.a.token"));
}

#[test]
fn test_token_is_deterministic() {
    // The token is a function of subject, issuer, expiry and secret alone.
    let u = UserInfo::new("alice", "pw");
    let secret = [42u8; 64];
    let t1 = u.get_token(4_000_000_000, &secret).unwrap();
    let t2 = u.get_token(4_000_000_000, &secret).unwrap();
    assert_eq!(t1, t2);
    let t3 = u.get_token(4_000_000_001, &secret).unwrap();
    assert_ne!(t1, t3);
}
