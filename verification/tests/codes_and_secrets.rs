use lamprey_backend::email::{
    add_gate, code_from, delete_outcome, insert_failure, new_verification_code, verify_use,
    verify_use_answer, verify_use_gate, EmailStore, StoredAddress, StoredCode, VerifyUse,
    CODE_LIFETIME_MINUTES,
};
use lamprey_backend::error::{Error, ErrorCode, Rejection};
use lamprey_backend::invite::{code_alphabet, new_invite_code};
use lamprey_backend::totp::{
    code_outcome, disable_gate, enable_gate, new_recovery_codes, new_secret, verify_code,
    RECOVERY_CODES,
};

// RFC 6238, appendix B: the SHA-1 secret "12345678901234567890", in base32.
const RFC_SECRET: &str = "GEZDGNBVGY3TQOJQGEZDGNBVGY3TQOJQ";

#[test]
fn totp_accepts_the_rfc6238_code() {
    // At 59 s the eight-digit code is 94287082; six digits keep "287082".
    assert!(verify_code(RFC_SECRET, "287082", 59).is_ok());
}

#[test]
fn totp_accepts_one_step_of_skew() {
    // The code of the step before (30..59 s) still counts 30 s later.
    assert!(verify_code(RFC_SECRET, "287082", 89).is_ok());
}

#[test]
fn totp_refuses_a_wrong_code() {
    assert!(matches!(
        verify_code(RFC_SECRET, "287083", 59),
        Err(Rejection::Api(ErrorCode::InvalidTotpCode))
    ));
}

#[test]
fn totp_refuses_a_stale_code() {
    assert!(matches!(
        verify_code(RFC_SECRET, "287082", 59 + 3600),
        Err(Rejection::Api(ErrorCode::InvalidTotpCode))
    ));
}

#[test]
fn totp_with_a_bad_secret_is_a_server_fault() {
    match verify_code("not base32!", "123456", 59) {
        Err(Rejection::Server(Error::Internal(m))) => assert_eq!(m, "failed to decode totp secret"),
        _ => panic!("expected a decode fault"),
    }
    // Eight bytes decode, but a TOTP needs at least sixteen.
    match verify_code("GEZDGNBVGY3TQOJQ", "123456", 59) {
        Err(Rejection::Server(Error::Internal(m))) => assert_eq!(m, "failed to create totp"),
        _ => panic!("expected a creation fault"),
    }
}

#[test]
fn totp_code_outcomes() {
    assert!(code_outcome(true, Some(true)).is_ok());
    assert!(matches!(
        code_outcome(true, Some(false)),
        Err(Rejection::Api(ErrorCode::InvalidTotpCode))
    ));
    assert!(matches!(code_outcome(true, None), Err(Rejection::Server(Error::Internal(_)))));
    assert!(matches!(code_outcome(false, Some(true)), Err(Rejection::Server(Error::Internal(_)))));
}

#[test]
fn totp_enable_and_disable_alternate() {
    assert!(matches!(enable_gate(None), Err(Rejection::Api(ErrorCode::TotpNotInitialized))));
    assert!(enable_gate(Some(false)).is_ok());
    // once enabled, enabling again is refused and disabling is allowed
    assert!(matches!(enable_gate(Some(true)), Err(Rejection::Api(ErrorCode::TotpAlreadyEnabled))));
    assert!(disable_gate(Some(true)).is_ok());
    // once disabled, the reverse
    assert!(matches!(disable_gate(Some(false)), Err(Rejection::Api(ErrorCode::TotpNotEnabled))));
    assert!(matches!(disable_gate(None), Err(Rejection::Api(ErrorCode::TotpNotEnabled))));
}

#[test]
fn totp_secrets_are_twenty_random_bytes_in_base32() {
    let a = new_secret();
    let b = new_secret();
    // 20 bytes are 160 bits: 32 base32 characters, no padding.
    assert_eq!(a.len(), 32);
    assert!(a.chars().all(|c| c.is_ascii_uppercase() || ('2'..='7').contains(&c)));
    assert_ne!(a, b);
}

#[test]
fn recovery_codes_are_ten_uuids() {
    let codes = new_recovery_codes();
    assert_eq!(codes.len(), RECOVERY_CODES);
    assert_eq!(codes.len(), 10);
    for c in &codes {
        assert_eq!(c.len(), 36);
        assert_eq!(c.matches('-').count(), 4);
        assert_eq!(c.as_bytes()[14], b'4');
    }
    assert_ne!(codes[0], codes[1]);
}

#[test]
fn invite_codes_use_the_alphanumeric_alphabet() {
    let alphabet = code_alphabet();
    assert_eq!(alphabet.len(), 62);
    assert_eq!(alphabet[0], 'a');
    assert_eq!(alphabet[25], 'z');
    assert_eq!(alphabet[26], 'A');
    assert_eq!(alphabet[51], 'Z');
    assert_eq!(alphabet[52], '0');
    assert_eq!(alphabet[61], '9');
    let code = new_invite_code();
    assert_eq!(code.len(), 8);
    assert!(code.chars().all(|c| c.is_ascii_alphanumeric()));
}

#[test]
fn email_codes_are_six_digits() {
    assert_eq!(code_from(0), "100000");
    assert_eq!(code_from(899_999), "999999");
    assert_eq!(code_from(900_000), "100000");
    assert_eq!(code_from(123_456), "223456");
    assert_eq!(code_from(u128::MAX), ((u128::MAX % 900_000) + 100_000).to_string());
    let fresh = new_verification_code();
    assert_eq!(fresh.len(), 6);
    let n: u32 = fresh.parse().unwrap();
    assert!((100_000..=999_999).contains(&n));
    assert_eq!(CODE_LIFETIME_MINUTES, 15);
}

#[test]
fn email_add_checks() {
    match add_gate(3, 3, false) {
        Err(Error::BadRequest(m)) => assert_eq!(m, "Maximum number of email addresses reached."),
        _ => panic!("expected the limit"),
    }
    match add_gate(0, 3, true) {
        Err(Error::BadRequest(m)) => assert_eq!(m, "Email address is already in use."),
        _ => panic!("expected the address to be taken"),
    }
    assert!(add_gate(2, 3, false).is_ok());
    assert!(matches!(insert_failure(true, "dup".to_string()), Error::EmailAlreadyExists));
    match insert_failure(false, "boom".to_string()) {
        Error::Sqlx(m) => assert_eq!(m, "boom"),
        _ => panic!("expected the store's error"),
    }
}

#[test]
fn email_verification_checks() {
    match verify_use_gate(1, Some(2), Some(100), 50) {
        Err(Error::BadRequest(m)) => assert_eq!(m, "Email address is already in use."),
        _ => panic!("expected the address to be taken"),
    }
    assert!(verify_use_gate(1, Some(1), Some(100), 50).is_ok());
    assert!(verify_use_gate(1, None, Some(100), 99).is_ok());
    assert!(matches!(verify_use_gate(1, None, Some(100), 100), Err(Error::InvalidCredentials)));
    assert!(matches!(verify_use_gate(1, None, None, 0), Err(Error::InvalidCredentials)));
    assert!(matches!(delete_outcome(0), Err(Error::NotFound)));
    assert!(delete_outcome(1).is_ok());
}

fn addr(user_id: u128, a: &str, verified: bool) -> StoredAddress {
    StoredAddress { user_id, addr: a.to_string(), verified }
}

fn code(user_id: u128, a: &str, c: &str, expires_at: i128) -> StoredCode {
    StoredCode { user_id, addr: a.to_string(), code: c.to_string(), expires_at }
}

fn view(s: &EmailStore) -> (Vec<(u128, String, bool)>, Vec<(u128, String, String, i128)>) {
    (
        s.addresses.iter().map(|a| (a.user_id, a.addr.clone(), a.verified)).collect(),
        s.codes.iter().map(|c| (c.user_id, c.addr.clone(), c.code.clone(), c.expires_at)).collect(),
    )
}

#[test]
fn verification_codes_work_once() {
    let mut store = EmailStore {
        addresses: vec![addr(1, "a@x", false), addr(2, "a@x", false), addr(2, "b@x", false)],
        codes: vec![code(1, "a@x", "123456", 100), code(2, "a@x", "654321", 100)],
    };
    // an expired or unknown code changes nothing
    assert_eq!(verify_use(&mut store, 1, "a@x", "123456", 100), VerifyUse::Invalid);
    assert_eq!(verify_use(&mut store, 1, "a@x", "000000", 50), VerifyUse::Invalid);
    assert_eq!(store.addresses.len(), 3);
    assert_eq!(verify_use(&mut store, 1, "a@x", "123456", 50), VerifyUse::Verified);
    assert_eq!(
        view(&store),
        (
            vec![(1, "a@x".to_string(), true), (2, "b@x".to_string(), false)],
            vec![(2, "a@x".to_string(), "654321".to_string(), 100)],
        )
    );
    let before = view(&store);
    assert_eq!(verify_use(&mut store, 1, "a@x", "123456", 50), VerifyUse::Invalid);
    assert_eq!(view(&store), before);
    // someone else holds the address now
    assert_eq!(verify_use(&mut store, 2, "a@x", "654321", 50), VerifyUse::InUse);
    assert!(matches!(verify_use_answer(VerifyUse::Invalid), Err(Error::InvalidCredentials)));
    assert!(verify_use_answer(VerifyUse::Verified).is_ok());
}
