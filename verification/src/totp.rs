use vstd::prelude::*;
use vstd::string::*;

use crate::codec::{
    base32_decode, base32_encode, random_bytes, random_u128, spec_base32_decode, spec_uuid_text,
    uuid_text,
    spec_base32_encode, spec_totp_valid, totp_check, TotpAlgorithm,
};
use crate::error::{Error, ErrorCode, Rejection};

verus! {

/// The number of random bytes in a new TOTP secret.
pub const SECRET_BYTES: usize = 20;

/// The hash function of the server's TOTP codes.
pub open spec fn totp_algorithm() -> TotpAlgorithm {
    TotpAlgorithm::Sha1
}

/// The number of digits of a TOTP code.
pub const TOTP_DIGITS: usize = 6;

/// How many steps a TOTP code may be early or late.
pub const TOTP_SKEW: u8 = 1;

/// The length of a TOTP step, in seconds.
pub const TOTP_STEP: u64 = 30;

/// The number of recovery codes issued at a time.
pub const RECOVERY_CODES: usize = 10;

/// A fresh TOTP secret: 20 random bytes, as unpadded base32 text.
pub fn new_secret() -> (res: String)
    ensures
        exists|b: Seq<u8>| b.len() == SECRET_BYTES && res@ == spec_base32_encode(b),
{
    let bytes = random_bytes(SECRET_BYTES);
    base32_encode(bytes.as_slice())
}

pub open spec fn spec_enable_gate(stored: Option<bool>) -> Result<(), Rejection> {
    match stored {
        None => Err(Rejection::Api(ErrorCode::TotpNotInitialized)),
        Some(true) => Err(Rejection::Api(ErrorCode::TotpAlreadyEnabled)),
        Some(false) => Ok(()),
    }
}

/// Enabling TOTP needs a secret set up and not yet enabled. `stored` holds
/// whether the stored secret is enabled, `None` without a secret.
pub fn enable_gate(stored: Option<bool>) -> (res: Result<(), Rejection>)
    ensures
        res == spec_enable_gate(stored),
{
    match stored {
        None => Err(Rejection::Api(ErrorCode::TotpNotInitialized)),
        Some(true) => Err(Rejection::Api(ErrorCode::TotpAlreadyEnabled)),
        Some(false) => Ok(()),
    }
}

pub open spec fn spec_disable_gate(stored: Option<bool>) -> Result<(), Rejection> {
    match stored {
        Some(true) => Ok(()),
        _ => Err(Rejection::Api(ErrorCode::TotpNotEnabled)),
    }
}

/// Disabling TOTP needs it enabled.
pub fn disable_gate(stored: Option<bool>) -> (res: Result<(), Rejection>)
    ensures
        res == spec_disable_gate(stored),
{
    match stored {
        Some(true) => Ok(()),
        _ => Err(Rejection::Api(ErrorCode::TotpNotEnabled)),
    }
}

/// Why a TOTP code check fails.
#[derive(Clone, Copy, PartialEq, Eq, Structural, Debug)]
pub enum CodeFault {
    /// The stored secret is not base32.
    Undecodable,
    /// The stored secret is too short to make a TOTP.
    Unusable,
    /// The code is wrong.
    Invalid,
}

pub open spec fn spec_code_fault(decoded: bool, checked: Option<bool>) -> Option<CodeFault> {
    if !decoded {
        Some(CodeFault::Undecodable)
    } else {
        match checked {
            None => Some(CodeFault::Unusable),
            Some(false) => Some(CodeFault::Invalid),
            Some(true) => None,
        }
    }
}

/// The answer to a failed check: a wrong code is the client's error, a bad
/// stored secret a server fault.
pub open spec fn answers_fault(res: Result<(), Rejection>, fault: Option<CodeFault>) -> bool {
    match fault {
        None => res is Ok,
        Some(CodeFault::Invalid) => res == Err::<(), Rejection>(
            Rejection::Api(ErrorCode::InvalidTotpCode),
        ),
        Some(CodeFault::Undecodable) => res matches Err(Rejection::Server(Error::Internal(m)))
            && m@ == "failed to decode totp secret"@,
        Some(CodeFault::Unusable) => res matches Err(Rejection::Server(Error::Internal(m))) && m@
            == "failed to create totp"@,
    }
}

/// What checking a TOTP code gives: a stored secret that is not base32 is a
/// server fault, as is one too short to make a TOTP (`checked` is `None`);
/// otherwise the code must be valid.
pub fn code_outcome(decoded: bool, checked: Option<bool>) -> (res: Result<(), Rejection>)
    ensures
        answers_fault(res, spec_code_fault(decoded, checked)),
{
    if !decoded {
        return Err(
            Rejection::Server(Error::Internal(String::from_str("failed to decode totp secret"))),
        );
    }
    match checked {
        None => Err(Rejection::Server(Error::Internal(String::from_str("failed to create totp")))),
        Some(false) => Err(Rejection::Api(ErrorCode::InvalidTotpCode)),
        Some(true) => Ok(()),
    }
}

/// The fault, if any, of checking a TOTP code against a stored secret at
/// `now` (seconds since the epoch).
pub open spec fn spec_verify(secret: Seq<char>, code: Seq<char>, now: u64) -> Option<CodeFault> {
    match spec_base32_decode(secret) {
        None => spec_code_fault(false, None),
        Some(b) => spec_code_fault(
            true,
            if b.len() < 16 {
                None
            } else {
                Some(
                    spec_totp_valid(totp_algorithm(), TOTP_DIGITS, TOTP_SKEW, TOTP_STEP, b, code, now),
                )
            },
        ),
    }
}

/// Checks a TOTP code (SHA-1, six digits, 30-second steps, one step of
/// skew) against the stored base32 secret at `now`. The check looks one
/// step back and one ahead, so `now` must be at least one step after the
/// epoch and one step before the end of `u64` time.
pub fn verify_code(secret: &str, code: &str, now: u64) -> (res: Result<(), Rejection>)
    requires
        TOTP_STEP <= now <= u64::MAX - TOTP_STEP,
    ensures
        answers_fault(res, spec_verify(secret@, code@, now)),
{
    match base32_decode(secret) {
        None => code_outcome(false, None),
        Some(bytes) => {
            proof {
                assert(now / 30 >= 1 && (now / 30 + 1) * 30 <= u64::MAX) by (nonlinear_arith)
                    requires
                        30 <= now <= u64::MAX - 30,
                ;
            }
            let checked = totp_check(
                TotpAlgorithm::Sha1,
                TOTP_DIGITS,
                TOTP_SKEW,
                TOTP_STEP,
                &bytes,
                code,
                now,
            );
            code_outcome(true, checked)
        },
    }
}

/// Whether TOTP is enabled after a successful enable (`true`) or disable (`false`).
pub open spec fn spec_after_toggle(enable: bool) -> Option<bool> {
    Some(enable)
}

/// Enabling succeeds at most once in a row: once enabled, enabling again is
/// refused and disabling passes its gate; once disabled, the reverse.
pub proof fn law_toggle_alternates(stored: Option<bool>)
    ensures
        spec_enable_gate(stored) is Ok ==> spec_enable_gate(spec_after_toggle(true)) is Err
            && spec_disable_gate(spec_after_toggle(true)) is Ok,
        spec_disable_gate(stored) is Ok ==> spec_disable_gate(spec_after_toggle(false)) is Err
            && spec_enable_gate(spec_after_toggle(false)) is Ok,
{
}

/// The hyphenated text of each of the given UUIDs, in order.
pub fn uuid_texts(values: &Vec<u128>) -> (res: Vec<String>)
    ensures
        res@.len() == values@.len(),
        forall|i: int| 0 <= i < values@.len() ==> (#[trigger] res@[i])@ == spec_uuid_text(values@[i]),
{
    let mut v: Vec<String> = Vec::new();
    let mut i: usize = 0;
    while i < values.len()
        invariant
            i <= values@.len(),
            v@.len() == i,
            forall|j: int| 0 <= j < i ==> (#[trigger] v@[j])@ == spec_uuid_text(values@[j]),
        decreases values.len() - i,
    {
        v.push(uuid_text(values[i]));
        i = i + 1;
    }
    v
}

/// A fresh set of recovery codes: ten random (version 4) UUIDs as text.
pub fn new_recovery_codes() -> (res: Vec<String>)
    ensures
        res@.len() == RECOVERY_CODES,
        exists|r: Seq<u128>|
            r.len() == RECOVERY_CODES && (forall|i: int|
                0 <= i < RECOVERY_CODES ==> (#[trigger] r[i] >> 76u128) % 16 == 4) && (forall|i: int|
                0 <= i < RECOVERY_CODES ==> (#[trigger] res@[i])@ == spec_uuid_text(r[i])),
{
    let mut values: Vec<u128> = Vec::new();
    let mut i: usize = 0;
    while i < RECOVERY_CODES
        invariant
            i <= RECOVERY_CODES,
            values@.len() == i,
            forall|j: int| 0 <= j < i ==> (#[trigger] values@[j] >> 76u128) % 16 == 4,
        decreases RECOVERY_CODES - i,
    {
        values.push(random_u128());
        i = i + 1;
    }
    let codes = uuid_texts(&values);
    assert(forall|i: int| 0 <= i < RECOVERY_CODES ==> (#[trigger] codes@[i])@ == spec_uuid_text(values@[i]));
    codes
}

/// TOTP can be enabled exactly when a secret is set up and not yet enabled,
/// and disabled exactly when it is enabled; checking a code against a
/// secret that decodes to at least 16 bytes succeeds exactly when the code
/// is valid (SHA-1, six digits, 30-second steps, one step of skew).
pub proof fn law_totp_gates(stored: Option<bool>, secret: Seq<char>, code: Seq<char>, now: u64)
    ensures
        spec_enable_gate(stored) is Ok <==> stored == Some(false),
        spec_disable_gate(stored) is Ok <==> stored == Some(true),
        (spec_base32_decode(secret) matches Some(b) && b.len() >= 16) ==> (spec_verify(secret, code, now)
            is None <==> spec_totp_valid(TotpAlgorithm::Sha1, 6, 1, 30, spec_base32_decode(secret).unwrap(), code, now)),
        spec_base32_decode(secret) is None ==> spec_verify(secret, code, now) == Some(CodeFault::Undecodable),
{
}

} // verus!
