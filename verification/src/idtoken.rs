use vstd::prelude::*;
use vstd::string::*;

use crate::codec::{json_string, spec_base64_url_nopad, spec_json_string, spec_uuid_text, uuid_text};
use crate::email::{decimal, u64_decimal};
use vstd::utf8::encode_utf8;
use crate::error::Error;
use crate::oauth::TOKEN_LIFETIME_SECS;

verus! {

#[verifier::external_type_specification]
#[verifier::external_body]
pub struct ExEncodingKey(jsonwebtoken::EncodingKey);

/// The signing algorithm a JSON web key names.
#[derive(Clone, Copy, PartialEq, Eq, Structural, Debug)]
pub enum JwkAlgorithm {
    HS256,
    RS256,
    ES256,
}

/// What signing reads of the server's JSON web key.
pub struct JwkInfo {
    /// The algorithm the key names, if any.
    pub algorithm: Option<JwkAlgorithm>,
    /// The key's id.
    pub key_id: Option<String>,
    /// The key in PEM form, or why it has none.
    pub pem: Result<String, String>,
}

/// What a JSON web key text reads as: its algorithm, key id and PEM form
/// (or why it has none), or the parse error's message.
pub uninterp spec fn spec_parse_jwk(text: Seq<char>) -> Result<(Option<JwkAlgorithm>, Option<Seq<char>>, Result<Seq<char>, Seq<char>>), Seq<char>>;

/// The first part of a JSON web token, as `jsonwebtoken::encode` writes
/// it: the base64url JSON of its header, with type `JWT`, the algorithm
/// and the key id.
pub uninterp spec fn spec_jwt_header_part(algorithm: JwkAlgorithm, key_id: Option<Seq<char>>) -> Seq<char>;

/// The signing input of a JSON web token: the header part, a dot, and the
/// claims' JSON text (as given) in unpadded base64url.
pub open spec fn spec_jwt_signing_input(algorithm: JwkAlgorithm, key_id: Option<Seq<char>>, claims_json: Seq<char>) -> Seq<char> {
    spec_jwt_header_part(algorithm, key_id) + "."@ + spec_base64_url_nopad(encode_utf8(claims_json))
}

/// Whether a token starts with the given signing input and a dot (the
/// signature follows).
pub open spec fn signs_input(token: Seq<char>, input: Seq<char>) -> bool {
    token.len() > input.len() && token.subrange(0, input.len() as int + 1) == input + "."@
}

pub open spec fn opt_text(o: Option<String>) -> Option<Seq<char>> {
    match o {
        Some(s) => Some(s@),
        None => None,
    }
}

pub open spec fn result_text(r: Result<String, String>) -> Result<Seq<char>, Seq<char>> {
    match r {
        Ok(s) => Ok(s@),
        Err(e) => Err(e@),
    }
}

/// `serde_json::from_str` into a `jsonwebkey::JsonWebKey`, read back as its
/// algorithm, key id and `Key::try_to_pem`; or the parse error's message.
#[verifier::external_body]
fn parse_jwk(text: &str) -> (res: Result<JwkInfo, String>)
    ensures
        match res {
            Ok(j) => spec_parse_jwk(text@) == Ok::<_, Seq<char>>((j.algorithm, opt_text(j.key_id), result_text(j.pem))),
            Err(e) => spec_parse_jwk(text@) == Err::<(Option<JwkAlgorithm>, Option<Seq<char>>, Result<Seq<char>, Seq<char>>), Seq<char>>(e@),
        },
{
    let jwk: jsonwebkey::JsonWebKey = serde_json::from_str(text).map_err(|e| e.to_string())?;
    let algorithm = match jwk.algorithm {
        Some(jsonwebkey::Algorithm::HS256) => Some(JwkAlgorithm::HS256),
        Some(jsonwebkey::Algorithm::RS256) => Some(JwkAlgorithm::RS256),
        Some(jsonwebkey::Algorithm::ES256) => Some(JwkAlgorithm::ES256),
        None => None,
    };
    let pem = jwk.key.try_to_pem().map_err(|e| e.to_string());
    Ok(JwkInfo { algorithm, key_id: jwk.key_id, pem })
}

/// Why `jsonwebtoken::EncodingKey::from_ec_pem` refuses a PEM text (the
/// error's message), `None` when it reads it as a key.
pub uninterp spec fn spec_ec_pem_error(pem: Seq<char>) -> Option<Seq<char>>;

/// Why `jsonwebtoken::EncodingKey::from_rsa_pem` refuses a PEM text (the
/// error's message), `None` when it reads it as a key.
pub uninterp spec fn spec_rsa_pem_error(pem: Seq<char>) -> Option<Seq<char>>;

/// `jsonwebtoken::EncodingKey::from_ec_pem`, or the error's message. Whether
/// it succeeds depends on the PEM text alone; nothing is said of the key.
#[verifier::external_body]
fn ec_key_from_pem(pem: &str) -> (res: Result<jsonwebtoken::EncodingKey, String>)
    ensures
        match res {
            Ok(_) => spec_ec_pem_error(pem@) is None,
            Err(e) => spec_ec_pem_error(pem@) == Some(e@),
        },
{
    jsonwebtoken::EncodingKey::from_ec_pem(pem.as_bytes()).map_err(|e| e.to_string())
}

/// `jsonwebtoken::EncodingKey::from_rsa_pem`, or the error's message. Whether
/// it succeeds depends on the PEM text alone; nothing is said of the key.
#[verifier::external_body]
fn rsa_key_from_pem(pem: &str) -> (res: Result<jsonwebtoken::EncodingKey, String>)
    ensures
        match res {
            Ok(_) => spec_rsa_pem_error(pem@) is None,
            Err(e) => spec_rsa_pem_error(pem@) == Some(e@),
        },
{
    jsonwebtoken::EncodingKey::from_rsa_pem(pem.as_bytes()).map_err(|e| e.to_string())
}

/// `jsonwebtoken::encode` of the claims (JSON text, carried verbatim as a
/// `serde_json` raw value, which refuses text that is not JSON) under a
/// header with the algorithm and the key id, or the error's message. Its
/// source returns the signing input, a dot and the signature; an ES256
/// signature is randomized, so nothing is said of the signature itself.
#[verifier::external_body]
fn jwt_encode(algorithm: JwkAlgorithm, key_id: Option<String>, claims_json: &str, key: &jsonwebtoken::EncodingKey) -> (res: Result<String, String>)
    ensures
        res matches Ok(t) ==> signs_input(
            t@,
            spec_jwt_header_part(algorithm, opt_text(key_id)) + "."@ + spec_base64_url_nopad(encode_utf8(claims_json@)),
        ),
{
    let alg = match algorithm {
        JwkAlgorithm::HS256 => jsonwebtoken::Algorithm::HS256,
        JwkAlgorithm::RS256 => jsonwebtoken::Algorithm::RS256,
        JwkAlgorithm::ES256 => jsonwebtoken::Algorithm::ES256,
    };
    let mut header = jsonwebtoken::Header::new(alg);
    header.kid = key_id;
    let claims = serde_json::value::RawValue::from_string(claims_json.to_string()).map_err(|e| e.to_string())?;
    jsonwebtoken::encode(&header, &claims, key).map_err(|e| e.to_string())
}

/// The claims of an OpenID Connect ID token.
pub struct OidcClaims {
    /// The issuer: the server's API URL.
    pub iss: String,
    /// The user the token is for.
    pub sub: String,
    /// The client the token is for.
    pub aud: String,
    /// When it expires (seconds since the epoch).
    pub exp: u64,
    /// When it was issued (seconds since the epoch).
    pub iat: u64,
    pub nonce: Option<String>,
}

/// The JSON text of ID token claims, fields in their declared order (the
/// order the server serializes them in), an absent nonce written as `null`.
pub open spec fn spec_claims_json(c: OidcClaims) -> Seq<char> {
    "{\"iss\":"@ + spec_json_string(c.iss@) + ",\"sub\":"@ + spec_json_string(c.sub@)
        + ",\"aud\":"@ + spec_json_string(c.aud@) + ",\"exp\":"@ + decimal(c.exp as nat)
        + ",\"iat\":"@ + decimal(c.iat as nat) + ",\"nonce\":"@ + match c.nonce {
        Some(n) => spec_json_string(n@),
        None => "null"@,
    } + "}"@
}

/// Writes ID token claims as JSON text.
pub fn claims_json(c: &OidcClaims) -> (res: String)
    ensures
        res@ == spec_claims_json(*c),
{
    let mut r = String::from_str("{\"iss\":");
    let t = json_string(c.iss.as_str());
    r.append(t.as_str());
    r.append(",\"sub\":");
    let t = json_string(c.sub.as_str());
    r.append(t.as_str());
    r.append(",\"aud\":");
    let t = json_string(c.aud.as_str());
    r.append(t.as_str());
    r.append(",\"exp\":");
    let t = u64_decimal(c.exp);
    r.append(t.as_str());
    r.append(",\"iat\":");
    let t = u64_decimal(c.iat);
    r.append(t.as_str());
    r.append(",\"nonce\":");
    match &c.nonce {
        Some(n) => {
            let t = json_string(n.as_str());
            r.append(t.as_str());
        },
        None => {
            r.append("null");
        },
    }
    r.append("}");
    r
}

/// A signed time read as unsigned, as `as u64` reads it: a negative time
/// wraps around.
pub open spec fn spec_as_u64(t: i64) -> u64 {
    if t >= 0 {
        t as u64
    } else {
        (t + 18446744073709551616) as u64
    }
}

fn as_u64(t: i64) -> (res: u64)
    ensures
        res == spec_as_u64(t),
{
    if t >= 0 {
        t as u64
    } else {
        let magnitude: u64 = (-(t + 1)) as u64;
        u64::MAX - magnitude
    }
}

/// The claims of the ID token issued with an access token at `now`
/// (seconds since the epoch): issued by the API URL for the user and the
/// client, expiring with the access token.
pub fn id_token_claims(api_url: &str, user_id: u128, client_id: u128, now: i64) -> (res: OidcClaims)
    requires
        now + TOKEN_LIFETIME_SECS <= i64::MAX,
    ensures
        res.iss@ == api_url@,
        res.sub@ == spec_uuid_text(user_id),
        res.aud@ == spec_uuid_text(client_id),
        res.exp == spec_as_u64((now + TOKEN_LIFETIME_SECS) as i64),
        res.iat == spec_as_u64(now),
        res.nonce is None,
{
    OidcClaims {
        iss: String::from_str(api_url),
        sub: uuid_text(user_id),
        aud: uuid_text(client_id),
        exp: as_u64(now + TOKEN_LIFETIME_SECS as i64),
        iat: as_u64(now),
        nonce: None,
    }
}

/// Why an ID token could not be signed.
#[derive(Debug)]
pub enum SignFault {
    /// The key is not a JSON web key.
    BadKey(String),
    /// The key has no PEM form.
    NoPem(String),
    /// The key names no algorithm that ID tokens are signed with.
    UnsupportedAlgorithm,
    /// The PEM key was refused, or signing failed.
    Signing(String),
}

/// Signs an ID token (its claims given as JSON text) with the server's JSON
/// web key: the key must parse and have a PEM form, and name ES256 or
/// RS256, which decides how the PEM key is read and the token signed; the
/// token's header carries that algorithm and the key's id. A PEM text that
/// does not read as a key of that kind is a signing fault with the reader's
/// message; past that, whether signing succeeds is up to the signer.
pub fn sign_id_token(jwk_json: &str, claims_json: &str) -> (res: Result<String, SignFault>)
    ensures
        match spec_parse_jwk(jwk_json@) {
            Err(e) => res matches Err(SignFault::BadKey(m)) && m@ == e,
            Ok((alg, kid, pem)) => match pem {
                Err(e) => res matches Err(SignFault::NoPem(m)) && m@ == e,
                Ok(p) => if alg == Some(JwkAlgorithm::ES256) || alg == Some(JwkAlgorithm::RS256) {
                    let key_error = if alg == Some(JwkAlgorithm::ES256) {
                        spec_ec_pem_error(p)
                    } else {
                        spec_rsa_pem_error(p)
                    };
                    match key_error {
                        Some(m) => res matches Err(SignFault::Signing(x)) && x@ == m,
                        None => match res {
                            Ok(t) => signs_input(
                                t@,
                                spec_jwt_signing_input(alg.unwrap(), kid, claims_json@),
                            ),
                            Err(f) => f is Signing,
                        },
                    }
                } else {
                    res matches Err(SignFault::UnsupportedAlgorithm)
                },
            },
        },
{
    let jwk = match parse_jwk(jwk_json) {
        Ok(j) => j,
        Err(e) => return Err(SignFault::BadKey(e)),
    };
    let pem = match jwk.pem {
        Ok(p) => p,
        Err(e) => return Err(SignFault::NoPem(e)),
    };
    let (key, algorithm) = match jwk.algorithm {
        Some(JwkAlgorithm::ES256) => match ec_key_from_pem(pem.as_str()) {
            Ok(k) => (k, JwkAlgorithm::ES256),
            Err(e) => return Err(SignFault::Signing(e)),
        },
        Some(JwkAlgorithm::RS256) => match rsa_key_from_pem(pem.as_str()) {
            Ok(k) => (k, JwkAlgorithm::RS256),
            Err(e) => return Err(SignFault::Signing(e)),
        },
        _ => return Err(SignFault::UnsupportedAlgorithm),
    };
    match jwt_encode(algorithm, jwk.key_id, claims_json, &key) {
        Ok(t) => Ok(t),
        Err(e) => Err(SignFault::Signing(e)),
    }
}

/// The error that a signing fault is answered with: a key that is not JSON
/// is a serialization error; the others are internal errors, an
/// unsupported algorithm with the message "unsupported signing alg".
pub fn sign_error(f: SignFault) -> (res: Error)
    ensures
        f matches SignFault::BadKey(m) ==> (res matches Error::Serde(x) && x@ == m@),
        f matches SignFault::NoPem(m) ==> (res matches Error::Internal(x) && x@ == m@),
        f matches SignFault::Signing(m) ==> (res matches Error::Internal(x) && x@ == m@),
        f is UnsupportedAlgorithm ==> (res matches Error::Internal(x) && x@
            == "unsupported signing alg"@),
{
    match f {
        SignFault::BadKey(m) => Error::Serde(m),
        SignFault::NoPem(m) => Error::Internal(m),
        SignFault::Signing(m) => Error::Internal(m),
        SignFault::UnsupportedAlgorithm => Error::Internal(String::from_str("unsupported signing alg")),
    }
}

} // verus!
