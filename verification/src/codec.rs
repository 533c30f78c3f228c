use vstd::prelude::*;

use base64::Engine;
use headers::Header;
use rand::RngCore;
use sha2::Digest;
use subtle::ConstantTimeEq;

verus! {

/// The SHA-256 digest of a byte string.
pub uninterp spec fn spec_sha256(data: Seq<u8>) -> Seq<u8>;

/// The unpadded URL-safe base64 encoding (RFC 4648, section 5) of a byte string.
pub uninterp spec fn spec_base64_url_nopad(data: Seq<u8>) -> Seq<char>;

/// The padded standard base64 encoding (RFC 4648, section 4) of a byte string.
pub uninterp spec fn spec_base64_standard(data: Seq<u8>) -> Seq<char>;

/// The unpadded RFC 4648 base32 encoding of a byte string.
pub uninterp spec fn spec_base32_encode(data: Seq<u8>) -> Seq<char>;

/// The bytes that an unpadded RFC 4648 base32 string decodes to, if it is one.
pub uninterp spec fn spec_base32_decode(text: Seq<char>) -> Option<Seq<u8>>;

/// The lower-case hexadecimal digit of a number below 16.
pub open spec fn hex_digit(n: int) -> char {
    if n < 10 {
        (48 + n) as char
    } else {
        (87 + n) as char
    }
}

/// Which of the 32 hexadecimal digits of a UUID stands at position `i` of
/// its hyphenated text (hyphens at 8, 13, 18 and 23).
pub open spec fn uuid_digit_index(i: int) -> int {
    if i > 23 {
        i - 4
    } else if i > 18 {
        i - 3
    } else if i > 13 {
        i - 2
    } else if i > 8 {
        i - 1
    } else {
        i
    }
}

/// The hyphenated lower-case text of a 128-bit UUID: 36 characters, the 32
/// hexadecimal digits of the value from the most significant, with hyphens
/// after the 8th, 12th, 16th and 20th.
pub open spec fn spec_uuid_text(value: u128) -> Seq<char> {
    Seq::new(
        36,
        |i: int|
            if i == 8 || i == 13 || i == 18 || i == 23 {
                '-'
            } else {
                hex_digit(((value >> ((124 - 4 * uuid_digit_index(i)) as u128)) % 16) as int)
            },
    )
}

proof fn lemma_hex_digit_injective(a: int, b: int)
    requires
        0 <= a < 16,
        0 <= b < 16,
        hex_digit(a) == hex_digit(b),
    ensures
        a == b,
{
    let ca = hex_digit(a) as int;
    let cb = hex_digit(b) as int;
    assert(ca == if a < 10 { 48 + a } else { 87 + a });
    assert(cb == if b < 10 { 48 + b } else { 87 + b });
}

proof fn lemma_digit_at(v: u128, w: u128, i: int)
    requires
        spec_uuid_text(v) == spec_uuid_text(w),
        0 <= i < 36,
        i != 8 && i != 13 && i != 18 && i != 23,
    ensures
        (v >> ((124 - 4 * uuid_digit_index(i)) as u128)) % 16 == (w >> ((124 - 4 * uuid_digit_index(i)) as u128)) % 16,
{
    let sh = (124 - 4 * uuid_digit_index(i)) as u128;
    assert(spec_uuid_text(v)[i] == hex_digit(((v >> sh) % 16) as int));
    assert(spec_uuid_text(w)[i] == hex_digit(((w >> sh) % 16) as int));
    assert(spec_uuid_text(v)[i] == spec_uuid_text(w)[i]);
    lemma_hex_digit_injective(
        ((v >> ((124 - 4 * uuid_digit_index(i)) as u128)) % 16) as int,
        ((w >> ((124 - 4 * uuid_digit_index(i)) as u128)) % 16) as int,
    );
}

/// Two UUIDs with the same text are the same UUID.
pub proof fn lemma_uuid_text_injective(v: u128, w: u128)
    requires
        spec_uuid_text(v) == spec_uuid_text(w),
    ensures
        v == w,
{
    lemma_digit_at(v, w, 0);
    lemma_digit_at(v, w, 1);
    lemma_digit_at(v, w, 2);
    lemma_digit_at(v, w, 3);
    lemma_digit_at(v, w, 4);
    lemma_digit_at(v, w, 5);
    lemma_digit_at(v, w, 6);
    lemma_digit_at(v, w, 7);
    lemma_digit_at(v, w, 9);
    lemma_digit_at(v, w, 10);
    lemma_digit_at(v, w, 11);
    lemma_digit_at(v, w, 12);
    lemma_digit_at(v, w, 14);
    lemma_digit_at(v, w, 15);
    lemma_digit_at(v, w, 16);
    lemma_digit_at(v, w, 17);
    lemma_digit_at(v, w, 19);
    lemma_digit_at(v, w, 20);
    lemma_digit_at(v, w, 21);
    lemma_digit_at(v, w, 22);
    lemma_digit_at(v, w, 24);
    lemma_digit_at(v, w, 25);
    lemma_digit_at(v, w, 26);
    lemma_digit_at(v, w, 27);
    lemma_digit_at(v, w, 28);
    lemma_digit_at(v, w, 29);
    lemma_digit_at(v, w, 30);
    lemma_digit_at(v, w, 31);
    lemma_digit_at(v, w, 32);
    lemma_digit_at(v, w, 33);
    lemma_digit_at(v, w, 34);
    lemma_digit_at(v, w, 35);
    assert(v == w) by (bit_vector)
        requires
            (v >> 124u128) % 16 == (w >> 124u128) % 16,
            (v >> 120u128) % 16 == (w >> 120u128) % 16,
            (v >> 116u128) % 16 == (w >> 116u128) % 16,
            (v >> 112u128) % 16 == (w >> 112u128) % 16,
            (v >> 108u128) % 16 == (w >> 108u128) % 16,
            (v >> 104u128) % 16 == (w >> 104u128) % 16,
            (v >> 100u128) % 16 == (w >> 100u128) % 16,
            (v >> 96u128) % 16 == (w >> 96u128) % 16,
            (v >> 92u128) % 16 == (w >> 92u128) % 16,
            (v >> 88u128) % 16 == (w >> 88u128) % 16,
            (v >> 84u128) % 16 == (w >> 84u128) % 16,
            (v >> 80u128) % 16 == (w >> 80u128) % 16,
            (v >> 76u128) % 16 == (w >> 76u128) % 16,
            (v >> 72u128) % 16 == (w >> 72u128) % 16,
            (v >> 68u128) % 16 == (w >> 68u128) % 16,
            (v >> 64u128) % 16 == (w >> 64u128) % 16,
            (v >> 60u128) % 16 == (w >> 60u128) % 16,
            (v >> 56u128) % 16 == (w >> 56u128) % 16,
            (v >> 52u128) % 16 == (w >> 52u128) % 16,
            (v >> 48u128) % 16 == (w >> 48u128) % 16,
            (v >> 44u128) % 16 == (w >> 44u128) % 16,
            (v >> 40u128) % 16 == (w >> 40u128) % 16,
            (v >> 36u128) % 16 == (w >> 36u128) % 16,
            (v >> 32u128) % 16 == (w >> 32u128) % 16,
            (v >> 28u128) % 16 == (w >> 28u128) % 16,
            (v >> 24u128) % 16 == (w >> 24u128) % 16,
            (v >> 20u128) % 16 == (w >> 20u128) % 16,
            (v >> 16u128) % 16 == (w >> 16u128) % 16,
            (v >> 12u128) % 16 == (w >> 12u128) % 16,
            (v >> 8u128) % 16 == (w >> 8u128) % 16,
            (v >> 4u128) % 16 == (w >> 4u128) % 16,
            (v >> 0u128) % 16 == (w >> 0u128) % 16,
    ;
}

/// The JSON string literal of a text, as `serde_json` writes it (quoted,
/// with its escapes).
pub uninterp spec fn spec_json_string(text: Seq<char>) -> Seq<char>;

/// The IMF-fixdate text (as in `Last-Modified`) of a time, given in
/// nanoseconds since the Unix epoch.
pub uninterp spec fn spec_http_date(nanos_since_epoch: u64) -> Seq<char>;

/// The Unix time (seconds and nanoseconds) that a version 1, 6 or 7 UUID
/// holds, `None` for the other versions.
pub uninterp spec fn spec_uuid_unix_time(value: u128) -> Option<(u64, u32)>;

/// The user name and password of a `Basic` authorization header, if the
/// header is one.
pub uninterp spec fn spec_basic_auth(value: Seq<u8>) -> Option<(Seq<char>, Seq<char>)>;

/// Whether a Unix timestamp (seconds) is within the range of dates that
/// `time::OffsetDateTime` represents (without its `large-dates` feature):
/// from -9999-01-01 00:00:00 to 9999-12-31 23:59:59 UTC.
pub open spec fn spec_unix_timestamp_valid(secs: i64) -> bool {
    -377705116800 <= secs <= 253402300799
}

/// A template rendered with the given variables (name and text), or the
/// text of the template error.
pub uninterp spec fn spec_render(template: Seq<char>, vars: Seq<(Seq<char>, Seq<char>)>) -> Result<Seq<char>, Seq<char>>;

/// The serialization of `input` resolved against the absolute URL `base`, or
/// the text of the parse error.
pub uninterp spec fn spec_url_join(base: Seq<char>, input: Seq<char>) -> Result<Seq<char>, Seq<char>>;

/// The 128-bit value of a UUID written as text, if the text is one.
pub uninterp spec fn spec_parse_uuid(text: Seq<char>) -> Option<u128>;

/// The serialization of an absolute URL with query parameters appended, if
/// the text parses as an absolute URL.
pub uninterp spec fn spec_url_with_params(url: Seq<char>, params: Seq<(Seq<char>, Seq<char>)>) -> Option<Seq<char>>;

/// The serialization of a text parsed as an absolute URL, or the message of
/// the parse error.
pub uninterp spec fn spec_parse_url(text: Seq<char>) -> Result<Seq<char>, Seq<char>>;

/// Whether a TOTP code, computed with the given algorithm, number of digits
/// and step (in seconds), is valid for a secret at a time in seconds,
/// allowing `skew` steps either way.
pub uninterp spec fn spec_totp_valid(
    algorithm: TotpAlgorithm,
    digits: usize,
    skew: u8,
    step: u64,
    secret: Seq<u8>,
    code: Seq<char>,
    time: u64,
) -> bool;

/// `sha2::Sha256::digest`: the SHA-256 digest of `data`, which is 32 bytes long.
#[verifier::external_body]
pub(crate) fn sha256(data: &[u8]) -> (res: Vec<u8>)
    ensures
        res@ == spec_sha256(data@),
        res@.len() == 32,
{
    sha2::Sha256::digest(data).to_vec()
}

/// `base64::engine::general_purpose::URL_SAFE_NO_PAD.encode`: the unpadded
/// URL-safe base64 text of `data`.
#[verifier::external_body]
pub(crate) fn base64_url_nopad(data: &[u8]) -> (res: String)
    ensures
        res@ == spec_base64_url_nopad(data@),
{
    base64::engine::general_purpose::URL_SAFE_NO_PAD.encode(data)
}

/// `base64::engine::general_purpose::STANDARD.encode`: the padded standard
/// base64 text of `data`.
#[verifier::external_body]
pub(crate) fn base64_standard(data: &[u8]) -> (res: String)
    ensures
        res@ == spec_base64_standard(data@),
{
    base64::engine::general_purpose::STANDARD.encode(data)
}

/// `base32::encode` with the unpadded RFC 4648 alphabet.
#[verifier::external_body]
pub(crate) fn base32_encode(data: &[u8]) -> (res: String)
    ensures
        res@ == spec_base32_encode(data@),
{
    base32::encode(base32::Alphabet::Rfc4648 { padding: false }, data)
}

/// `base32::decode` with the unpadded RFC 4648 alphabet: the decoded bytes,
/// or `None` when the text is not base32.
#[verifier::external_body]
pub(crate) fn base32_decode(text: &str) -> (res: Option<Vec<u8>>)
    ensures
        match res {
            Some(v) => spec_base32_decode(text@) == Some(v@),
            None => spec_base32_decode(text@) is None,
        },
{
    base32::decode(base32::Alphabet::Rfc4648 { padding: false }, text)
}

/// `subtle::ConstantTimeEq::ct_eq` on byte slices: true exactly when the two
/// slices have the same length and the same bytes.
#[verifier::external_body]
pub(crate) fn ct_eq_bytes(a: &[u8], b: &[u8]) -> (res: bool)
    ensures
        res == (a@ == b@),
{
    bool::from(a.ct_eq(b))
}

/// `uuid::Uuid::parse_str`, read as a 128-bit value: `None` when the text
/// is not a UUID.
#[verifier::external_body]
pub(crate) fn parse_uuid(text: &str) -> (res: Option<u128>)
    ensures
        res == spec_parse_uuid(text@),
{
    uuid::Uuid::parse_str(text).ok().map(|u| u.as_u128())
}

/// `uuid::Uuid::from_u128` followed by `to_string`: the hyphenated text of
/// a UUID.
#[verifier::external_body]
pub(crate) fn uuid_text(value: u128) -> (res: String)
    ensures
        res@ == spec_uuid_text(value),
{
    uuid::Uuid::from_u128(value).to_string()
}

/// `uuid::Uuid::new_v4` read as a 128-bit value: a fresh random UUID. Its
/// source masks random bits to set the version (4) and the RFC 4122 variant;
/// nothing else is said of its value.
#[verifier::external_body]
pub(crate) fn random_u128() -> (res: u128)
    ensures
        (res >> 76u128) % 16 == 4,
        (res >> 62u128) % 4 == 2,
{
    uuid::Uuid::new_v4().as_u128()
}

/// `url::Url::parse`, read back as its serialization, or the message of the
/// parse error when the text is not an absolute URL.
#[verifier::external_body]
pub(crate) fn parse_url(text: &str) -> (res: Result<String, String>)
    ensures
        match res {
            Ok(s) => spec_parse_url(text@) == Ok::<Seq<char>, Seq<char>>(s@),
            Err(e) => spec_parse_url(text@) == Err::<Seq<char>, Seq<char>>(e@),
        },
{
    url::Url::parse(text).map(|u| u.to_string()).map_err(|e| e.to_string())
}

/// `url::Url::parse_with_params`, read back as its serialization: the URL
/// with the pairs appended to its query, or `None` when the text is not an
/// absolute URL.
#[verifier::external_body]
pub(crate) fn url_with_params(url: &str, params: &Vec<(String, String)>) -> (res: Option<String>)
    ensures
        match res {
            Some(s) => spec_url_with_params(url@, params@.map_values(|p: (String, String)| (p.0@, p.1@))) == Some(s@),
            None => spec_url_with_params(url@, params@.map_values(|p: (String, String)| (p.0@, p.1@))) is None,
        },
{
    url::Url::parse_with_params(url, params.iter()).ok().map(|u| u.to_string())
}

/// The hash functions that a TOTP can be computed with.
#[derive(Clone, Copy, PartialEq, Eq, Structural, Debug)]
pub enum TotpAlgorithm {
    Sha1,
    Sha256,
    Sha512,
}

/// `totp_rs::TOTP::new` with the given algorithm, number of digits, skew
/// and step (in seconds), followed by `TOTP::check`: `None` when `new`
/// refuses the parameters (fewer than 6 or more than 8 digits, or a secret
/// shorter than 16 bytes), else whether the code is valid at `time`.
/// `TOTP::check` divides by the step, subtracts the skew from the step
/// count and multiplies the last step it tries, `(time / step + skew)`, by
/// the step again; `requires` keeps all three from failing.
#[verifier::external_body]
pub(crate) fn totp_check(
    algorithm: TotpAlgorithm,
    digits: usize,
    skew: u8,
    step: u64,
    secret: &Vec<u8>,
    code: &str,
    time: u64,
) -> (res: Option<bool>)
    requires
        step >= 1,
        time / step >= skew,
        (time / step + skew) * step <= u64::MAX,
    ensures
        !(6 <= digits <= 8) || secret@.len() < 16 ==> res is None,
        6 <= digits <= 8 && secret@.len() >= 16 ==> res == Some(
            spec_totp_valid(algorithm, digits, skew, step, secret@, code@, time),
        ),
{
    let alg = match algorithm {
        TotpAlgorithm::Sha1 => totp_rs::Algorithm::SHA1,
        TotpAlgorithm::Sha256 => totp_rs::Algorithm::SHA256,
        TotpAlgorithm::Sha512 => totp_rs::Algorithm::SHA512,
    };
    let t = totp_rs::TOTP::new(alg, digits, skew, step, secret.clone()).ok()?;
    Some(t.check(code, time))
}

/// `nanoid::format` with its default random source: `size` characters, each
/// drawn at random from `alphabet`. It panics on an alphabet longer than 255
/// and never returns on an empty one or for a size of 0; the size it counts
/// is in bytes, so the alphabet is ASCII here.
#[verifier::external_body]
pub(crate) fn random_code(size: usize, alphabet: &Vec<char>) -> (res: String)
    requires
        1 <= alphabet@.len() <= 255,
        size >= 1,
        forall|i: int| 0 <= i < alphabet@.len() ==> (alphabet@[i] as u32) < 128,
    ensures
        res@.len() == size,
        forall|i: int| 0 <= i < res@.len() ==> alphabet@.contains(#[trigger] res@[i]),
{
    nanoid::format(nanoid::rngs::default, alphabet.as_slice(), size)
}

/// `rand::RngCore::fill_bytes` on the thread's generator (`rand::rng`):
/// `n` random bytes. Nothing is said of their values.
#[verifier::external_body]
pub(crate) fn random_bytes(n: usize) -> (res: Vec<u8>)
    ensures
        res@.len() == n,
{
    let mut v = vec![0u8; n];
    rand::rng().fill_bytes(&mut v);
    v
}

/// `httpdate::fmt_http_date` of the Unix epoch plus a number of
/// nanoseconds. It panics only from the year 9999 on, which no `u64` count
/// of nanoseconds reaches.
#[verifier::external_body]
pub(crate) fn http_date(nanos_since_epoch: u64) -> (res: String)
    ensures
        res@ == spec_http_date(nanos_since_epoch),
{
    httpdate::fmt_http_date(std::time::UNIX_EPOCH + std::time::Duration::from_nanos(nanos_since_epoch))
}

/// `uuid::Uuid::get_timestamp` followed by `Timestamp::to_unix`. Its source
/// reads the version from the top four bits of the seventh byte; for
/// version 7 the time is the top 48 bits, in milliseconds; versions other
/// than 1, 6 and 7 have none.
#[verifier::external_body]
pub(crate) fn uuid_unix_time(value: u128) -> (res: Option<(u64, u32)>)
    ensures
        res == spec_uuid_unix_time(value),
        (value >> 76u128) % 16 == 7 ==> res == Some(
            (
                ((value >> 80u128) / 1000) as u64,
                (((value >> 80u128) % 1000) * 1_000_000) as u32,
            ),
        ),
        (value >> 76u128) % 16 != 1 && (value >> 76u128) % 16 != 6 && (value >> 76u128) % 16 != 7
            ==> res is None,
{
    uuid::Uuid::from_u128(value).get_timestamp().map(|t| t.to_unix())
}

/// `headers::Authorization::<Basic>::decode` of one header value, read back
/// as its user name and password: `None` when the value is not a `Basic`
/// header (or not a valid header value at all).
#[verifier::external_body]
pub(crate) fn basic_auth(value: &[u8]) -> (res: Option<(String, String)>)
    ensures
        match res {
            Some(p) => spec_basic_auth(value@) == Some((p.0@, p.1@)),
            None => spec_basic_auth(value@) is None,
        },
{
    let v = http::HeaderValue::from_bytes(value).ok()?;
    let a = headers::Authorization::<headers::authorization::Basic>::decode(&mut std::iter::once(&v)).ok()?;
    Some((a.username().to_string(), a.password().to_string()))
}

/// Whether `time::OffsetDateTime::from_unix_timestamp` accepts a timestamp:
/// its whole behaviour is the range check `spec_unix_timestamp_valid`.
pub(crate) fn unix_timestamp_valid(secs: i64) -> (res: bool)
    ensures
        res == spec_unix_timestamp_valid(secs),
{
    -377705116800 <= secs && secs <= 253402300799
}

/// `minijinja::Environment::render_str` on a fresh environment, with a
/// context that binds each variable name to its text: the rendered text, or
/// the error's message.
#[verifier::external_body]
pub(crate) fn render_template(template: &str, vars: &Vec<(String, String)>) -> (res: Result<String, String>)
    ensures
        match res {
            Ok(r) => spec_render(template@, vars@.map_values(|p: (String, String)| (p.0@, p.1@))) == Ok::<Seq<char>, Seq<char>>(r@),
            Err(e) => spec_render(template@, vars@.map_values(|p: (String, String)| (p.0@, p.1@))) == Err::<Seq<char>, Seq<char>>(e@),
        },
{
    let ctx: minijinja::Value = vars.iter().map(|p| (p.0.as_str(), p.1.as_str())).collect();
    minijinja::Environment::new().render_str(template, ctx).map_err(|e| e.to_string())
}

/// `serde_json::to_string` of a text: its JSON string literal. Its
/// documentation says serialization fails only where a `Serialize` impl
/// fails or a map has non-string keys, neither of which a `str` has.
#[verifier::external_body]
pub(crate) fn json_string(text: &str) -> (res: String)
    ensures
        res@ == spec_json_string(text@),
{
    serde_json::to_string(text).unwrap_or_default()
}

/// `url::Url::join` on `base` read as a URL (`url::Url::parse`), read back as
/// its serialization, or the parse error's message.
#[verifier::external_body]
pub(crate) fn url_join(base: &str, input: &str) -> (res: Result<String, String>)
    ensures
        match res {
            Ok(r) => spec_url_join(base@, input@) == Ok::<Seq<char>, Seq<char>>(r@),
            Err(e) => spec_url_join(base@, input@) == Err::<Seq<char>, Seq<char>>(e@),
        },
{
    url::Url::parse(base).and_then(|u| u.join(input)).map(|u| u.to_string()).map_err(|e| e.to_string())
}

} // verus!
