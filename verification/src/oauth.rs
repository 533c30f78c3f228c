use vstd::prelude::*;
use vstd::string::*;
use vstd::utf8::encode_utf8;

use crate::codec::{
    base64_url_nopad, basic_auth, ct_eq_bytes, parse_url, parse_uuid, sha256, spec_base64_url_nopad, spec_basic_auth,
    spec_parse_url, spec_parse_uuid, spec_sha256, spec_url_with_params, spec_uuid_text,
    spec_uuid_unix_time, url_with_params, uuid_text, uuid_unix_time, random_u128,
};
use crate::error::{Error, ErrorCode, Rejection};
use crate::idtoken::{
    claims_json, sign_id_token, signs_input, spec_claims_json, spec_jwt_signing_input, spec_parse_jwk,
    OidcClaims, SignFault,
};
use crate::text::{
    chars_of, join_strings, join_with, split_chars, split_on, str_eq, string_of, views,
};

verus! {

/// How long an access token lives, in seconds.
pub const TOKEN_LIFETIME_SECS: u64 = 3600;

/// Credentials sent with HTTP basic authentication.
pub struct BasicCredentials {
    pub username: String,
    pub password: String,
}

pub open spec fn spec_client_id(
    client_id: Option<u128>,
    has_basic: bool,
    parsed_username: Option<u128>,
) -> Result<u128, Rejection> {
    match client_id {
        Some(id) => Ok(id),
        None => if has_basic {
            match parsed_username {
                Some(id) => Ok(id),
                None => Err(Rejection::Api(ErrorCode::InvalidClientId)),
            }
        } else {
            Err(Rejection::Server(Error::InvalidCredentials))
        },
    }
}

/// The client id of a token request: the one in the request body, else the
/// basic-authentication user name read as a UUID (`parsed_username`),
/// else the request is refused.
pub fn client_id_from(client_id: Option<u128>, has_basic: bool, parsed_username: Option<u128>) -> (res:
    Result<u128, Rejection>)
    ensures
        res == spec_client_id(client_id, has_basic, parsed_username),
{
    match client_id {
        Some(id) => Ok(id),
        None => if has_basic {
            match parsed_username {
                Some(id) => Ok(id),
                None => Err(Rejection::Api(ErrorCode::InvalidClientId)),
            }
        } else {
            Err(Rejection::Server(Error::InvalidCredentials))
        },
    }
}

pub open spec fn spec_client_credentials(
    client_id: Option<u128>,
    client_secret: Option<Seq<char>>,
    basic: Option<(Seq<char>, Seq<char>)>,
) -> Result<(u128, Seq<char>), Rejection> {
    let parsed = match basic {
        Some(b) => spec_parse_uuid(b.0),
        None => None,
    };
    match spec_client_id(client_id, basic is Some, parsed) {
        Err(e) => Err(e),
        Ok(id) => match client_secret {
            Some(s) => Ok((id, s)),
            None => match basic {
                Some(b) => Ok((id, b.1)),
                None => Err(Rejection::Server(Error::InvalidCredentials)),
            },
        },
    }
}

pub open spec fn basic_view(basic: Option<BasicCredentials>) -> Option<(Seq<char>, Seq<char>)> {
    match basic {
        Some(b) => Some((b.username@, b.password@)),
        None => None,
    }
}

pub open spec fn secret_view(s: Option<String>) -> Option<Seq<char>> {
    match s {
        Some(x) => Some(x@),
        None => None,
    }
}

/// Whether a result carries the given client id and secret, or the given
/// refusal.
pub open spec fn credentials_match(
    res: Result<(u128, String), Rejection>,
    spec: Result<(u128, Seq<char>), Rejection>,
) -> bool {
    match spec {
        Ok((id, s)) => res matches Ok(r) && r.0 == id && r.1@ == s,
        Err(e) => res == Err::<(u128, String), Rejection>(e),
    }
}

/// The client id and secret of a token request, from its body or from
/// basic authentication; the secret comes from the body first, else the
/// basic-authentication password.
pub fn client_credentials(
    client_id: Option<u128>,
    client_secret: Option<String>,
    basic: Option<BasicCredentials>,
) -> (res: Result<(u128, String), Rejection>)
    ensures
        credentials_match(
            res,
            spec_client_credentials(client_id, secret_view(client_secret), basic_view(basic)),
        ),
{
    let parsed = match &basic {
        Some(b) => parse_uuid(b.username.as_str()),
        None => None,
    };
    let id = match client_id_from(client_id, basic.is_some(), parsed) {
        Ok(id) => id,
        Err(e) => return Err(e),
    };
    match client_secret {
        Some(s) => Ok((id, s)),
        None => match basic {
            Some(b) => Ok((id, b.password)),
            None => Err(Rejection::Server(Error::InvalidCredentials)),
        },
    }
}

/// The client id and secret of a token request whose `Authorization`
/// header (its raw value, if the request has one) may carry them as basic
/// credentials.
pub fn token_credentials(
    client_id: Option<u128>,
    client_secret: Option<String>,
    authorization: Option<&[u8]>,
) -> (res: Result<(u128, String), Rejection>)
    ensures
        credentials_match(
            res,
            spec_client_credentials(
                client_id,
                secret_view(client_secret),
                match authorization {
                    Some(v) => spec_basic_auth(v@),
                    None => None,
                },
            ),
        ),
{
    let basic = match authorization {
        Some(v) => match basic_auth(v) {
            Some((username, password)) => Some(BasicCredentials { username, password }),
            None => None,
        },
        None => None,
    };
    client_credentials(client_id, client_secret, basic)
}

/// A confidential application must present its stored secret; the two are
/// compared in constant time, byte for byte. A confidential application
/// without a stored secret is a server fault.
pub fn client_secret_gate(confidential: bool, stored: Option<&String>, given: &String) -> (res:
    Result<(), Error>)
    ensures
        !confidential ==> res is Ok,
        confidential && stored is None ==> (res matches Err(Error::Internal(m)) && m@
            == "confidential app missing secret"@),
        confidential && stored is Some ==> (res is Ok <==> encode_utf8(given@) == encode_utf8(
            stored.unwrap()@,
        )),
        confidential && stored is Some && res is Err ==> res == Err::<(), Error>(
            Error::InvalidCredentials,
        ),
{
    if !confidential {
        return Ok(());
    }
    match stored {
        None => Err(Error::Internal(String::from_str("confidential app missing secret"))),
        Some(stored) => {
            if ct_eq_bytes(given.as_str().as_bytes(), stored.as_str().as_bytes()) {
                Ok(())
            } else {
                Err(Error::InvalidCredentials)
            }
        },
    }
}

/// The grants that the token endpoint serves.
#[derive(Clone, Copy, PartialEq, Eq, Structural, Debug)]
pub enum GrantType {
    AuthorizationCode,
    RefreshToken,
}

/// Reads a grant type: `authorization_code` or `refresh_token`; any other is
/// unsupported.
pub fn grant_type(s: &str) -> (res: Result<GrantType, Rejection>)
    ensures
        s@ == "authorization_code"@ ==> res == Ok::<GrantType, Rejection>(
            GrantType::AuthorizationCode,
        ),
        s@ == "refresh_token"@ ==> res == Ok::<GrantType, Rejection>(GrantType::RefreshToken),
        s@ != "authorization_code"@ && s@ != "refresh_token"@ ==> res == Err::<
            GrantType,
            Rejection,
        >(Rejection::Api(ErrorCode::UnsupportedGrantType)),
{
    proof {
        reveal_strlit("authorization_code");
        reveal_strlit("refresh_token");
        assert("authorization_code"@.len() != "refresh_token"@.len());
    }
    if str_eq(s, "authorization_code") {
        Ok(GrantType::AuthorizationCode)
    } else if str_eq(s, "refresh_token") {
        Ok(GrantType::RefreshToken)
    } else {
        Err(Rejection::Api(ErrorCode::UnsupportedGrantType))
    }
}

/// The S256 transform of a PKCE code verifier: the unpadded URL-safe base64
/// text of the SHA-256 digest of its UTF-8 bytes.
pub open spec fn spec_s256(verifier: Seq<char>) -> Seq<char> {
    spec_base64_url_nopad(spec_sha256(encode_utf8(verifier)))
}

/// The S256 transform of a PKCE code verifier.
pub fn s256(verifier: &str) -> (res: String)
    ensures
        res@ == spec_s256(verifier@),
{
    let digest = sha256(verifier.as_bytes());
    base64_url_nopad(digest.as_slice())
}

pub open spec fn spec_pkce_outcome(
    challenge: Seq<char>,
    method: Option<Seq<char>>,
    verifier: Seq<char>,
    derived: Seq<char>,
) -> Result<(), Rejection> {
    let m = match method {
        Some(m) => m,
        None => "plain"@,
    };
    if m == "S256"@ {
        if derived == challenge {
            Ok(())
        } else {
            Err(Rejection::Server(Error::InvalidCredentials))
        }
    } else if m == "plain"@ {
        if verifier == challenge {
            Ok(())
        } else {
            Err(Rejection::Server(Error::InvalidCredentials))
        }
    } else {
        Err(Rejection::Api(ErrorCode::UnsupportedCodeChallengeMethod))
    }
}

/// Checks a PKCE code verifier against the stored challenge, given the
/// verifier's S256 transform (`derived`): the method is `plain` when none
/// was stored; `S256` compares the transform, `plain` the verifier itself;
/// any other method is unsupported.
pub fn pkce_outcome(challenge: &str, method: Option<&str>, verifier: &str, derived: &str) -> (res:
    Result<(), Rejection>)
    ensures
        res == spec_pkce_outcome(
            challenge@,
            match method {
                Some(m) => Some(m@),
                None => None,
            },
            verifier@,
            derived@,
        ),
        (method is None || (method matches Some(m) && m@ == "plain"@)) ==> (res is Ok
            <==> verifier@ == challenge@),
        (method matches Some(m) && m@ == "S256"@) ==> (res is Ok <==> derived@ == challenge@),
{
    proof {
        reveal_strlit("plain");
        reveal_strlit("S256");
        assert("plain"@.len() == 5 && "S256"@.len() == 4);
        assert("plain"@ != "S256"@);
    }
    let m = match method {
        Some(m) => m,
        None => "plain",
    };
    if str_eq(m, "S256") {
        if str_eq(derived, challenge) {
            Ok(())
        } else {
            Err(Rejection::Server(Error::InvalidCredentials))
        }
    } else if str_eq(m, "plain") {
        if str_eq(verifier, challenge) {
            Ok(())
        } else {
            Err(Rejection::Server(Error::InvalidCredentials))
        }
    } else {
        Err(Rejection::Api(ErrorCode::UnsupportedCodeChallengeMethod))
    }
}

/// How a stored PKCE method is applied: `plain`, whether stored or implied
/// by storing none, accepts exactly a verifier equal to the challenge
/// (any other is bad credentials); `S256` accepts exactly a verifier whose
/// transform equals the challenge; every other method is unsupported,
/// whatever the verifier.
pub proof fn law_pkce_methods(challenge: Seq<char>, method: Seq<char>, verifier: Seq<char>, derived: Seq<char>)
    ensures
        spec_pkce_outcome(challenge, Some("plain"@), verifier, derived) == spec_pkce_outcome(
            challenge,
            None,
            verifier,
            derived,
        ),
        spec_pkce_outcome(challenge, None, verifier, derived) is Ok <==> verifier == challenge,
        spec_pkce_outcome(challenge, None, verifier, derived) is Err ==> spec_pkce_outcome(
            challenge,
            None,
            verifier,
            derived,
        ) == Err::<(), Rejection>(Rejection::Server(Error::InvalidCredentials)),
        spec_pkce_outcome(challenge, Some("S256"@), verifier, derived) is Ok <==> derived
            == challenge,
        method != "plain"@ && method != "S256"@ ==> spec_pkce_outcome(
            challenge,
            Some(method),
            verifier,
            derived,
        ) == Err::<(), Rejection>(Rejection::Api(ErrorCode::UnsupportedCodeChallengeMethod)),
{
    reveal_strlit("plain");
    reveal_strlit("S256");
    assert("plain"@.len() == 5 && "S256"@.len() == 4);
    assert("plain"@ != "S256"@);
}

/// Where a token request's client credentials come from: the id in the
/// body wins over the basic-authentication user name (which must then read
/// as a UUID), and the secret in the body wins over the basic password;
/// without any id, or without any secret, the request is refused.
pub proof fn law_client_credentials(
    client_id: Option<u128>,
    client_secret: Option<Seq<char>>,
    basic: Option<(Seq<char>, Seq<char>)>,
)
    ensures
        ({
            let r = spec_client_credentials(client_id, client_secret, basic);
            &&& client_id is Some && client_secret is Some ==> r == Ok::<(u128, Seq<char>), Rejection>(
                (client_id.unwrap(), client_secret.unwrap()),
            )
            &&& client_id is Some && client_secret is None && basic is Some ==> r == Ok::<
                (u128, Seq<char>),
                Rejection,
            >((client_id.unwrap(), basic.unwrap().1))
            &&& client_id is None && basic is None ==> r is Err
            &&& client_secret is None && basic is None ==> r is Err
            &&& client_id is None && basic is Some && spec_parse_uuid(basic.unwrap().0) is None ==> r
                == Err::<(u128, Seq<char>), Rejection>(Rejection::Api(ErrorCode::InvalidClientId))
            &&& r is Ok ==> (client_id is Some ==> r.unwrap().0 == client_id.unwrap()) && (client_id is None
                ==> basic is Some && spec_parse_uuid(basic.unwrap().0) == Some(r.unwrap().0)) && (
            client_secret is Some ==> r.unwrap().1 == client_secret.unwrap()) && (client_secret is None
                ==> basic is Some && r.unwrap().1 == basic.unwrap().1)
        }),
{
}

/// An authorization-code exchange needs both the code and the redirect URI;
/// the code is asked for first.
pub proof fn law_code_exchange_needs(code: bool, redirect_uri: Option<Seq<char>>)
    ensures
        spec_code_exchange_gate(code, redirect_uri) is Ok <==> code && redirect_uri is Some,
        !code ==> spec_code_exchange_gate(code, redirect_uri) == Err::<(), Rejection>(
            Rejection::Api(ErrorCode::MissingCode),
        ),
{
}

/// A user authorizes only an application that is public or their own, and
/// only with the `code` response type.
pub proof fn law_authorize_who(owner: bool, public: bool, response_type: Seq<char>)
    ensures
        spec_authorize_gate(owner, public, response_type) is Ok <==> (owner || public)
            && response_type == "code"@,
{
}

pub open spec fn opt_str_view(o: Option<&str>) -> Option<Seq<char>> {
    match o {
        Some(s) => Some(s@),
        None => None,
    }
}

/// Checks the PKCE verifier of an authorization-code exchange: nothing to
/// check without a stored challenge; a missing verifier is refused;
/// otherwise the verifier must match the challenge by the stored method.
pub fn pkce_check(challenge: Option<&str>, method: Option<&str>, verifier: Option<&str>) -> (res:
    Result<(), Rejection>)
    ensures
        challenge is None ==> res is Ok,
        challenge is Some && verifier is None ==> res == Err::<(), Rejection>(
            Rejection::Api(ErrorCode::MissingCodeVerifier),
        ),
        challenge is Some && verifier is Some ==> res == spec_pkce_outcome(
            challenge.unwrap()@,
            opt_str_view(method),
            verifier.unwrap()@,
            spec_s256(verifier.unwrap()@),
        ),
        (challenge matches Some(c) && verifier matches Some(v) && (method is None || (
        method matches Some(m) && m@ == "plain"@))) ==> (res is Ok <==> verifier.unwrap()@
            == challenge.unwrap()@),
{
    let challenge = match challenge {
        None => return Ok(()),
        Some(c) => c,
    };
    let verifier = match verifier {
        None => return Err(Rejection::Api(ErrorCode::MissingCodeVerifier)),
        Some(v) => v,
    };
    let derived = s256(verifier);
    pkce_outcome(challenge, method, verifier, derived.as_str())
}

pub open spec fn spec_code_exchange_gate(
    code: bool,
    redirect_uri: Option<Seq<char>>,
) -> Result<(), Rejection> {
    if !code {
        Err(Rejection::Api(ErrorCode::MissingCode))
    } else if redirect_uri is None {
        Err(Rejection::Api(ErrorCode::MissingRedirectUri))
    } else {
        Ok(())
    }
}

/// An authorization-code exchange needs a code and a redirect URI.
pub fn code_exchange_gate(code: Option<&str>, redirect_uri: Option<&str>) -> (res: Result<
    (),
    Rejection,
>)
    ensures
        res == spec_code_exchange_gate(code is Some, opt_str_view(redirect_uri)),
{
    if code.is_none() {
        return Err(Rejection::Api(ErrorCode::MissingCode));
    }
    if redirect_uri.is_none() {
        return Err(Rejection::Api(ErrorCode::MissingRedirectUri));
    }
    Ok(())
}

/// The redirect URI of a code exchange must be the one the code was issued for.
pub fn redirect_matches(given: &str, stored: &str) -> (res: Result<(), Error>)
    ensures
        res is Ok <==> given@ == stored@,
        res is Err ==> res == Err::<(), Error>(Error::InvalidCredentials),
{
    if str_eq(given, stored) {
        Ok(())
    } else {
        Err(Error::InvalidCredentials)
    }
}

/// A refresh token is only honoured for the application its session was
/// issued to, and only for a session that belongs to a user.
pub fn refresh_gate(session_app: Option<u128>, app_id: u128, session_user: Option<u128>) -> (res:
    Result<u128, Error>)
    ensures
        session_app != Some(app_id) ==> res == Err::<u128, Error>(Error::InvalidCredentials),
        session_app == Some(app_id) && session_user is Some ==> res == Ok::<u128, Error>(
            session_user.unwrap(),
        ),
        session_app == Some(app_id) && session_user is None ==> (res matches Err(
            Error::Internal(m),
        ) && m@ == "session has no user"@),
{
    if session_app != Some(app_id) {
        return Err(Error::InvalidCredentials);
    }
    match session_user {
        Some(u) => Ok(u),
        None => Err(Error::Internal(String::from_str("session has no user"))),
    }
}

/// Introspection only answers for sessions that an application holds.
pub fn introspect_gate(session_app: Option<u128>) -> (res: Result<u128, Rejection>)
    ensures
        session_app is Some ==> res == Ok::<u128, Rejection>(session_app.unwrap()),
        session_app is None ==> res == Err::<u128, Rejection>(
            Rejection::Api(ErrorCode::NotAnOauthToken),
        ),
{
    match session_app {
        Some(a) => Ok(a),
        None => Err(Rejection::Api(ErrorCode::NotAnOauthToken)),
    }
}

pub open spec fn spec_authorize_gate(
    app_owner_is_auth: bool,
    app_public: bool,
    response_type: Seq<char>,
) -> Result<(), Rejection> {
    if !app_owner_is_auth && !app_public {
        Err(Rejection::Api(ErrorCode::UnknownApplication))
    } else if response_type != "code"@ {
        Err(Rejection::Api(ErrorCode::UnknownResponseType))
    } else {
        Ok(())
    }
}

/// A user may only authorize a public application or one they own, and only
/// with the `code` response type.
pub fn authorize_gate(app_owner_is_auth: bool, app_public: bool, response_type: &str) -> (res:
    Result<(), Rejection>)
    ensures
        res == spec_authorize_gate(app_owner_is_auth, app_public, response_type@),
{
    if !app_owner_is_auth && !app_public {
        return Err(Rejection::Api(ErrorCode::UnknownApplication));
    }
    if !str_eq(response_type, "code") {
        return Err(Rejection::Api(ErrorCode::UnknownResponseType));
    }
    Ok(())
}

fn contains_string(list: &Vec<String>, s: &str) -> (res: bool)
    ensures
        res == views(list@).contains(s@),
{
    let mut i: usize = 0;
    while i < list.len()
        invariant
            i <= list.len(),
            forall|j: int| 0 <= j < i ==> views(list@)[j] != s@,
        decreases list.len() - i,
    {
        if str_eq(list[i].as_str(), s) {
            assert(views(list@)[i as int] == s@);
            return true;
        }
        i = i + 1;
    }
    false
}

/// The redirect URI of an authorization: the requested one, which must be
/// among those registered; else the first registered one, parsed as a URL.
/// Where the first registered URI does not parse, the parse error is returned.
pub fn choose_redirect(requested: Option<&str>, registered: &Vec<String>) -> (res: Result<
    String,
    Rejection,
>)
    ensures
        match requested {
            Some(u) => if views(registered@).contains(u@) {
                res matches Ok(s) && s@ == u@
            } else {
                res == Err::<String, Rejection>(Rejection::Api(ErrorCode::BadRedirectUri))
            },
            None => if registered@.len() == 0 {
                res == Err::<String, Rejection>(Rejection::Api(ErrorCode::NoRedirectUriConfigured))
            } else {
                match spec_parse_url(registered@[0]@) {
                    Ok(s) => res matches Ok(r) && r@ == s,
                    Err(m) => res matches Err(Rejection::Server(Error::UrlParseError(e))) && e@
                        == m,
                }
            },
        },
{
    match requested {
        Some(u) => {
            if contains_string(registered, u) {
                Ok(String::from_str(u))
            } else {
                Err(Rejection::Api(ErrorCode::BadRedirectUri))
            }
        },
        None => {
            if registered.len() == 0 {
                return Err(Rejection::Api(ErrorCode::NoRedirectUriConfigured));
            }
            match parse_url(registered[0].as_str()) {
                Ok(s) => Ok(s),
                Err(m) => Err(Rejection::Server(Error::UrlParseError(m))),
            }
        },
    }
}

fn contains_chars(list: &Vec<Vec<char>>, s: &Vec<char>) -> (res: bool)
    ensures
        res == list@.map_values(|v: Vec<char>| v@).contains(s@),
{
    let ghost vs = list@.map_values(|v: Vec<char>| v@);
    let mut i: usize = 0;
    while i < list.len()
        invariant
            i <= list.len(),
            vs == list@.map_values(|v: Vec<char>| v@),
            forall|j: int| 0 <= j < i ==> vs[j] != s@,
        decreases list.len() - i,
    {
        if crate::text::chars_eq(&list[i], s) {
            assert(vs[i as int] == s@);
            return true;
        }
        i = i + 1;
    }
    false
}

/// Reads the space-separated scopes of an authorization request. Each piece
/// (empty pieces included, as `str::split` gives them) must be a known scope
/// name; the result holds each requested scope once.
pub fn parse_scopes(scope: &str, known: &Vec<String>) -> (res: Result<Vec<String>, Rejection>)
    ensures
        (forall|i: int|
            0 <= i < split_on(scope@, ' ').len() ==> views(known@).contains(
                #[trigger] split_on(scope@, ' ')[i],
            )) ==> (res matches Ok(v) && views(v@).no_duplicates() && forall|x: Seq<char>|
            views(v@).contains(x) <==> split_on(scope@, ' ').contains(x)),
        !(forall|i: int|
            0 <= i < split_on(scope@, ' ').len() ==> views(known@).contains(
                #[trigger] split_on(scope@, ' ')[i],
            )) ==> res == Err::<Vec<String>, Rejection>(Rejection::Api(ErrorCode::InvalidScope)),
{
    let chars = chars_of(scope);
    let pieces = split_chars(&chars, ' ');
    let ghost sp = split_on(scope@, ' ');
    let mut out: Vec<String> = Vec::new();
    let mut seen: Vec<Vec<char>> = Vec::new();
    let mut i: usize = 0;
    while i < pieces.len()
        invariant
            i <= pieces.len(),
            sp == split_on(scope@, ' '),
            pieces@.len() == sp.len(),
            forall|k: int| 0 <= k < pieces@.len() ==> #[trigger] pieces@[k]@ == sp[k],
            forall|k: int| 0 <= k < i ==> views(known@).contains(#[trigger] sp[k]),
            views(out@) == seen@.map_values(|v: Vec<char>| v@),
            views(out@).no_duplicates(),
            forall|x: Seq<char>| views(out@).contains(x) <==> sp.take(i as int).contains(x),
        decreases pieces.len() - i,
    {
        let piece = string_of(&pieces[i]);
        if !contains_string(known, piece.as_str()) {
            proof {
                assert(piece@ == sp[i as int]);
                assert(!views(known@).contains(sp[i as int]));
                assert(!(forall|k: int|
                    0 <= k < split_on(scope@, ' ').len() ==> views(known@).contains(
                        #[trigger] split_on(scope@, ' ')[k],
                    )));
            }
            return Err(Rejection::Api(ErrorCode::InvalidScope));
        }
        let ghost prev_out = views(out@);
        let ghost t0 = sp.take(i as int);
        let ghost t1 = sp.take(i + 1);
        proof {
            assert(t1 =~= t0.push(sp[i as int]));
            assert forall|y: Seq<char>| t1.contains(y) <==> t0.contains(y) || y == sp[i as int] by {
                if t1.contains(y) {
                    let k = choose|k: int| 0 <= k < t1.len() && #[trigger] t1[k] == y;
                    if k < t0.len() {
                        assert(t0[k] == y);
                    }
                }
                if t0.contains(y) {
                    let k = choose|k: int| 0 <= k < t0.len() && #[trigger] t0[k] == y;
                    assert(t1[k] == y);
                }
                if y == sp[i as int] {
                    assert(t1[t0.len() as int] == y);
                }
            }
        }
        let fresh = !contains_chars(&seen, &pieces[i]);
        if !fresh {
            proof {
                assert(views(out@).contains(sp[i as int]));
                assert forall|y: Seq<char>| views(out@).contains(y) <==> t1.contains(y) by {
                    if y == sp[i as int] {
                        assert(t0.contains(y));
                    }
                }
            }
        }
        if fresh {
            let c = pieces[i].clone();
            proof {
                assert(c@ == pieces@[i as int]@);
            }
            seen.push(c);
            out.push(piece);
            proof {
                assert(piece@ == sp[i as int]);
                assert(views(out@) =~= prev_out.push(sp[i as int]));
                assert(seen@.map_values(|v: Vec<char>| v@) =~= prev_out.push(sp[i as int]));
                assert forall|y: Seq<char>| views(out@).contains(y) <==> prev_out.contains(y)
                    || y == sp[i as int] by {
                    if views(out@).contains(y) {
                        let k = choose|k: int| 0 <= k < views(out@).len() && #[trigger] views(
                            out@,
                        )[k] == y;
                        if k < prev_out.len() {
                            assert(prev_out[k] == y);
                        }
                    }
                    if prev_out.contains(y) {
                        let k = choose|k: int| 0 <= k < prev_out.len() && #[trigger] prev_out[k]
                            == y;
                        assert(views(out@)[k] == y);
                    }
                    if y == sp[i as int] {
                        assert(views(out@)[prev_out.len() as int] == y);
                    }
                }
                assert forall|y: Seq<char>| views(out@).contains(y) <==> t1.contains(y) by {
                    assert(prev_out.contains(y) <==> t0.contains(y));
                }
            }
        }
        i = i + 1;
    }
    proof {
        assert(sp.take(sp.len() as int) =~= sp);
    }
    Ok(out)
}

/// The redirect URI an authorization uses, when one can be chosen: the
/// requested one if the application registered it; without a request, the
/// first registered one read as a URL.
pub open spec fn spec_redirect(requested: Option<Seq<char>>, registered: Seq<Seq<char>>) -> Option<
    Seq<char>,
> {
    match requested {
        Some(u) => if registered.contains(u) {
            Some(u)
        } else {
            None
        },
        None => if registered.len() == 0 {
            None
        } else {
            match spec_parse_url(registered[0]) {
                Ok(s) => Some(s),
                Err(_) => None,
            }
        },
    }
}

/// Whether every space-separated piece of a scope text is a known scope.
pub open spec fn scopes_known(scope: Seq<char>, known: Seq<Seq<char>>) -> bool {
    forall|i: int|
        0 <= i < split_on(scope, ' ').len() ==> known.contains(#[trigger] split_on(scope, ' ')[i])
}

/// The checks of an authorization request, in the server's order: the
/// application and response type (`authorize_gate`), then the redirect URI
/// (`choose_redirect`), then the scopes (`parse_scopes`). The first that
/// fails answers; when all pass, the redirect URI and the requested scopes
/// (each once) are returned.
pub fn validate_authorize(
    app_owner_is_auth: bool,
    app_public: bool,
    response_type: &str,
    requested: Option<&str>,
    registered: &Vec<String>,
    scope: &str,
    known: &Vec<String>,
) -> (res: Result<(String, Vec<String>), Rejection>)
    ensures
        ({
            let gate = spec_authorize_gate(app_owner_is_auth, app_public, response_type@);
            let req = match requested {
                Some(u) => Some(u@),
                None => None,
            };
            let chosen = spec_redirect(req, views(registered@));
            &&& gate is Err ==> res is Err && res->Err_0 == gate->Err_0
            &&& gate is Ok && requested is Some && chosen is None ==> res == Err::<
                (String, Vec<String>),
                Rejection,
            >(Rejection::Api(ErrorCode::BadRedirectUri))
            &&& gate is Ok && requested is None && registered@.len() == 0 ==> res == Err::<
                (String, Vec<String>),
                Rejection,
            >(Rejection::Api(ErrorCode::NoRedirectUriConfigured))
            &&& gate is Ok && requested is None && registered@.len() > 0 ==> (spec_parse_url(
                registered@[0]@,
            ) matches Err(m) ==> (res matches Err(Rejection::Server(Error::UrlParseError(e)))
                && e@ == m))
            &&& gate is Ok && chosen is Some && !scopes_known(scope@, views(known@)) ==> res
                == Err::<(String, Vec<String>), Rejection>(Rejection::Api(ErrorCode::InvalidScope))
            &&& gate is Ok && chosen is Some && scopes_known(scope@, views(known@)) ==> (res matches Ok(
                (r, v),
            ) && r@ == chosen.unwrap() && views(v@).no_duplicates() && forall|x: Seq<char>|
                views(v@).contains(x) <==> split_on(scope@, ' ').contains(x))
        }),
{
    authorize_gate(app_owner_is_auth, app_public, response_type)?;
    let redirect = match choose_redirect(requested, registered) {
        Ok(r) => r,
        Err(e) => {
            proof {
                if requested is Some {
                    assert(!views(registered@).contains(requested.unwrap()@));
                }
            }
            return Err(e);
        },
    };
    let scopes = parse_scopes(scope, known)?;
    Ok((redirect, scopes))
}

/// Whether a user's existing grant to an application already covers the
/// requested scopes.
pub fn scopes_cover(granted: &Vec<String>, requested: &Vec<String>) -> (res: bool)
    ensures
        res == (forall|i: int|
            0 <= i < requested@.len() ==> views(granted@).contains(#[trigger] views(requested@)[i])),
{
    let mut i: usize = 0;
    while i < requested.len()
        invariant
            i <= requested.len(),
            forall|j: int|
                0 <= j < i ==> views(granted@).contains(#[trigger] views(requested@)[j]),
        decreases requested.len() - i,
    {
        if !contains_string(granted, requested[i].as_str()) {
            assert(views(requested@)[i as int] == requested@[i as int]@);
            return false;
        }
        i = i + 1;
    }
    true
}

/// Whether a grant includes the `openid` scope, so that an ID token is issued.
pub fn has_openid(scopes: &Vec<String>) -> (res: bool)
    ensures
        res == views(scopes@).contains("openid"@),
{
    contains_string(scopes, "openid")
}

/// The scope text of a token response: the scope names, separated by spaces.
pub fn scope_text(scopes: &Vec<String>) -> (res: String)
    ensures
        res@ == join_with(views(scopes@), " "@),
{
    join_strings(scopes, " ")
}

/// What the token endpoint answers with.
pub struct TokenResponse {
    pub access_token: String,
    pub token_type: String,
    /// Seconds until the access token expires.
    pub expires_in: u64,
    pub refresh_token: Option<String>,
    /// The granted scopes, separated by spaces.
    pub scope: String,
    pub id_token: Option<String>,
}

/// The token endpoint's answer: a bearer access token living for
/// `TOKEN_LIFETIME_SECS`, the refresh token, the granted scopes as text, and
/// the ID token when one was signed.
pub fn token_response(
    access_token: String,
    refresh_token: String,
    scopes: &Vec<String>,
    id_token: Option<String>,
) -> (res: TokenResponse)
    ensures
        res.access_token == access_token,
        res.token_type@ == "Bearer"@,
        res.expires_in == TOKEN_LIFETIME_SECS,
        res.refresh_token == Some(refresh_token),
        res.scope@ == join_with(views(scopes@), " "@),
        res.id_token == id_token,
{
    TokenResponse {
        access_token,
        token_type: String::from_str("Bearer"),
        expires_in: TOKEN_LIFETIME_SECS,
        refresh_token: Some(refresh_token),
        scope: scope_text(scopes),
        id_token,
    }
}

/// Issues the tokens of a grant: a fresh random access token and refresh
/// token (UUID texts, which the caller stores), and, exactly when the
/// grant includes `openid`, an ID token of the claims (written as JSON text
/// by `claims_json`) signed with the server's JSON web key. A signing fault
/// is returned as it is.
pub fn issue_tokens(scopes: &Vec<String>, jwk_json: &str, claims: &OidcClaims) -> (res: Result<
    TokenResponse,
    SignFault,
>)
    ensures
        !views(scopes@).contains("openid"@) ==> res is Ok,
        res matches Ok(r) ==> {
            &&& (exists|a: u128| #[trigger] spec_uuid_text(a) == r.access_token@)
            &&& (exists|b: u128| r.refresh_token matches Some(t) && #[trigger] spec_uuid_text(b) == t@)
            &&& r.token_type@ == "Bearer"@
            &&& r.expires_in == TOKEN_LIFETIME_SECS
            &&& r.scope@ == join_with(views(scopes@), " "@)
            &&& (r.id_token is Some <==> views(scopes@).contains("openid"@))
            &&& (r.id_token matches Some(t) ==> spec_parse_jwk(jwk_json@) matches Ok((alg, kid, _))
                && signs_input(
                t@,
                spec_jwt_signing_input(alg.unwrap(), kid, spec_claims_json(*claims)),
            ))
        },
        res is Err ==> views(scopes@).contains("openid"@),
{
    let access = uuid_text(random_u128());
    let refresh = uuid_text(random_u128());
    let id_token = if has_openid(scopes) {
        let text = claims_json(claims);
        match sign_id_token(jwk_json, text.as_str()) {
            Ok(t) => Some(t),
            Err(f) => return Err(f),
        }
    } else {
        None
    };
    let r = token_response(access, refresh, scopes, id_token);
    Ok(r)
}

/// The redirect of a successful authorization: the redirect URI with the
/// code, then the state (when the client sent one), appended to its query.
pub fn authorize_redirect(redirect_uri: &str, code: &str, state: Option<&str>) -> (res: Option<
    String,
>)
    ensures
        ({
            let params = match state {
                Some(s) => seq![("code"@, code@), ("state"@, s@)],
                None => seq![("code"@, code@)],
            };
            match res {
                Some(r) => spec_url_with_params(redirect_uri@, params) == Some(r@),
                None => spec_url_with_params(redirect_uri@, params) is None,
            }
        }),
{
    let mut params: Vec<(String, String)> = Vec::new();
    params.push((String::from_str("code"), String::from_str(code)));
    if let Some(s) = state {
        params.push((String::from_str("state"), String::from_str(s)));
    }
    proof {
        let pv = params@.map_values(|p: (String, String)| (p.0@, p.1@));
        match state {
            Some(s) => {
                assert(pv =~= seq![("code"@, code@), ("state"@, s@)]);
            },
            None => {
                assert(pv =~= seq![("code"@, code@)]);
            },
        }
    }
    url_with_params(redirect_uri, &params)
}

/// The identity providers that a user can log in with.
#[derive(Clone, Copy, PartialEq, Eq, Structural, Debug)]
pub enum OauthProvider {
    Discord,
    Github,
}

pub open spec fn spec_oauth_redirect_gate_with(
    configured: bool,
    parsed_state: Option<u128>,
    provider: Seq<char>,
) -> Result<(OauthProvider, u128), Rejection> {
    if !configured {
        Err(Rejection::Server(Error::Unimplemented))
    } else if parsed_state is None {
        Err(Rejection::Api(ErrorCode::InvalidData))
    } else if provider == "discord"@ {
        Ok((OauthProvider::Discord, parsed_state.unwrap()))
    } else if provider == "github"@ {
        Ok((OauthProvider::Github, parsed_state.unwrap()))
    } else {
        Err(Rejection::Server(Error::Unimplemented))
    }
}

/// Where a provider redirects back after a login: the provider must be
/// configured, the state must be a UUID (`parsed_state` is the state read
/// as one), and only Discord and GitHub are served.
pub fn oauth_redirect_gate_with(configured: bool, parsed_state: Option<u128>, provider: &str) -> (res:
    Result<(OauthProvider, u128), Rejection>)
    ensures
        res == spec_oauth_redirect_gate_with(configured, parsed_state, provider@),
{
    if !configured {
        return Err(Rejection::Server(Error::Unimplemented));
    }
    let state = match parsed_state {
        Some(s) => s,
        None => return Err(Rejection::Api(ErrorCode::InvalidData)),
    };
    if str_eq(provider, "discord") {
        Ok((OauthProvider::Discord, state))
    } else if str_eq(provider, "github") {
        Ok((OauthProvider::Github, state))
    } else {
        Err(Rejection::Server(Error::Unimplemented))
    }
}

/// A provider's redirect is served only for a configured provider that is
/// Discord or GitHub and a state that reads as a UUID, and it carries that
/// state through.
pub proof fn law_provider_redirects(configured: bool, parsed_state: Option<u128>, provider: Seq<char>)
    ensures
        spec_oauth_redirect_gate_with(configured, parsed_state, provider) is Ok <==> configured
            && parsed_state is Some && (provider == "discord"@ || provider == "github"@),
        spec_oauth_redirect_gate_with(configured, parsed_state, provider) is Ok ==> spec_oauth_redirect_gate_with(
            configured,
            parsed_state,
            provider,
        ).unwrap().1 == parsed_state.unwrap(),
        (configured && parsed_state is Some && provider == "github"@) ==> spec_oauth_redirect_gate_with(
            configured,
            parsed_state,
            provider,
        ).unwrap().0 == OauthProvider::Github,
{
    reveal_strlit("discord");
    reveal_strlit("github");
    assert("discord"@.len() != "github"@.len());
}

/// The checks on a provider's redirect, reading the state as a UUID.
pub fn oauth_redirect_gate(configured: bool, state: &str, provider: &str) -> (res: Result<
    (OauthProvider, u128),
    Rejection,
>)
    ensures
        res == spec_oauth_redirect_gate_with(configured, spec_parse_uuid(state@), provider@),
{
    let parsed = if configured {
        parse_uuid(state)
    } else {
        None
    };
    proof {
        if !configured {
            assert(spec_oauth_redirect_gate_with(configured, parsed, provider@)
                == spec_oauth_redirect_gate_with(configured, spec_parse_uuid(state@), provider@));
        }
    }
    oauth_redirect_gate_with(configured, parsed, provider)
}


/// An email address of a user.
pub struct UserEmail {
    pub email: String,
    pub is_primary: bool,
    pub is_verified: bool,
}

/// What the OpenID Connect userinfo endpoint answers.
pub struct Userinfo {
    /// The issuer: the server's API URL.
    pub iss: String,
    /// The user, as a UUID.
    pub sub: String,
    pub email: Option<String>,
    pub email_verified: bool,
    pub name: String,
    /// The URL of the user's page.
    pub profile: String,
    /// When the user last changed (seconds since the epoch): the time in
    /// their version id.
    pub updated_at: u64,
    /// The URL of the user's avatar, when they have one and it makes a URL.
    pub picture: Option<String>,
}

/// Whether the `k`th email is the first primary one.
pub open spec fn is_first_primary(emails: Seq<UserEmail>, k: int) -> bool {
    0 <= k < emails.len() && emails[k].is_primary && forall|j: int|
        0 <= j < k ==> !emails[j].is_primary
}

/// The index of the first primary email.
pub fn find_primary(emails: &Vec<UserEmail>) -> (res: Option<usize>)
    ensures
        match res {
            Some(k) => is_first_primary(emails@, k as int),
            None => forall|j: int| 0 <= j < emails@.len() ==> !emails@[j].is_primary,
        },
{
    let mut i: usize = 0;
    while i < emails.len()
        invariant
            i <= emails.len(),
            forall|j: int| 0 <= j < i ==> !emails@[j].is_primary,
        decreases emails.len() - i,
    {
        if emails[i].is_primary {
            return Some(i);
        }
        i = i + 1;
    }
    None
}

/// The URL of a user's page: the web client's URL, `user/`, and the user's UUID.
pub open spec fn spec_profile_url(html_url: Seq<char>, user_id: u128) -> Seq<char> {
    html_url + "user/"@ + spec_uuid_text(user_id)
}

/// The address of a piece of media on the CDN, before it is read as a URL.
pub open spec fn spec_media_address(cdn_url: Seq<char>, media_id: u128) -> Seq<char> {
    cdn_url + "media/"@ + spec_uuid_text(media_id)
}

/// What the userinfo answer holds, field by field.
pub open spec fn is_userinfo(
    res: Userinfo,
    api_url: Seq<char>,
    html_url: Seq<char>,
    cdn_url: Seq<char>,
    user_id: u128,
    name: Seq<char>,
    version_id: u128,
    avatar: Option<u128>,
    email_scope: bool,
    emails: Seq<UserEmail>,
) -> bool {
    &&& res.iss@ == api_url
    &&& res.sub@ == spec_uuid_text(user_id)
    &&& res.name@ == name
    &&& res.profile@ == spec_profile_url(html_url, user_id)
    &&& res.updated_at == spec_uuid_unix_time(version_id).unwrap().0
    &&& email_scope ==> forall|k: int|
        #[trigger] is_first_primary(emails, k) ==> (res.email matches Some(e) && e@
            == emails[k].email@) && res.email_verified == emails[k].is_verified
    &&& !email_scope || (forall|j: int| 0 <= j < emails.len() ==> !emails[j].is_primary)
        ==> res.email is None && !res.email_verified
    &&& match avatar {
        Some(a) => match spec_parse_url(spec_media_address(cdn_url, a)) {
            Ok(u) => res.picture matches Some(p) && p@ == u,
            Err(_) => res.picture is None,
        },
        None => res.picture is None,
    }
}

/// The answer of the userinfo endpoint for a user whose version id holds a
/// time. The primary email (the first one, if several are) is given only
/// with the `email` scope; the avatar is given as a CDN URL when it reads
/// as one.
pub fn userinfo(
    api_url: &str,
    html_url: &str,
    cdn_url: &str,
    user_id: u128,
    name: &str,
    version_id: u128,
    avatar: Option<u128>,
    email_scope: bool,
    emails: &Vec<UserEmail>,
) -> (res: Userinfo)
    requires
        spec_uuid_unix_time(version_id) is Some,
    ensures
        is_userinfo(
            res,
            api_url@,
            html_url@,
            cdn_url@,
            user_id,
            name@,
            version_id,
            avatar,
            email_scope,
            emails@,
        ),
{
    let (email, email_verified) = if email_scope {
        match find_primary(emails) {
            Some(k) => {
                proof {
                    assert forall|j: int| #[trigger] is_first_primary(emails@, j) implies j
                        == k as int by {
                        if j < k as int {
                            assert(!emails@[j].is_primary);
                        } else if j > k as int {
                            assert(!emails@[k as int].is_primary);
                        }
                    }
                }
                (Some(emails[k].email.clone()), emails[k].is_verified)
            },
            None => (None, false),
        }
    } else {
        (None, false)
    };
    let mut profile = String::from_str(html_url);
    profile.append("user/");
    let uid = uuid_text(user_id);
    profile.append(uid.as_str());
    let picture = match avatar {
        Some(a) => {
            let mut address = String::from_str(cdn_url);
            address.append("media/");
            let mid = uuid_text(a);
            address.append(mid.as_str());
            match parse_url(address.as_str()) {
                Ok(u) => Some(u),
                Err(_) => None,
            }
        },
        None => None,
    };
    let time = uuid_unix_time(version_id);
    let updated_at = match time {
        Some(t) => t.0,
        None => 0,
    };
    Userinfo {
        iss: String::from_str(api_url),
        sub: uid,
        email,
        email_verified,
        name: String::from_str(name),
        profile,
        updated_at,
        picture,
    }
}

/// The userinfo answer where the user's version id holds a time, `None`
/// where it holds none.
pub fn userinfo_checked(
    api_url: &str,
    html_url: &str,
    cdn_url: &str,
    user_id: u128,
    name: &str,
    version_id: u128,
    avatar: Option<u128>,
    email_scope: bool,
    emails: &Vec<UserEmail>,
) -> (res: Option<Userinfo>)
    ensures
        res is Some <==> spec_uuid_unix_time(version_id) is Some,
        res matches Some(info) ==> is_userinfo(
            info,
            api_url@,
            html_url@,
            cdn_url@,
            user_id,
            name@,
            version_id,
            avatar,
            email_scope,
            emails@,
        ),
{
    if uuid_unix_time(version_id).is_none() {
        return None;
    }
    Some(
        userinfo(
            api_url,
            html_url,
            cdn_url,
            user_id,
            name,
            version_id,
            avatar,
            email_scope,
            emails,
        ),
    )
}

/// What a login through a provider does with the user account.
#[derive(Clone, Copy, PartialEq, Eq, Structural, Debug)]
pub enum LoginAccount {
    /// A known user, left as they are.
    Existing,
    /// A known guest, now registered.
    RegisterExisting,
    /// A new registered user.
    CreateRegistered,
    /// A new guest.
    CreateGuest,
}

/// Decides what a login through a provider does: a known user is registered
/// when the provider registers automatically and they are still a guest; an
/// unknown remote account gets a new user, registered only when the
/// provider registers automatically. `known` holds whether the known user
/// is registered.
pub fn login_account(autoregister: bool, known: Option<bool>) -> (res: LoginAccount)
    ensures
        known == Some(false) && autoregister ==> res == LoginAccount::RegisterExisting,
        known is Some && !(known == Some(false) && autoregister) ==> res == LoginAccount::Existing,
        known is None && autoregister ==> res == LoginAccount::CreateRegistered,
        known is None && !autoregister ==> res == LoginAccount::CreateGuest,
{
    match known {
        Some(registered) => if autoregister && !registered {
            LoginAccount::RegisterExisting
        } else {
            LoginAccount::Existing
        },
        None => if autoregister {
            LoginAccount::CreateRegistered
        } else {
            LoginAccount::CreateGuest
        },
    }
}

/// Whether the user is registered once a login has done `account`
/// (`known` as for `login_account`).
pub open spec fn registered_after(account: LoginAccount, known: Option<bool>) -> bool {
    match account {
        LoginAccount::Existing => known == Some(true),
        LoginAccount::RegisterExisting => true,
        LoginAccount::CreateRegistered => true,
        LoginAccount::CreateGuest => false,
    }
}

/// After a login through a provider that registers automatically, the user
/// is registered, whether they were known or not; through any other
/// provider a login never changes whether a user is registered.
pub proof fn law_login_registration(autoregister: bool, known: Option<bool>, account: LoginAccount)
    requires
        account == (if known == Some(false) && autoregister {
            LoginAccount::RegisterExisting
        } else if known is Some {
            LoginAccount::Existing
        } else if autoregister {
            LoginAccount::CreateRegistered
        } else {
            LoginAccount::CreateGuest
        }),
    ensures
        autoregister ==> registered_after(account, known),
        !autoregister ==> registered_after(account, known) == (known == Some(true)),
{
    match known {
        Some(r) => {
            if autoregister && !r {
                assert(account == LoginAccount::RegisterExisting);
            } else {
                assert(account == LoginAccount::Existing);
            }
        },
        None => {},
    }
}

/// The name of a user created from a remote account: the display name
/// (Discord's global name, GitHub's name) when there is one, else the
/// account's login name.
pub fn remote_user_name(display: Option<String>, login: String) -> (res: String)
    ensures
        display is Some ==> res@ == display.unwrap()@,
        display is None ==> res@ == login@,
{
    match display {
        Some(d) => d,
        None => login,
    }
}

} // verus!
