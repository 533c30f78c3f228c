use lamprey_backend::error::{Error, ErrorCode, Rejection};
use lamprey_backend::oauth::{
    authorize_gate, authorize_redirect, choose_redirect, client_credentials, client_id_from,
    client_secret_gate, code_exchange_gate, grant_type, has_openid, introspect_gate,
    login_account, oauth_redirect_gate, parse_scopes, pkce_check, redirect_matches, refresh_gate,
    remote_user_name, s256, scope_text, scopes_cover, BasicCredentials, GrantType, LoginAccount,
    OauthProvider, userinfo_checked, validate_authorize, UserEmail,
};

fn strings(v: &[&str]) -> Vec<String> {
    v.iter().map(|s| s.to_string()).collect()
}

const UUID_TEXT: &str = "67e55044-10b1-426f-9247-bb680e5fe0c8";
const UUID_VALUE: u128 = 0x67e5504410b1426f9247bb680e5fe0c8;

// The expected value is the unpadded URL-safe base64 of the SHA-256 digest,
// as Python's hashlib and base64 modules compute it.
#[test]
fn s256_matches_an_independent_digest() {
    assert_eq!(
        s256("dBjftJeZ4CVP-mJ92K2Y1rQ8aR9wuXUrftrVGvvN3ao"),
        "9k4eurIe_pVPmVItivXpytDypmFt1PAsMUaXCzl3UdM"
    );
}

#[test]
fn pkce_s256_accepts_the_matching_verifier() {
    let res = pkce_check(
        Some("9k4eurIe_pVPmVItivXpytDypmFt1PAsMUaXCzl3UdM"),
        Some("S256"),
        Some("dBjftJeZ4CVP-mJ92K2Y1rQ8aR9wuXUrftrVGvvN3ao"),
    );
    assert!(res.is_ok());
}

#[test]
fn pkce_s256_refuses_another_verifier() {
    let res = pkce_check(
        Some("9k4eurIe_pVPmVItivXpytDypmFt1PAsMUaXCzl3UdM"),
        Some("S256"),
        Some("dBjftJeZ4CVP-mJ92K2Y1rQ8aR9wuXUrftrVGvvN3ab"),
    );
    assert!(matches!(res, Err(Rejection::Server(Error::InvalidCredentials))));
}

#[test]
fn pkce_plain_is_the_default_method() {
    assert!(pkce_check(Some("abc"), None, Some("abc")).is_ok());
    assert!(matches!(
        pkce_check(Some("abc"), None, Some("abd")),
        Err(Rejection::Server(Error::InvalidCredentials))
    ));
}

#[test]
fn pkce_edge_cases() {
    assert!(pkce_check(None, Some("S256"), None).is_ok());
    assert!(matches!(
        pkce_check(Some("abc"), Some("plain"), None),
        Err(Rejection::Api(ErrorCode::MissingCodeVerifier))
    ));
    assert!(matches!(
        pkce_check(Some("abc"), Some("S512"), Some("abc")),
        Err(Rejection::Api(ErrorCode::UnsupportedCodeChallengeMethod))
    ));
}

#[test]
fn grant_types() {
    assert!(matches!(grant_type("authorization_code"), Ok(GrantType::AuthorizationCode)));
    assert!(matches!(grant_type("refresh_token"), Ok(GrantType::RefreshToken)));
    assert!(matches!(
        grant_type("password"),
        Err(Rejection::Api(ErrorCode::UnsupportedGrantType))
    ));
}

#[test]
fn client_id_sources() {
    assert!(matches!(client_id_from(Some(7), true, Some(9)), Ok(7)));
    assert!(matches!(client_id_from(None, true, Some(9)), Ok(9)));
    assert!(matches!(
        client_id_from(None, true, None),
        Err(Rejection::Api(ErrorCode::InvalidClientId))
    ));
    assert!(matches!(
        client_id_from(None, false, None),
        Err(Rejection::Server(Error::InvalidCredentials))
    ));
}

#[test]
fn client_credentials_from_basic_auth() {
    let basic = BasicCredentials {
        username: UUID_TEXT.to_string(),
        password: "hunter2".to_string(),
    };
    let (id, secret) = client_credentials(None, None, Some(basic)).ok().unwrap();
    assert_eq!(id, UUID_VALUE);
    assert_eq!(secret, "hunter2");
}

#[test]
fn client_credentials_prefer_the_body() {
    let basic = BasicCredentials {
        username: "not a uuid".to_string(),
        password: "from-basic".to_string(),
    };
    let (id, secret) = client_credentials(Some(3), Some("from-body".to_string()), Some(basic))
        .ok()
        .unwrap();
    assert_eq!(id, 3);
    assert_eq!(secret, "from-body");
}

#[test]
fn client_credentials_with_a_bad_username() {
    let basic = BasicCredentials {
        username: "not a uuid".to_string(),
        password: "x".to_string(),
    };
    assert!(matches!(
        client_credentials(None, None, Some(basic)),
        Err(Rejection::Api(ErrorCode::InvalidClientId))
    ));
    assert!(matches!(
        client_credentials(Some(1), None, None),
        Err(Rejection::Server(Error::InvalidCredentials))
    ));
}

#[test]
fn client_secret_checks() {
    let stored = "s3cret".to_string();
    assert!(client_secret_gate(false, None, &"anything".to_string()).is_ok());
    assert!(client_secret_gate(true, Some(&stored), &"s3cret".to_string()).is_ok());
    assert!(matches!(
        client_secret_gate(true, Some(&stored), &"s3cret!".to_string()),
        Err(Error::InvalidCredentials)
    ));
    assert!(matches!(
        client_secret_gate(true, None, &"s3cret".to_string()),
        Err(Error::Internal(_))
    ));
}

#[test]
fn code_exchange_requires_code_and_redirect() {
    assert!(matches!(
        code_exchange_gate(None, Some("https://a")),
        Err(Rejection::Api(ErrorCode::MissingCode))
    ));
    assert!(matches!(
        code_exchange_gate(Some("c"), None),
        Err(Rejection::Api(ErrorCode::MissingRedirectUri))
    ));
    assert!(code_exchange_gate(Some("c"), Some("https://a")).is_ok());
}

#[test]
fn redirect_uri_must_match_exactly() {
    assert!(redirect_matches("https://a/cb", "https://a/cb").is_ok());
    assert!(matches!(
        redirect_matches("https://a/cb/", "https://a/cb"),
        Err(Error::InvalidCredentials)
    ));
}

#[test]
fn refresh_and_introspect() {
    assert!(matches!(refresh_gate(Some(5), 5, Some(8)), Ok(8)));
    assert!(matches!(refresh_gate(Some(4), 5, Some(8)), Err(Error::InvalidCredentials)));
    assert!(matches!(refresh_gate(None, 5, Some(8)), Err(Error::InvalidCredentials)));
    assert!(refresh_gate(Some(5), 5, None).is_err());
    assert!(matches!(introspect_gate(Some(2)), Ok(2)));
    assert!(introspect_gate(None).is_err());
}

#[test]
fn authorize_checks() {
    assert!(authorize_gate(true, false, "code").is_ok());
    assert!(authorize_gate(false, true, "code").is_ok());
    assert!(matches!(
        authorize_gate(false, false, "code"),
        Err(Rejection::Api(ErrorCode::UnknownApplication))
    ));
    assert!(matches!(
        authorize_gate(true, true, "token"),
        Err(Rejection::Api(ErrorCode::UnknownResponseType))
    ));
}

#[test]
fn redirect_choice() {
    let registered = strings(&["https://Example.com", "https://other.example/cb"]);
    assert_eq!(
        choose_redirect(Some("https://other.example/cb"), &registered).ok().unwrap(),
        "https://other.example/cb"
    );
    assert!(matches!(
        choose_redirect(Some("https://evil.example/cb"), &registered),
        Err(Rejection::Api(ErrorCode::BadRedirectUri))
    ));
    // The first registered URI is parsed, which normalizes it.
    assert_eq!(choose_redirect(None, &registered).ok().unwrap(), "https://example.com/");
    assert!(matches!(
        choose_redirect(None, &Vec::new()),
        Err(Rejection::Api(ErrorCode::NoRedirectUriConfigured))
    ));
    match choose_redirect(None, &strings(&["not a url"])) {
        Err(Rejection::Server(Error::UrlParseError(m))) => {
            assert_eq!(m, "relative URL without a base")
        }
        _ => panic!("expected a parse error"),
    }
}

#[test]
fn scopes_are_read_and_checked() {
    let known = strings(&["openid", "profile", "email"]);
    let got = parse_scopes("openid profile openid", &known).ok().unwrap();
    assert_eq!(got.len(), 2);
    assert!(got.contains(&"openid".to_string()));
    assert!(got.contains(&"profile".to_string()));
    assert!(has_openid(&got));
    assert!(matches!(
        parse_scopes("openid  profile", &known),
        Err(Rejection::Api(ErrorCode::InvalidScope))
    ));
    assert!(matches!(
        parse_scopes("admin", &known),
        Err(Rejection::Api(ErrorCode::InvalidScope))
    ));
}

#[test]
fn scope_coverage_and_text() {
    let granted = strings(&["openid", "profile"]);
    assert!(scopes_cover(&granted, &strings(&["profile"])));
    assert!(!scopes_cover(&granted, &strings(&["email"])));
    assert_eq!(scope_text(&granted), "openid profile");
    assert_eq!(scope_text(&Vec::new()), "");
    assert!(!has_openid(&strings(&["profile"])));
}

#[test]
fn authorization_redirect_carries_code_and_state() {
    assert_eq!(
        authorize_redirect("https://app.example/cb", "abc", Some("xyz")).unwrap(),
        "https://app.example/cb?code=abc&state=xyz"
    );
    assert_eq!(
        authorize_redirect("https://app.example/cb?x=1", "a b", None).unwrap(),
        "https://app.example/cb?x=1&code=a+b"
    );
    assert!(authorize_redirect("nope", "abc", None).is_none());
}

#[test]
fn provider_redirects() {
    assert!(matches!(
        oauth_redirect_gate(true, UUID_TEXT, "discord"),
        Ok((OauthProvider::Discord, UUID_VALUE))
    ));
    assert!(matches!(
        oauth_redirect_gate(true, UUID_TEXT, "github"),
        Ok((OauthProvider::Github, UUID_VALUE))
    ));
    assert!(matches!(
        oauth_redirect_gate(true, "bad-state", "github"),
        Err(Rejection::Api(ErrorCode::InvalidData))
    ));
    assert!(matches!(
        oauth_redirect_gate(true, UUID_TEXT, "gitlab"),
        Err(Rejection::Server(Error::Unimplemented))
    ));
    assert!(matches!(
        oauth_redirect_gate(false, UUID_TEXT, "discord"),
        Err(Rejection::Server(Error::Unimplemented))
    ));
}

#[test]
fn login_accounts() {
    assert_eq!(login_account(true, Some(false)), LoginAccount::RegisterExisting);
    assert_eq!(login_account(false, Some(false)), LoginAccount::Existing);
    assert_eq!(login_account(true, Some(true)), LoginAccount::Existing);
    assert_eq!(login_account(true, None), LoginAccount::CreateRegistered);
    assert_eq!(login_account(false, None), LoginAccount::CreateGuest);
}

#[test]
fn remote_names() {
    assert_eq!(remote_user_name(Some("Ada".to_string()), "ada99".to_string()), "Ada");
    assert_eq!(remote_user_name(None, "ada99".to_string()), "ada99");
}

fn mail(email: &str, is_primary: bool, is_verified: bool) -> UserEmail {
    UserEmail { email: email.to_string(), is_primary, is_verified }
}

#[test]
fn userinfo_answers() {
    let version: u128 = 0x01890a5d_ac96_774b_bcce_b302099a8057;
    let emails = vec![
        mail("old@example.com", false, true),
        mail("main@example.com", true, false),
        mail("other@example.com", true, true),
    ];
    let info = userinfo_checked(
        "https://api.example/",
        "https://chat.example/",
        "https://cdn.example/",
        5,
        "alice",
        version,
        Some(6),
        true,
        &emails,
    )
    .unwrap();
    assert_eq!(info.iss, "https://api.example/");
    assert_eq!(info.sub, "00000000-0000-0000-0000-000000000005");
    assert_eq!(info.name, "alice");
    assert_eq!(info.profile, "https://chat.example/user/00000000-0000-0000-0000-000000000005");
    assert_eq!(info.updated_at, 1688096058);
    assert_eq!(info.email.as_deref(), Some("main@example.com"));
    assert!(!info.email_verified);
    assert_eq!(
        info.picture.as_deref(),
        Some("https://cdn.example/media/00000000-0000-0000-0000-000000000006")
    );

    let info = userinfo_checked(
        "https://api.example/",
        "https://chat.example/",
        "not a url/",
        5,
        "alice",
        version,
        Some(6),
        false,
        &emails,
    )
    .unwrap();
    assert_eq!(info.email, None);
    assert!(!info.email_verified);
    assert_eq!(info.picture, None);

    assert!(userinfo_checked("a", "b", "c", 5, "alice", 5, None, true, &emails).is_none());
}

#[test]
fn authorization_checks_in_order() {
    let registered = strings(&["https://app.example/cb"]);
    let known = strings(&["identify", "openid"]);
    assert!(matches!(
        validate_authorize(false, false, "token", Some("https://bad/"), &registered, "nope", &known),
        Err(Rejection::Api(ErrorCode::UnknownApplication))
    ));
    assert!(matches!(
        validate_authorize(true, false, "token", Some("https://bad/"), &registered, "nope", &known),
        Err(Rejection::Api(ErrorCode::UnknownResponseType))
    ));
    assert!(matches!(
        validate_authorize(false, true, "code", Some("https://bad/"), &registered, "nope", &known),
        Err(Rejection::Api(ErrorCode::BadRedirectUri))
    ));
    assert!(matches!(
        validate_authorize(false, true, "code", None, &vec![], "nope", &known),
        Err(Rejection::Api(ErrorCode::NoRedirectUriConfigured))
    ));
    assert!(matches!(
        validate_authorize(false, true, "code", None, &registered, "nope", &known),
        Err(Rejection::Api(ErrorCode::InvalidScope))
    ));
    let (r, s) = validate_authorize(false, true, "code", None, &registered, "openid identify openid", &known).ok().unwrap();
    assert_eq!(r, "https://app.example/cb");
    assert_eq!(s, strings(&["openid", "identify"]));
}
