use lamprey_backend::error::{Error, ErrorCode, Rejection};
use lamprey_backend::frontend::{render_index, render_invite, webui_config};
use lamprey_backend::idtoken::{claims_json, id_token_claims, sign_error, sign_id_token, OidcClaims, SignFault};
use lamprey_backend::oauth::{issue_tokens, token_response};
use lamprey_backend::message::header_timestamp;
use lamprey_backend::oauth::token_credentials;
use lamprey_backend::room::{cache_headers, cache_headers_at, modified_nanos};

const V7: u128 = 0x018bcfe5680071238000000000abcdef;

#[test]
fn cache_headers_of_a_v7_version() {
    let (modified, etag) = cache_headers(V7).unwrap();
    assert_eq!(modified, "Tue, 14 Nov 2023 22:13:20 GMT");
    assert_eq!(etag, "W/\"018bcfe5-6800-7123-8000-000000abcdef\"");
}

#[test]
fn cache_headers_need_a_time() {
    // a version 4 UUID holds no time
    assert!(cache_headers(0x67e5504410b1426f9247bb680e5fe0c8).is_none());
    let (modified, _) = cache_headers_at(V7, 0, 0);
    assert_eq!(modified, "Thu, 01 Jan 1970 00:00:00 GMT");
    assert_eq!(modified_nanos(2, 5), 2_000_000_005);
    // too late for a count of nanoseconds: the epoch
    assert_eq!(modified_nanos(u64::MAX / 1_000_000_000 + 1, 0), 0);
}

#[test]
fn rendering_the_index_page() {
    let page = render_index("<p>{{ nonce }}</p><!-- VITE_JINJA_PLACEHOLDER:script -->", "abc", "{}").unwrap();
    assert_eq!(page, "<p>abc</p><script nonce=\"abc\">globalThis.ENV = {};</script>");
    assert!(render_index("<p>{{ nonce </p>", "abc", "{}").is_err());
}

#[test]
fn rendering_an_invite_page() {
    let template = "<head>\n<meta name=\"viewport\" content=\"w\">\n</head><!-- VITE_JINJA_PLACEHOLDER:script -->";
    let page = render_invite(template, "n", "1", "you have been invited to cats").unwrap();
    assert!(page.starts_with("<head>\n<meta name=\"viewport\" content=\"w\">\n<meta property=\"og:title\" content=\"you have been invited to cats\">\n"));
    assert!(page.ends_with("</head><script nonce=\"n\">globalThis.ENV = 1;</script>"));
}

#[test]
fn client_configuration() {
    let c = webui_config("https://api.example.com/", "https://example.com/", "https://cdn.example.com/").ok().unwrap();
    assert_eq!(c.sync_url, "https://api.example.com/api/v1/sync");
    assert_eq!(c.api_url, "https://api.example.com/");
    assert_eq!(c.cdn_url, "https://cdn.example.com/");
    let c = webui_config("https://api.example.com/base/", "h", "c").ok().unwrap();
    assert_eq!(c.sync_url, "https://api.example.com/api/v1/sync");
    assert_eq!(webui_config("nope", "h", "c").err().unwrap(), "relative URL without a base");
}

#[test]
fn token_credentials_from_the_authorization_header() {
    let header: &[u8] = b"Basic NjdlNTUwNDQtMTBiMS00MjZmLTkyNDctYmI2ODBlNWZlMGM4OnMzY3JldA==";
    let (id, secret) = token_credentials(None, None, Some(header)).ok().unwrap();
    assert_eq!(id, 0x67e5504410b1426f9247bb680e5fe0c8);
    assert_eq!(secret, "s3cret");
    assert!(matches!(
        token_credentials(None, None, Some(&b"Bearer abc"[..])),
        Err(Rejection::Server(Error::InvalidCredentials))
    ));
    // a user name that is not a client id
    assert!(matches!(
        token_credentials(None, None, Some(&b"Basic dXNlcjpwYXNz"[..])),
        Err(Rejection::Api(ErrorCode::InvalidClientId))
    ));
    let (id, secret) = token_credentials(Some(9), Some("body".to_string()), Some(header)).ok().unwrap();
    assert_eq!((id, secret.as_str()), (9, "body"));
}

#[test]
fn message_header_times() {
    assert_eq!(header_timestamp(Some(0)), Some(0));
    assert_eq!(header_timestamp(Some(1_700_000_000)), Some(1_700_000_000));
    assert_eq!(header_timestamp(Some(i64::MAX)), None);
    assert_eq!(header_timestamp(None), None);
    // the range is exactly the one `time` accepts
    for t in [253402300799i64, 253402300800, -377705116800, -377705116801] {
        assert_eq!(header_timestamp(Some(t)).is_some(), time::OffsetDateTime::from_unix_timestamp(t).is_ok());
    }
    assert!(header_timestamp(Some(253402300799)).is_some());
    assert!(header_timestamp(Some(-377705116801)).is_none());
}

#[test]
fn id_token_claims_follow_the_access_token() {
    let c = id_token_claims("https://api.example.com/", 0x67e5504410b1426f9247bb680e5fe0c8, 1, 1_000);
    assert_eq!(c.iss, "https://api.example.com/");
    assert_eq!(c.sub, "67e55044-10b1-426f-9247-bb680e5fe0c8");
    assert_eq!(c.aud, "00000000-0000-0000-0000-000000000001");
    assert_eq!((c.exp, c.iat), (4_600, 1_000));
    assert!(c.nonce.is_none());
    let past = id_token_claims("x", 1, 1, -5_000);
    assert_eq!(past.iat, (-5_000i64) as u64);
    assert_eq!(past.exp, (-1_400i64) as u64);
}

#[test]
fn signing_id_tokens() {
    assert!(matches!(sign_id_token("not json", "{}"), Err(SignFault::BadKey(_))));
    // a symmetric key has no PEM form
    assert!(matches!(sign_id_token("{\"kty\":\"oct\",\"k\":\"AAAA\"}", "{}"), Err(SignFault::NoPem(_))));
    let ec = "{\"kty\":\"EC\",\"crv\":\"P-256\",\"x\":\"MKBCTNIcKUSDii11ySs3526iDZ8AiTo7Tu6KPAqv7D4\",\"y\":\"4Etl6SRW2YiLUrN5vfvVHuhp7x8PxltmWWlbbM4IFyM\",\"d\":\"870MB6gfuTJ4HtUnUvYMyJpr5eUZNP4Bk43bVdj3eAE\",\"kid\":\"1\"";
    // no algorithm named
    let unnamed = format!("{ec}}}");
    assert!(matches!(sign_id_token(&unnamed, "{}"), Err(SignFault::UnsupportedAlgorithm)));
    let named = format!("{ec},\"alg\":\"ES256\"}}");
    let token = sign_id_token(&named, "{\"sub\":\"a\",\"exp\":1}").ok().unwrap();
    assert_eq!(token.split('.').count(), 3);
    // the header names ES256 and the key's id
    assert_eq!(token.split('.').next().unwrap(), "eyJ0eXAiOiJKV1QiLCJhbGciOiJFUzI1NiIsImtpZCI6IjEifQ");
    let token = sign_id_token(&named, "{\"sub\":\"a\"}").ok().unwrap();
    assert!(token.starts_with("eyJ0eXAiOiJKV1QiLCJhbGciOiJFUzI1NiIsImtpZCI6IjEifQ.eyJzdWIiOiJhIn0."));
}

#[test]
fn signing_faults_as_errors() {
    assert!(matches!(sign_error(SignFault::BadKey("x".to_string())), Error::Serde(m) if m == "x"));
    assert!(matches!(sign_error(SignFault::NoPem("y".to_string())), Error::Internal(m) if m == "y"));
    assert!(matches!(sign_error(SignFault::Signing("z".to_string())), Error::Internal(m) if m == "z"));
    assert!(matches!(sign_error(SignFault::UnsupportedAlgorithm), Error::Internal(m) if m == "unsupported signing alg"));
}

#[test]
fn token_responses() {
    let scopes = vec!["identify".to_string(), "openid".to_string()];
    let r = token_response("acc".to_string(), "ref".to_string(), &scopes, Some("idt".to_string()));
    assert_eq!(r.access_token, "acc");
    assert_eq!(r.token_type, "Bearer");
    assert_eq!(r.expires_in, 3600);
    assert_eq!(r.refresh_token.as_deref(), Some("ref"));
    assert_eq!(r.scope, "identify openid");
    assert_eq!(r.id_token.as_deref(), Some("idt"));

    let plain = vec!["identify".to_string()];
    let claims = OidcClaims {
        iss: "https://api.example/".to_string(),
        sub: "u".to_string(),
        aud: "c".to_string(),
        exp: 4600,
        iat: 1000,
        nonce: None,
    };
    let r = issue_tokens(&plain, "not json", &claims).ok().unwrap();
    assert!(r.id_token.is_none());
    assert_eq!(r.access_token.len(), 36);
    assert_ne!(r.refresh_token.as_deref(), Some(r.access_token.as_str()));
    assert!(matches!(issue_tokens(&scopes, "not json", &claims), Err(SignFault::BadKey(_))));
    let key = "{\"kty\":\"EC\",\"crv\":\"P-256\",\"x\":\"MKBCTNIcKUSDii11ySs3526iDZ8AiTo7Tu6KPAqv7D4\",\"y\":\"4Etl6SRW2YiLUrN5vfvVHuhp7x8PxltmWWlbbM4IFyM\",\"d\":\"870MB6gfuTJ4HtUnUvYMyJpr5eUZNP4Bk43bVdj3eAE\",\"kid\":\"1\",\"alg\":\"ES256\"}";
    let r = issue_tokens(&scopes, key, &claims).ok().unwrap();
    // the claims keep their declared order
    assert!(r.id_token.unwrap().starts_with("eyJ0eXAiOiJKV1QiLCJhbGciOiJFUzI1NiIsImtpZCI6IjEifQ.eyJpc3MiOiJodHRwczovL2FwaS5leGFtcGxlLyIsInN1YiI6InUiLCJhdWQiOiJjIiwiZXhwIjo0NjAwLCJpYXQiOjEwMDAsIm5vbmNlIjpudWxsfQ."));
    assert_eq!(r.scope, "identify openid");
}

#[test]
fn claims_as_json() {
    let mut c = id_token_claims("https://api.example.com/\"q", 5, 6, 1_000);
    assert_eq!(
        claims_json(&c),
        "{\"iss\":\"https://api.example.com/\\\"q\",\"sub\":\"00000000-0000-0000-0000-000000000005\",\"aud\":\"00000000-0000-0000-0000-000000000006\",\"exp\":4600,\"iat\":1000,\"nonce\":null}"
    );
    c.nonce = Some("n\n".to_string());
    assert!(claims_json(&c).ends_with(",\"nonce\":\"n\\n\"}"));
}
