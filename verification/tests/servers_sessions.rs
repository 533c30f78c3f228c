use lamprey_backend::channel::{tag_channel_gate, tag_delete_allowed};
use lamprey_backend::error::{Error, ErrorCode, Rejection};
use lamprey_backend::federation::{
    connect_target, internal_auth_gate, keys_target, ping_target, PingTarget, ServerReq,
};
use lamprey_backend::media::{media_search_scope, MediaSearchScope};
use lamprey_backend::room::template_owner_gate;
use lamprey_backend::session::{
    delete_all_user, delete_precheck, interaction_token_gate, resolve_session, session_access,
    SessionIdReq,
};

fn name(n: &str) -> ServerReq {
    ServerReq::ServerName(n.to_string())
}

#[test]
fn server_keys_are_served_for_this_server_only() {
    assert!(keys_target(&ServerReq::ServerHost, "a.example").is_ok());
    assert!(keys_target(&name("a.example"), "a.example").is_ok());
    assert!(matches!(keys_target(&name("b.example"), "a.example"), Err(Error::Unimplemented)));
    assert!(matches!(keys_target(&ServerReq::ServerClient, "a.example"), Err(Error::Unimplemented)));
}

#[test]
fn connecting_servers_name_this_server() {
    assert!(connect_target(&ServerReq::ServerHost, "a.example").is_ok());
    match connect_target(&name("b.example"), "a.example") {
        Err(Error::BadRequest(m)) => assert_eq!(m, "wrong target hostname"),
        _ => panic!(),
    }
    match connect_target(&ServerReq::ServerClient, "a.example") {
        Err(Error::BadRequest(m)) => assert_eq!(m, "invalid target hostname"),
        _ => panic!(),
    }
}

#[test]
fn ping_targets() {
    assert!(matches!(ping_target(&ServerReq::ServerHost, "a.example", None), Ok(PingTarget::Local)));
    match ping_target(&name("b.example"), "a.example", None) {
        Ok(PingTarget::Remote(r)) => assert_eq!(r, "b.example"),
        _ => panic!(),
    }
    match ping_target(&ServerReq::ServerClient, "a.example", Some("c.example")) {
        Ok(PingTarget::Remote(r)) => assert_eq!(r, "c.example"),
        _ => panic!(),
    }
    assert!(matches!(ping_target(&ServerReq::ServerClient, "a.example", Some("a.example")), Ok(PingTarget::Local)));
    match ping_target(&ServerReq::ServerClient, "a.example", None) {
        Err(Error::BadRequest(m)) => assert_eq!(m, "ServerClient requires federation auth"),
        _ => panic!(),
    }
}

#[test]
fn voice_server_authorization() {
    assert!(matches!(internal_auth_gate(None, Some("Server t")), Err(Error::Unimplemented)));
    assert!(matches!(internal_auth_gate(Some("t"), None), Err(Error::MissingAuth)));
    assert!(matches!(internal_auth_gate(Some("t"), Some("Server u")), Err(Error::MissingAuth)));
    assert!(matches!(internal_auth_gate(Some("t"), Some("server t")), Err(Error::MissingAuth)));
    assert!(internal_auth_gate(Some("t"), Some("Server t")).is_ok());
}

#[test]
fn session_rules() {
    assert_eq!(resolve_session(SessionIdReq::SessionSelf, 4), 4);
    assert_eq!(resolve_session(SessionIdReq::SessionId(5), 4), 5);
    assert!(session_access(true, None, None).is_ok());
    assert!(session_access(false, Some(1), Some(1)).is_ok());
    assert!(matches!(session_access(false, Some(1), Some(2)), Err(Rejection::Api(ErrorCode::UnknownSession))));
    assert!(matches!(session_access(false, None, None), Err(Rejection::Api(ErrorCode::UnknownSession))));
    assert!(matches!(delete_precheck(true, 1, 2), Err(Rejection::Api(ErrorCode::UnknownSession))));
    assert!(delete_precheck(true, 1, 1).is_ok());
    assert!(delete_precheck(false, 1, 2).is_ok());
    assert!(matches!(delete_all_user(Some(3)), Ok(3)));
    assert!(matches!(delete_all_user(None), Err(Error::UnauthSession)));
}

#[test]
fn interaction_tokens() {
    assert!(interaction_token_gate(&Some("tok".to_string()), "tok").is_ok());
    match interaction_token_gate(&Some("tok".to_string()), "other") {
        Err(Error::BadStatic(m)) => assert_eq!(m, "unknown or expired interaction"),
        _ => panic!(),
    }
    assert!(interaction_token_gate(&None, "tok").is_err());
}

#[test]
fn tags_and_templates() {
    assert!(tag_channel_gate(3, 3).is_ok());
    assert!(matches!(tag_channel_gate(3, 4), Err(Rejection::Api(ErrorCode::UnknownTag))));
    assert!(tag_delete_allowed(0, false));
    assert!(tag_delete_allowed(5, true));
    assert!(!tag_delete_allowed(5, false));
    assert!(template_owner_gate(1, 1).is_ok());
    assert!(matches!(template_owner_gate(1, 2), Err(Error::MissingPermissions)));
}

#[test]
fn media_search_scopes() {
    assert_eq!(media_search_scope(true, 7), MediaSearchScope::Everything);
    assert_eq!(media_search_scope(false, 7), MediaSearchScope::UploadedBy(7));
}
