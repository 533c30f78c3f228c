use vstd::prelude::*;
use vstd::string::*;

use crate::error::{Error, ErrorCode, Rejection};
use crate::text::{opt_view, str_eq};

verus! {

/// A session named in a request: the caller's own, or a given one.
#[derive(Clone, Copy, PartialEq, Eq, Structural, Debug)]
pub enum SessionIdReq {
    SessionSelf,
    SessionId(u128),
}

/// The session a request names.
pub fn resolve_session(req: SessionIdReq, own_session_id: u128) -> (res: u128)
    ensures
        req == SessionIdReq::SessionSelf ==> res == own_session_id,
        req matches SessionIdReq::SessionId(id) ==> res == id,
{
    match req {
        SessionIdReq::SessionSelf => own_session_id,
        SessionIdReq::SessionId(id) => id,
    }
}

pub open spec fn spec_session_access(
    can_see: bool,
    auth_user_id: Option<u128>,
    target_bot_owner: Option<u128>,
) -> bool {
    can_see || (auth_user_id is Some && target_bot_owner == auth_user_id)
}

/// Whether a user may change or end a session: one they can see (their
/// own), or one of a bot whose application they own (`target_bot_owner` is
/// the owner of the application whose bot the session belongs to, if it
/// does). Any other session is unknown.
pub fn session_access(can_see: bool, auth_user_id: Option<u128>, target_bot_owner: Option<u128>) -> (res:
    Result<(), Rejection>)
    ensures
        spec_session_access(can_see, auth_user_id, target_bot_owner) ==> res is Ok,
        !spec_session_access(can_see, auth_user_id, target_bot_owner) ==> res matches Err(
            Rejection::Api(ErrorCode::UnknownSession),
        ),
{
    if can_see {
        return Ok(());
    }
    match (auth_user_id, target_bot_owner) {
        (Some(a), Some(o)) => {
            if a == o {
                Ok(())
            } else {
                Err(Rejection::Api(ErrorCode::UnknownSession))
            }
        },
        _ => Err(Rejection::Api(ErrorCode::UnknownSession)),
    }
}

/// A session that has not logged in may only end itself.
pub fn delete_precheck(own_unauthorized: bool, own_session_id: u128, target_session_id: u128) -> (res:
    Result<(), Rejection>)
    ensures
        own_unauthorized && own_session_id != target_session_id ==> res matches Err(
            Rejection::Api(ErrorCode::UnknownSession),
        ),
        !(own_unauthorized && own_session_id != target_session_id) ==> res is Ok,
{
    if own_unauthorized && own_session_id != target_session_id {
        Err(Rejection::Api(ErrorCode::UnknownSession))
    } else {
        Ok(())
    }
}

/// Ending every session of a user needs a logged-in session.
pub fn delete_all_user(session_user_id: Option<u128>) -> (res: Result<u128, Error>)
    ensures
        session_user_id matches Some(u) ==> res == Ok::<u128, Error>(u),
        session_user_id is None ==> res matches Err(Error::UnauthSession),
{
    match session_user_id {
        Some(u) => Ok(u),
        None => Err(Error::UnauthSession),
    }
}

/// An interaction is reached only with its token; an interaction without
/// one, or asked with another, is unknown or expired.
pub fn interaction_token_gate(stored: &Option<String>, given: &str) -> (res: Result<(), Error>)
    ensures
        opt_view(*stored) == Some(given@) ==> res is Ok,
        opt_view(*stored) != Some(given@) ==> (res matches Err(Error::BadStatic(m)) && m@
            == "unknown or expired interaction"@),
{
    match stored {
        Some(t) => {
            if str_eq(t.as_str(), given) {
                Ok(())
            } else {
                Err(Error::BadStatic(String::from_str("unknown or expired interaction")))
            }
        },
        None => Err(Error::BadStatic(String::from_str("unknown or expired interaction"))),
    }
}

} // verus!
