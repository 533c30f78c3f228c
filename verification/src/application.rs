use vstd::prelude::*;

use crate::error::{Error, ErrorCode, Rejection};

verus! {

/// An application named in a request: the caller's own (a bot acting as
/// itself), or a given one.
#[derive(Clone, Copy, PartialEq, Eq, Structural, Debug)]
pub enum ApplicationIdReq {
    AppSelf,
    ApplicationId(u128),
}

/// The application a request names; an application's id is its bot user's id.
pub fn resolve_app(req: ApplicationIdReq, auth_id: u128) -> (res: u128)
    ensures
        req == ApplicationIdReq::AppSelf ==> res == auth_id,
        req matches ApplicationIdReq::ApplicationId(id) ==> res == id,
{
    match req {
        ApplicationIdReq::AppSelf => auth_id,
        ApplicationIdReq::ApplicationId(id) => id,
    }
}

/// A bridge must say which platform it bridges: `has_bridge` is whether the
/// request sets a bridge, `has_platform_name` whether that bridge names
/// its platform.
pub fn bridge_gate(has_bridge: bool, has_platform_name: bool) -> (res: Result<(), Rejection>)
    ensures
        has_bridge && !has_platform_name ==> res matches Err(
            Rejection::Api(ErrorCode::PlatformNameRequiredForBridge),
        ),
        !(has_bridge && !has_platform_name) ==> res is Ok,
{
    if has_bridge && !has_platform_name {
        Err(Rejection::Api(ErrorCode::PlatformNameRequiredForBridge))
    } else {
        Ok(())
    }
}

/// Who sees an application: its owner, the application itself, and
/// everyone when it is public; to anyone else it is unknown.
pub fn visible_gate(app_id: u128, owner_id: u128, public: bool, auth_id: u128) -> (res: Result<
    (),
    Rejection,
>)
    ensures
        res is Ok <==> (owner_id == auth_id || public || app_id == auth_id),
        res is Err ==> res matches Err(Rejection::Api(ErrorCode::UnknownApplication)),
{
    if owner_id == auth_id || public || app_id == auth_id {
        Ok(())
    } else {
        Err(Rejection::Api(ErrorCode::UnknownApplication))
    }
}

/// Who controls an application (edits it, rotates its secret, opens a
/// session for it): its owner and the application itself.
pub fn control_gate(app_id: u128, owner_id: u128, auth_id: u128) -> (res: Result<(), Error>)
    ensures
        res is Ok <==> (owner_id == auth_id || app_id == auth_id),
        res is Err ==> res matches Err(Error::MissingPermissions),
{
    if owner_id != auth_id && app_id != auth_id {
        Err(Error::MissingPermissions)
    } else {
        Ok(())
    }
}

/// An application is deleted only by its owner; anyone else's request is
/// answered the same way but deletes nothing.
pub fn deletes(owner_id: u128, auth_id: u128) -> (res: bool)
    ensures
        res == (owner_id == auth_id),
{
    owner_id == auth_id
}

pub open spec fn spec_invite_bot_gate(
    public: bool,
    owner_id: u128,
    auth_id: u128,
    may_manage_integrations: bool,
    bot_banned: bool,
) -> Result<(), Rejection> {
    if !public && owner_id != auth_id {
        Err(Rejection::Server(Error::MissingPermissions))
    } else if !may_manage_integrations {
        Err(Rejection::Server(Error::MissingPermissions))
    } else if bot_banned {
        Err(Rejection::Api(ErrorCode::YouAreBanned))
    } else {
        Ok(())
    }
}

/// Adding an application's bot to a room: a private application only by
/// its owner; the user needs to manage the room's integrations; a bot
/// banned from the room cannot be added.
pub fn invite_bot_gate(
    public: bool,
    owner_id: u128,
    auth_id: u128,
    may_manage_integrations: bool,
    bot_banned: bool,
) -> (res: Result<(), Rejection>)
    ensures
        match spec_invite_bot_gate(public, owner_id, auth_id, may_manage_integrations, bot_banned) {
            Ok(()) => res is Ok,
            Err(Rejection::Api(_)) => res matches Err(Rejection::Api(ErrorCode::YouAreBanned)),
            Err(_) => res matches Err(Rejection::Server(Error::MissingPermissions)),
        },
{
    if !public && owner_id != auth_id {
        return Err(Rejection::Server(Error::MissingPermissions));
    }
    if !may_manage_integrations {
        return Err(Rejection::Server(Error::MissingPermissions));
    }
    if bot_banned {
        return Err(Rejection::Api(ErrorCode::YouAreBanned));
    }
    Ok(())
}

/// Making sure a puppet exists: only an application may make its own
/// puppets, and only when it is a bot.
pub fn puppet_gate(app_id: u128, auth_id: u128, caller_is_bot: bool) -> (res: Result<
    (),
    Rejection,
>)
    ensures
        app_id != auth_id ==> res matches Err(Rejection::Server(Error::MissingPermissions)),
        app_id == auth_id && !caller_is_bot ==> res matches Err(
            Rejection::Api(ErrorCode::CantCreateThatUser),
        ),
        app_id == auth_id && caller_is_bot ==> res is Ok,
{
    if app_id != auth_id {
        return Err(Rejection::Server(Error::MissingPermissions));
    }
    if !caller_is_bot {
        return Err(Rejection::Api(ErrorCode::CantCreateThatUser));
    }
    Ok(())
}

/// What making sure a puppet exists does.
#[derive(Clone, Copy, PartialEq, Eq, Structural, Debug)]
pub enum PuppetStep {
    /// The puppet exists: it is returned as it is.
    Existing(u128),
    /// No puppet has that external id yet: one is created.
    Create,
}

pub fn puppet_step(existing: Option<u128>) -> (res: PuppetStep)
    ensures
        existing matches Some(id) ==> res == PuppetStep::Existing(id),
        existing is None ==> res == PuppetStep::Create,
{
    match existing {
        Some(id) => PuppetStep::Existing(id),
        None => PuppetStep::Create,
    }
}

} // verus!
