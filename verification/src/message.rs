use vstd::prelude::*;

use crate::codec::{spec_unix_timestamp_valid, unix_timestamp_valid};
use crate::error::{Error, ErrorCode, Rejection};
use crate::perms::{contains_permission, Permission};

verus! {

pub open spec fn spec_delete_decision(deletable: bool, is_author: bool, has_delete: bool) -> Result<
    bool,
    Rejection,
> {
    if !deletable {
        Err(Rejection::Api(ErrorCode::CantDeleteThatMessage))
    } else if !(has_delete || is_author) {
        Err(Rejection::Api(ErrorCode::MissingPermissions))
    } else {
        Ok(!is_author)
    }
}

/// Whether a message may be deleted: only a deletable kind of message, by
/// its author or by a holder of `MessageDelete`. On success, whether the
/// room's multi-factor requirement applies (it does when deleting someone
/// else's message).
pub fn delete_decision(deletable: bool, is_author: bool, has_delete: bool) -> (res: Result<
    bool,
    Rejection,
>)
    ensures
        res == spec_delete_decision(deletable, is_author, has_delete),
        res is Ok <==> deletable && (is_author || has_delete),
        res matches Ok(mfa) ==> mfa == !is_author,
{
    if !deletable {
        return Err(Rejection::Api(ErrorCode::CantDeleteThatMessage));
    }
    if !(has_delete || is_author) {
        return Err(Rejection::Api(ErrorCode::MissingPermissions));
    }
    Ok(!is_author)
}

pub open spec fn spec_version_delete_decision(
    is_latest: bool,
    deletable: bool,
    is_author: bool,
    has_delete: bool,
) -> Result<bool, Rejection> {
    if is_latest {
        Err(Rejection::Api(ErrorCode::CannotDeleteLatestMessageVersion))
    } else if !deletable {
        Err(Rejection::Api(ErrorCode::CantDeleteThatMessageType))
    } else if !(has_delete || is_author) {
        Err(Rejection::Api(ErrorCode::MissingPermissions))
    } else {
        Ok(!is_author)
    }
}

/// Whether a message version may be deleted: never the latest version, only
/// a deletable kind, by the author or a holder of `MessageDelete`. On
/// success, whether the multi-factor requirement applies.
pub fn version_delete_decision(is_latest: bool, deletable: bool, is_author: bool, has_delete: bool) -> (res:
    Result<bool, Rejection>)
    ensures
        res == spec_version_delete_decision(is_latest, deletable, is_author, has_delete),
        res is Ok <==> !is_latest && deletable && (is_author || has_delete),
        res matches Ok(mfa) ==> mfa == !is_author,
{
    if is_latest {
        return Err(Rejection::Api(ErrorCode::CannotDeleteLatestMessageVersion));
    }
    if !deletable {
        return Err(Rejection::Api(ErrorCode::CantDeleteThatMessageType));
    }
    if !(has_delete || is_author) {
        return Err(Rejection::Api(ErrorCode::MissingPermissions));
    }
    Ok(!is_author)
}

/// Who may delete a message or one of its older versions: the author, or
/// anyone holding `MessageDelete` (a moderator deleting someone else's
/// message), provided the message is of a deletable kind; the latest
/// version is never deleted on its own. The room's multi-factor
/// requirement applies exactly when the message is someone else's. For a
/// version other than the latest, the decision is the one for deleting the
/// message.
pub proof fn law_who_may_delete(is_latest: bool, deletable: bool, is_author: bool, has_delete: bool)
    ensures
        spec_delete_decision(deletable, is_author, has_delete) is Ok <==> deletable && (is_author
            || has_delete),
        spec_version_delete_decision(is_latest, deletable, is_author, has_delete) is Ok <==> !is_latest
            && deletable && (is_author || has_delete),
        spec_delete_decision(deletable, is_author, has_delete) matches Ok(mfa) ==> mfa == !is_author,
        spec_version_delete_decision(is_latest, deletable, is_author, has_delete) matches Ok(mfa)
            ==> mfa == !is_author,
        !is_latest ==> spec_version_delete_decision(is_latest, deletable, is_author, has_delete)
            is Ok == spec_delete_decision(deletable, is_author, has_delete) is Ok,
        is_latest ==> spec_version_delete_decision(is_latest, deletable, is_author, has_delete)
            == Err::<bool, Rejection>(Rejection::Api(ErrorCode::CannotDeleteLatestMessageVersion)),
{
}

/// One message that a moderation request deletes or removes.
#[derive(Clone, Copy, PartialEq, Eq, Structural, Debug)]
pub struct ModeratedMessage {
    pub deletable: bool,
    pub is_author: bool,
}

pub open spec fn all_deletable(ms: Seq<ModeratedMessage>) -> bool {
    forall|i: int| 0 <= i < ms.len() ==> (#[trigger] ms[i]).deletable
}

pub open spec fn spec_moderate(
    delete: Seq<ModeratedMessage>,
    remove: Seq<ModeratedMessage>,
    restore: bool,
    granted: Seq<Permission>,
) -> Result<bool, Rejection> {
    if delete.len() > 0 && !granted.contains(Permission::MessageDelete) {
        Err(Rejection::Server(Error::MissingPermissions))
    } else if delete.len() > 0 && !all_deletable(delete) {
        Err(Rejection::Api(ErrorCode::CantDeleteThatMessage))
    } else if remove.len() > 0 && !granted.contains(Permission::MessageRemove) {
        Err(Rejection::Server(Error::MissingPermissions))
    } else if remove.len() > 0 && !all_deletable(remove) {
        Err(Rejection::Api(ErrorCode::CantDeleteThatMessage))
    } else if restore && !granted.contains(Permission::MessageRemove) {
        Err(Rejection::Server(Error::MissingPermissions))
    } else {
        Ok(remove.len() > 0 || restore || exists|i: int|
            0 <= i < delete.len() && !(#[trigger] delete[i]).is_author)
    }
}

fn check_deletable(ms: &Vec<ModeratedMessage>) -> (res: bool)
    ensures
        res == all_deletable(ms@),
{
    let mut i: usize = 0;
    while i < ms.len()
        invariant
            i <= ms.len(),
            forall|j: int| 0 <= j < i ==> (#[trigger] ms@[j]).deletable,
        decreases ms.len() - i,
    {
        if !ms[i].deletable {
            return false;
        }
        i = i + 1;
    }
    true
}

fn any_foreign(ms: &Vec<ModeratedMessage>) -> (res: bool)
    ensures
        res == exists|i: int| 0 <= i < ms@.len() && !(#[trigger] ms@[i]).is_author,
{
    let mut i: usize = 0;
    while i < ms.len()
        invariant
            i <= ms.len(),
            forall|j: int| 0 <= j < i ==> (#[trigger] ms@[j]).is_author,
        decreases ms.len() - i,
    {
        if !ms[i].is_author {
            return true;
        }
        i = i + 1;
    }
    false
}

/// Decides a bulk moderation request that deletes, removes and restores
/// messages. Deleting needs `MessageDelete`, removing and restoring need
/// `MessageRemove`, and only deletable kinds of messages may be deleted or
/// removed; the checks run in that order. On success, whether the room's
/// multi-factor requirement applies: it does for any removal or
/// restoration, and for deleting another user's message.
pub fn moderate_decision(
    delete: &Vec<ModeratedMessage>,
    remove: &Vec<ModeratedMessage>,
    restore: bool,
    granted: &Vec<Permission>,
) -> (res: Result<bool, Rejection>)
    ensures
        res == spec_moderate(delete@, remove@, restore, granted@),
{
    if delete.len() > 0 {
        if !contains_permission(granted, Permission::MessageDelete) {
            return Err(Rejection::Server(Error::MissingPermissions));
        }
        if !check_deletable(delete) {
            return Err(Rejection::Api(ErrorCode::CantDeleteThatMessage));
        }
    }
    if remove.len() > 0 {
        if !contains_permission(granted, Permission::MessageRemove) {
            return Err(Rejection::Server(Error::MissingPermissions));
        }
        if !check_deletable(remove) {
            return Err(Rejection::Api(ErrorCode::CantDeleteThatMessage));
        }
    }
    if restore && !contains_permission(granted, Permission::MessageRemove) {
        return Err(Rejection::Server(Error::MissingPermissions));
    }
    let foreign = any_foreign(delete);
    Ok(remove.len() > 0 || restore || foreign)
}

/// A moderation request that asks for nothing does nothing.
pub fn moderation_is_empty(delete: usize, remove: usize, restore: usize) -> (res: bool)
    ensures
        res == (delete == 0 && remove == 0 && restore == 0),
{
    delete == 0 && remove == 0 && restore == 0
}

/// A request that only touches a user's own messages by deletion never
/// needs multi-factor authentication.
pub proof fn law_own_deletions_need_no_mfa(delete: Seq<ModeratedMessage>, granted: Seq<Permission>)
    requires
        forall|i: int| 0 <= i < delete.len() ==> (#[trigger] delete[i]).is_author,
    ensures
        spec_moderate(delete, Seq::empty(), false, granted) matches Ok(m) ==> !m,
{
}

/// The time a client sets on a message it sends or edits (seconds since
/// the epoch, from a request header): kept when it is a representable
/// date, else dropped.
pub fn header_timestamp(secs: Option<i64>) -> (res: Option<i64>)
    ensures
        match secs {
            Some(t) => if spec_unix_timestamp_valid(t) {
                res == Some(t)
            } else {
                res is None
            },
            None => res is None,
        },
{
    match secs {
        Some(t) => {
            if unix_timestamp_valid(t) {
                Some(t)
            } else {
                None
            }
        },
        None => None,
    }
}

/// What a pin request does.
#[derive(Clone, Copy, PartialEq, Eq, Structural, Debug)]
pub enum PinAction {
    Pin,
    Unpin,
    Reorder,
}

pub open spec fn spec_pin_gate(
    room_requires_mfa: Option<bool>,
    totp_enabled: Option<bool>,
    granted: Seq<Permission>,
) -> Result<(), Rejection> {
    if room_requires_mfa == Some(true) && totp_enabled != Some(true) {
        Err(Rejection::Api(ErrorCode::MfaRequired))
    } else if !granted.contains(Permission::MessagePin) {
        Err(Rejection::Server(Error::MissingPermissions))
    } else {
        Ok(())
    }
}

/// The checks that pinning, unpinning and reordering pins share: a channel
/// in a room that requires multi-factor authentication (`room_requires_mfa`
/// is `None` outside any room) refuses users without an enabled TOTP, and
/// then the right to pin messages is needed.
pub fn pin_gate(
    room_requires_mfa: Option<bool>,
    totp_enabled: Option<bool>,
    granted: &Vec<Permission>,
) -> (res: Result<(), Rejection>)
    ensures
        res == spec_pin_gate(room_requires_mfa, totp_enabled, granted@),
{
    let requires_mfa = match room_requires_mfa {
        Some(r) => r,
        None => false,
    };
    let enabled = match totp_enabled {
        Some(e) => e,
        None => false,
    };
    if requires_mfa && !enabled {
        return Err(Rejection::Api(ErrorCode::MfaRequired));
    }
    if !contains_permission(granted, Permission::MessagePin) {
        return Err(Rejection::Server(Error::MissingPermissions));
    }
    Ok(())
}

/// What follows a pin request that passed its checks.
#[derive(Clone, Copy, PartialEq, Eq, Structural, Debug)]
pub struct PinFollowups {
    /// A notice message saying that a message was pinned is posted.
    pub notice: bool,
    /// The room's audit log records the request.
    pub audit: bool,
}

pub open spec fn spec_pin_followups(action: PinAction, created: bool, in_room: bool) -> PinFollowups {
    match action {
        PinAction::Pin => PinFollowups { notice: created, audit: created && in_room },
        _ => PinFollowups { notice: false, audit: in_room },
    }
}

/// Pinning posts a notice and writes the audit log (in a room) only when
/// the pin is new (`created`); unpinning and reordering post no notice and
/// write the audit log whenever the channel is in a room.
pub fn pin_followups(action: PinAction, created: bool, in_room: bool) -> (res: PinFollowups)
    ensures
        res == spec_pin_followups(action, created, in_room),
{
    match action {
        PinAction::Pin => PinFollowups { notice: created, audit: created && in_room },
        _ => PinFollowups { notice: false, audit: in_room },
    }
}

/// Pinning a message that is already pinned is quiet: no notice and no
/// audit entry; and only pinning ever posts a notice.
pub proof fn law_repinning_is_quiet(action: PinAction, created: bool, in_room: bool)
    ensures
        spec_pin_followups(PinAction::Pin, false, in_room) == (PinFollowups {
            notice: false,
            audit: false,
        }),
        spec_pin_followups(action, created, in_room).notice ==> action == PinAction::Pin,
{
}

/// Pinning, unpinning or reordering pins passes exactly when the channel's
/// room (if any) does not require multi-factor authentication or the
/// user's TOTP is enabled, and the user may pin messages; the room's
/// requirement is checked first.
pub proof fn law_pin_checks(room_requires_mfa: Option<bool>, totp_enabled: Option<bool>, granted: Seq<Permission>)
    ensures
        spec_pin_gate(room_requires_mfa, totp_enabled, granted) is Ok <==> (room_requires_mfa
            != Some(true) || totp_enabled == Some(true)) && granted.contains(Permission::MessagePin),
        room_requires_mfa == Some(true) && totp_enabled != Some(true) ==> spec_pin_gate(
            room_requires_mfa,
            totp_enabled,
            granted,
        ) == Err::<(), Rejection>(Rejection::Api(ErrorCode::MfaRequired)),
{
}

/// Only a new pin posts a notice and writes the audit log (in a room);
/// unpinning and reordering never post a notice and always write the
/// audit log in a room; nothing is audited outside a room.
pub proof fn law_pin_followups(action: PinAction, created: bool, in_room: bool)
    ensures
        spec_pin_followups(action, created, in_room).notice <==> action == PinAction::Pin && created,
        spec_pin_followups(action, created, in_room).audit <==> in_room && (action != PinAction::Pin
            || created),
{
}

} // verus!
