use vstd::prelude::*;

use crate::error::{Error, ErrorCode, Rejection};
use crate::perms::{all_held, Permission, PermissionCheck};

verus! {

/// A user named in a request: the caller, or a given user.
#[derive(Clone, Copy, PartialEq, Eq, Structural, Debug)]
pub enum UserIdReq {
    UserSelf,
    UserId(u128),
}

/// The user a request names.
pub fn resolve_user(req: UserIdReq, auth_id: u128) -> (res: u128)
    ensures
        req == UserIdReq::UserSelf ==> res == auth_id,
        req matches UserIdReq::UserId(id) ==> res == id,
{
    match req {
        UserIdReq::UserSelf => auth_id,
        UserIdReq::UserId(id) => id,
    }
}

/// What a calendar request does.
#[derive(Clone, Copy, PartialEq, Eq, Structural, Debug)]
pub enum CalendarAction {
    EventList,
    EventCreate,
    EventGet,
    EventUpdate,
    EventDelete,
    RsvpList,
    RsvpGet,
    RsvpPut,
    RsvpDelete,
    OverwriteList,
    OverwriteGet,
    OverwriteUpdate,
    OverwriteDelete,
    OverwriteRsvpList,
    OverwriteRsvpPut,
    OverwriteRsvpDelete,
}

/// The permissions a calendar request records before the channel is
/// loaded (beyond seeing the channel), given whether the user it names is
/// the caller. Editing or deleting an event records its needs later, once
/// the event's creator is known.
pub open spec fn spec_upfront_needs(action: CalendarAction, is_self: bool) -> Seq<Permission> {
    match action {
        CalendarAction::EventCreate => seq![Permission::CalendarEventCreate],
        CalendarAction::RsvpPut => seq![Permission::CalendarEventRsvp],
        CalendarAction::RsvpDelete => if is_self {
            seq![Permission::CalendarEventRsvp]
        } else {
            seq![Permission::CalendarEventManage]
        },
        CalendarAction::OverwriteUpdate => seq![Permission::CalendarEventManage],
        CalendarAction::OverwriteDelete => seq![Permission::CalendarEventManage],
        CalendarAction::OverwriteRsvpPut => seq![
            Permission::ChannelView,
            Permission::CalendarEventRsvp,
        ],
        CalendarAction::OverwriteRsvpDelete => if is_self {
            seq![Permission::ChannelView, Permission::CalendarEventRsvp]
        } else {
            seq![Permission::ChannelView, Permission::CalendarEventManage]
        },
        _ => Seq::empty(),
    }
}

/// Whether the recorded permissions are checked before the channel is
/// loaded. The RSVP requests on an occurrence record theirs but never
/// check them.
pub open spec fn upfront_checked(action: CalendarAction) -> bool {
    !(action == CalendarAction::OverwriteRsvpPut || action == CalendarAction::OverwriteRsvpDelete)
}

/// Whether the request sets an RSVP, which only the user themself may do.
pub open spec fn sets_rsvp(action: CalendarAction) -> bool {
    action == CalendarAction::RsvpPut || action == CalendarAction::OverwriteRsvpPut
}

pub open spec fn spec_calendar_access(
    action: CalendarAction,
    auth_id: u128,
    target: u128,
    granted: Seq<Permission>,
) -> Result<(), Rejection> {
    if upfront_checked(action) && !all_held(granted, spec_upfront_needs(action, target == auth_id)) {
        Err(Rejection::Server(Error::MissingPermissions))
    } else if sets_rsvp(action) && target != auth_id {
        Err(Rejection::Api(ErrorCode::CannotRsvpOtherPeople))
    } else {
        Ok(())
    }
}

fn upfront_needs(action: CalendarAction, is_self: bool) -> (res: Vec<Permission>)
    ensures
        res@ == spec_upfront_needs(action, is_self),
{
    match action {
        CalendarAction::EventCreate => vec![Permission::CalendarEventCreate],
        CalendarAction::RsvpPut => vec![Permission::CalendarEventRsvp],
        CalendarAction::RsvpDelete => if is_self {
            vec![Permission::CalendarEventRsvp]
        } else {
            vec![Permission::CalendarEventManage]
        },
        CalendarAction::OverwriteUpdate => vec![Permission::CalendarEventManage],
        CalendarAction::OverwriteDelete => vec![Permission::CalendarEventManage],
        CalendarAction::OverwriteRsvpPut => vec![
            Permission::ChannelView,
            Permission::CalendarEventRsvp,
        ],
        CalendarAction::OverwriteRsvpDelete => if is_self {
            vec![Permission::ChannelView, Permission::CalendarEventRsvp]
        } else {
            vec![Permission::ChannelView, Permission::CalendarEventManage]
        },
        _ => Vec::new(),
    }
}

/// The checks a calendar request makes before its channel is loaded: the
/// permissions it needs (`MissingPermissions`), then, for setting an RSVP,
/// that it is the caller's own (`CannotRsvpOtherPeople`). `target` is the
/// user the request names (the caller for requests that name none).
pub fn calendar_access(
    action: CalendarAction,
    auth_id: u128,
    target: u128,
    granted: &Vec<Permission>,
) -> (res: Result<(), Rejection>)
    ensures
        match spec_calendar_access(action, auth_id, target, granted@) {
            Ok(()) => res is Ok,
            Err(Rejection::Server(_)) => res matches Err(
                Rejection::Server(Error::MissingPermissions),
            ),
            Err(_) => res matches Err(Rejection::Api(ErrorCode::CannotRsvpOtherPeople)),
        },
{
    let checked = !(action == CalendarAction::OverwriteRsvpPut || action
        == CalendarAction::OverwriteRsvpDelete);
    if checked {
        let mut perms = PermissionCheck::new(granted.clone());
        let needs = upfront_needs(action, target == auth_id);
        let mut i: usize = 0;
        while i < needs.len()
            invariant
                i <= needs@.len(),
                perms.granted@ == granted@,
                perms.needed@ == needs@.take(i as int),
            decreases needs.len() - i,
        {
            perms.needs(needs[i]);
            assert(needs@.take(i + 1) =~= needs@.take(i as int).push(needs@[i as int]));
            i = i + 1;
        }
        assert(needs@.take(needs@.len() as int) =~= needs@);
        if perms.check().is_err() {
            return Err(Rejection::Server(Error::MissingPermissions));
        }
    }
    if (action == CalendarAction::RsvpPut || action == CalendarAction::OverwriteRsvpPut)
        && target != auth_id {
        return Err(Rejection::Api(ErrorCode::CannotRsvpOtherPeople));
    }
    Ok(())
}

/// Calendar requests need a channel that holds a calendar.
pub fn calendar_channel_gate(has_calendar: bool) -> (res: Result<(), Rejection>)
    ensures
        has_calendar ==> res is Ok,
        !has_calendar ==> res matches Err(Rejection::Api(ErrorCode::ChannelIsNotACalendar)),
{
    if has_calendar {
        Ok(())
    } else {
        Err(Rejection::Api(ErrorCode::ChannelIsNotACalendar))
    }
}

/// The permission that editing or deleting an event needs: its creator
/// needs the right to create events, anyone else the right to manage them.
pub open spec fn spec_event_owner_need(creator_id: Option<u128>, auth_id: u128) -> Permission {
    if creator_id == Some(auth_id) {
        Permission::CalendarEventCreate
    } else {
        Permission::CalendarEventManage
    }
}

/// Whether the request's needs depend on the event's creator.
pub open spec fn edits_event(action: CalendarAction) -> bool {
    action == CalendarAction::EventUpdate || action == CalendarAction::EventDelete
}

/// The checks a calendar request makes once the event is loaded: the event
/// must be in the request's channel (`UnknownCalendarEvent`), and editing
/// or deleting it needs the permission that its creator decides.
pub fn calendar_event_gate(
    action: CalendarAction,
    auth_id: u128,
    granted: &Vec<Permission>,
    channel_id: u128,
    event_channel_id: u128,
    event_creator_id: Option<u128>,
) -> (res: Result<(), Rejection>)
    ensures
        event_channel_id != channel_id ==> res matches Err(
            Rejection::Api(ErrorCode::UnknownCalendarEvent),
        ),
        event_channel_id == channel_id && !edits_event(action) ==> res is Ok,
        event_channel_id == channel_id && edits_event(action) ==> {
            &&& granted@.contains(spec_event_owner_need(event_creator_id, auth_id)) ==> res is Ok
            &&& !granted@.contains(spec_event_owner_need(event_creator_id, auth_id))
                ==> res matches Err(Rejection::Server(Error::MissingPermissions))
        },
{
    if event_channel_id != channel_id {
        return Err(Rejection::Api(ErrorCode::UnknownCalendarEvent));
    }
    if action == CalendarAction::EventUpdate || action == CalendarAction::EventDelete {
        let perms = PermissionCheck::new(granted.clone());
        let need = if event_creator_id == Some(auth_id) {
            Permission::CalendarEventCreate
        } else {
            Permission::CalendarEventManage
        };
        if perms.ensure(need).is_err() {
            return Err(Rejection::Server(Error::MissingPermissions));
        }
    }
    Ok(())
}

/// The room of a calendar channel, for the audit log and the broadcast; a
/// channel outside any room is refused (after the change was written).
pub fn calendar_room(room_id: Option<u128>) -> (res: Result<u128, Rejection>)
    ensures
        room_id matches Some(r) ==> res == Ok::<u128, Rejection>(r),
        room_id is None ==> res matches Err(Rejection::Api(ErrorCode::ChannelNotInRoom)),
{
    match room_id {
        Some(r) => Ok(r),
        None => Err(Rejection::Api(ErrorCode::ChannelNotInRoom)),
    }
}

/// Removing an RSVP is written to the audit log only when a moderator
/// removes someone else's.
pub fn audits_rsvp_removal(auth_id: u128, target: u128) -> (res: bool)
    ensures
        res == (auth_id != target),
{
    auth_id != target
}

/// Setting an RSVP on someone else's behalf is always refused, and
/// removing someone else's RSVP from an event needs the right to manage
/// events; one's own RSVP needs only the right to RSVP.
pub proof fn law_rsvp_of_others(auth_id: u128, target: u128, granted: Seq<Permission>)
    requires
        auth_id != target,
    ensures
        spec_calendar_access(CalendarAction::RsvpPut, auth_id, target, granted) is Err,
        spec_calendar_access(CalendarAction::OverwriteRsvpPut, auth_id, target, granted) is Err,
        spec_calendar_access(CalendarAction::RsvpDelete, auth_id, target, granted) is Ok
            <==> granted.contains(Permission::CalendarEventManage),
        spec_calendar_access(CalendarAction::RsvpDelete, auth_id, auth_id, granted) is Ok
            <==> granted.contains(Permission::CalendarEventRsvp),
{
    let m = seq![Permission::CalendarEventManage];
    let r = seq![Permission::CalendarEventRsvp];
    assert(m[0] == Permission::CalendarEventManage);
    assert(r[0] == Permission::CalendarEventRsvp);
}

} // verus!
