use lamprey_backend::application::{
    bridge_gate, control_gate, deletes, invite_bot_gate, puppet_gate, puppet_step, resolve_app,
    visible_gate as app_visible_gate, ApplicationIdReq, PuppetStep,
};
use lamprey_backend::calendar::{
    audits_rsvp_removal, calendar_access, calendar_channel_gate, calendar_event_gate,
    calendar_room, resolve_user, CalendarAction, UserIdReq,
};
use lamprey_backend::document::{
    branch_change_gate, content_target, merge_gate, tag_change_gate, tag_target, tagged_content,
    visible_gate as branch_visible_gate, BranchInfo, RevisionId,
};
use lamprey_backend::error::{Error, ErrorCode, Rejection};
use lamprey_backend::perms::Permission;
use lamprey_backend::reaction::{reaction_gate, ReactionAction};
use lamprey_backend::script::{
    format_name, hosted_media, script_create_source, script_in_channel, script_room,
    script_size_gate, scripts_enabled_gate, trigger_channel_gate, ScriptFormat, ScriptSource,
};

fn branch(creator_id: u128, private: bool, default: bool, parent: Option<u128>) -> BranchInfo {
    BranchInfo { creator_id, private, default, parent_branch_id: parent }
}

#[test]
fn branch_visibility() {
    assert!(branch_visible_gate(branch(1, false, false, None), 2).is_ok());
    assert!(branch_visible_gate(branch(1, true, false, None), 1).is_ok());
    assert!(matches!(branch_visible_gate(branch(1, true, false, None), 2), Err(Rejection::Api(ErrorCode::UnknownDocumentBranch))));
}

#[test]
fn changing_branches() {
    let edit = vec![Permission::DocumentEdit];
    let all = vec![Permission::DocumentEdit, Permission::ThreadManage];
    assert!(branch_change_gate(branch(1, false, false, None), 1, &edit, false).is_ok());
    assert!(matches!(branch_change_gate(branch(1, false, false, None), 2, &edit, false), Err(Rejection::Server(Error::MissingPermissions))));
    assert!(branch_change_gate(branch(1, false, false, None), 2, &all, false).is_ok());
    assert!(matches!(branch_change_gate(branch(1, false, true, None), 1, &all, true), Err(Rejection::Api(ErrorCode::CannotCloseDefaultBranch))));
    assert!(branch_change_gate(branch(1, false, true, None), 1, &all, false).is_ok());
    assert!(matches!(branch_change_gate(branch(1, false, false, None), 1, &vec![], true), Err(Rejection::Server(Error::MissingPermissions))));
}

#[test]
fn private_branches_are_hidden() {
    let hidden = branch(1, true, false, Some(9));
    let all = vec![Permission::DocumentEdit, Permission::ThreadManage];
    let unknown = |r: Result<(), Rejection>| matches!(r, Err(Rejection::Api(ErrorCode::UnknownDocumentBranch)));
    assert!(unknown(branch_visible_gate(hidden, 2)));
    assert!(unknown(branch_change_gate(hidden, 2, &all, false)));
    assert!(unknown(branch_change_gate(hidden, 2, &all, true)));
    assert!(unknown(tag_change_gate(hidden, Some(2), 2, &all)));
    assert!(matches!(merge_gate(hidden, 2), Err(Rejection::Api(ErrorCode::UnknownDocumentBranch))));
}

#[test]
fn merging_branches() {
    assert!(matches!(merge_gate(branch(1, false, false, Some(9)), 2), Ok(9)));
    assert!(matches!(merge_gate(branch(1, false, true, Some(9)), 1), Err(Rejection::Api(ErrorCode::CannotMergeDefaultBranch))));
    assert!(matches!(merge_gate(branch(1, false, false, None), 1), Err(Rejection::Api(ErrorCode::BranchHasNoParent))));
}

#[test]
fn document_revisions() {
    assert!(matches!(tag_target(RevisionId::Revision { branch_id: 3, seq: 7 }), Ok((3, 7))));
    assert!(matches!(tag_target(RevisionId::Branch { branch_id: 3 }), Err(Rejection::Server(Error::Unimplemented))));
    assert!(matches!(tag_target(RevisionId::Tag { tag_id: 3 }), Err(Rejection::Api(ErrorCode::CannotTagAnotherTag))));
    assert_eq!(content_target(RevisionId::Branch { branch_id: 3 }), Some((3, None)));
    assert_eq!(content_target(RevisionId::Revision { branch_id: 3, seq: 7 }), Some((3, Some(7))));
    assert_eq!(content_target(RevisionId::Tag { tag_id: 3 }), None);
    assert_eq!(tagged_content(4, 12), (4, Some(12)));
    assert_eq!(tagged_content(4, -1), (4, Some(-1i64 as u64)));
    assert_eq!(tagged_content(4, i64::MIN), (4, Some(i64::MIN as u64)));
}

#[test]
fn changing_tags() {
    let edit = vec![Permission::DocumentEdit];
    assert!(tag_change_gate(branch(1, false, false, None), Some(2), 2, &edit).is_ok());
    assert!(matches!(tag_change_gate(branch(1, false, false, None), Some(3), 2, &edit), Err(Rejection::Server(Error::MissingPermissions))));
    assert!(matches!(tag_change_gate(branch(1, false, false, None), None, 2, &edit), Err(Rejection::Server(Error::MissingPermissions))));
}

#[test]
fn calendar_requests() {
    assert_eq!(resolve_user(UserIdReq::UserSelf, 4), 4);
    assert_eq!(resolve_user(UserIdReq::UserId(5), 4), 5);
    let rsvp = vec![Permission::CalendarEventRsvp];
    let manage = vec![Permission::CalendarEventManage];
    assert!(calendar_access(CalendarAction::EventList, 1, 1, &vec![]).is_ok());
    assert!(matches!(calendar_access(CalendarAction::EventCreate, 1, 1, &rsvp), Err(Rejection::Server(Error::MissingPermissions))));
    assert!(calendar_access(CalendarAction::RsvpPut, 1, 1, &rsvp).is_ok());
    // setting someone else's RSVP is refused, once the permission is there
    assert!(matches!(calendar_access(CalendarAction::RsvpPut, 1, 2, &rsvp), Err(Rejection::Api(ErrorCode::CannotRsvpOtherPeople))));
    assert!(matches!(calendar_access(CalendarAction::RsvpPut, 1, 2, &vec![]), Err(Rejection::Server(Error::MissingPermissions))));
    // removing someone else's RSVP needs the right to manage events
    assert!(calendar_access(CalendarAction::RsvpDelete, 1, 2, &manage).is_ok());
    assert!(matches!(calendar_access(CalendarAction::RsvpDelete, 1, 2, &rsvp), Err(Rejection::Server(Error::MissingPermissions))));
    assert!(calendar_access(CalendarAction::RsvpDelete, 1, 1, &rsvp).is_ok());
    // the RSVP requests on an occurrence never check their permissions
    assert!(calendar_access(CalendarAction::OverwriteRsvpDelete, 1, 2, &vec![]).is_ok());
    assert!(calendar_access(CalendarAction::OverwriteRsvpPut, 1, 1, &vec![]).is_ok());
    assert!(matches!(calendar_access(CalendarAction::OverwriteRsvpPut, 1, 2, &vec![]), Err(Rejection::Api(ErrorCode::CannotRsvpOtherPeople))));
    assert!(matches!(calendar_access(CalendarAction::OverwriteUpdate, 1, 1, &rsvp), Err(Rejection::Server(Error::MissingPermissions))));
}

#[test]
fn calendar_events() {
    let create = vec![Permission::CalendarEventCreate];
    assert!(calendar_channel_gate(true).is_ok());
    assert!(matches!(calendar_channel_gate(false), Err(Rejection::Api(ErrorCode::ChannelIsNotACalendar))));
    assert!(matches!(calendar_event_gate(CalendarAction::EventGet, 1, &vec![], 10, 11, None), Err(Rejection::Api(ErrorCode::UnknownCalendarEvent))));
    assert!(calendar_event_gate(CalendarAction::EventGet, 1, &vec![], 10, 10, None).is_ok());
    assert!(calendar_event_gate(CalendarAction::EventUpdate, 1, &create, 10, 10, Some(1)).is_ok());
    assert!(matches!(calendar_event_gate(CalendarAction::EventDelete, 1, &create, 10, 10, Some(2)), Err(Rejection::Server(Error::MissingPermissions))));
    assert!(calendar_event_gate(CalendarAction::EventDelete, 1, &vec![Permission::CalendarEventManage], 10, 10, None).is_ok());
    assert!(matches!(calendar_room(Some(3)), Ok(3)));
    assert!(matches!(calendar_room(None), Err(Rejection::Api(ErrorCode::ChannelNotInRoom))));
    assert!(audits_rsvp_removal(1, 2));
    assert!(!audits_rsvp_removal(1, 1));
}

#[test]
fn reactions() {
    let add = vec![Permission::ReactionAdd];
    let manage = vec![Permission::ReactionManage];
    assert!(reaction_gate(ReactionAction::Add, 1, 1, &add).is_ok());
    assert!(matches!(reaction_gate(ReactionAction::Add, 1, 2, &add), Err(Rejection::Api(ErrorCode::CannotActOnBehalfOfOthers))));
    assert!(matches!(reaction_gate(ReactionAction::Add, 1, 1, &manage), Err(Rejection::Server(Error::MissingPermissions))));
    assert!(reaction_gate(ReactionAction::Remove, 1, 1, &add).is_ok());
    assert!(matches!(reaction_gate(ReactionAction::Remove, 1, 2, &add), Err(Rejection::Server(Error::MissingPermissions))));
    assert!(reaction_gate(ReactionAction::Remove, 1, 2, &manage).is_ok());
    assert!(reaction_gate(ReactionAction::RemoveKey, 1, 1, &manage).is_ok());
    assert!(matches!(reaction_gate(ReactionAction::RemoveAll, 1, 1, &add), Err(Rejection::Server(Error::MissingPermissions))));
}

#[test]
fn applications() {
    assert_eq!(resolve_app(ApplicationIdReq::AppSelf, 3), 3);
    assert_eq!(resolve_app(ApplicationIdReq::ApplicationId(4), 3), 4);
    assert!(bridge_gate(false, false).is_ok());
    assert!(bridge_gate(true, true).is_ok());
    assert!(matches!(bridge_gate(true, false), Err(Rejection::Api(ErrorCode::PlatformNameRequiredForBridge))));
    assert!(app_visible_gate(10, 1, false, 1).is_ok());
    assert!(app_visible_gate(10, 1, true, 2).is_ok());
    assert!(app_visible_gate(10, 1, false, 10).is_ok());
    assert!(matches!(app_visible_gate(10, 1, false, 2), Err(Rejection::Api(ErrorCode::UnknownApplication))));
    assert!(control_gate(10, 1, 1).is_ok());
    assert!(control_gate(10, 1, 10).is_ok());
    assert!(matches!(control_gate(10, 1, 2), Err(Error::MissingPermissions)));
    assert!(deletes(1, 1));
    assert!(!deletes(1, 10));
}

#[test]
fn bots_and_puppets() {
    assert!(invite_bot_gate(false, 1, 1, true, false).is_ok());
    assert!(invite_bot_gate(true, 1, 2, true, false).is_ok());
    assert!(matches!(invite_bot_gate(false, 1, 2, true, false), Err(Rejection::Server(Error::MissingPermissions))));
    assert!(matches!(invite_bot_gate(true, 1, 2, false, false), Err(Rejection::Server(Error::MissingPermissions))));
    assert!(matches!(invite_bot_gate(true, 1, 2, true, true), Err(Rejection::Api(ErrorCode::YouAreBanned))));
    assert!(puppet_gate(5, 5, true).is_ok());
    assert!(matches!(puppet_gate(5, 6, true), Err(Rejection::Server(Error::MissingPermissions))));
    assert!(matches!(puppet_gate(5, 5, false), Err(Rejection::Api(ErrorCode::CantCreateThatUser))));
    assert_eq!(puppet_step(Some(8)), PuppetStep::Existing(8));
    assert_eq!(puppet_step(None), PuppetStep::Create);
}

#[test]
fn scripts() {
    assert!(scripts_enabled_gate(true).is_ok());
    assert!(matches!(scripts_enabled_gate(false), Err(Error::Unimplemented)));
    assert!(matches!(script_room(Some(2)), Ok(2)));
    match script_room(None) {
        Err(Error::BadStatic(m)) => assert_eq!(m, "channel is not in a room"),
        _ => panic!(),
    }
    assert!(matches!(hosted_media(ScriptSource::Media { media_id: 4 }), Ok(4)));
    for s in [ScriptSource::Local, ScriptSource::Remote, ScriptSource::Attachment, ScriptSource::Url] {
        assert!(matches!(hosted_media(s), Err(Error::Unimplemented)));
    }
    assert!(matches!(script_create_source(ScriptFormat::Javascript, ScriptSource::Media { media_id: 4 }), Ok(4)));
    assert!(matches!(script_create_source(ScriptFormat::Webassembly, ScriptSource::Media { media_id: 4 }), Err(Error::Unimplemented)));
    assert!(script_size_gate(10, 10).is_ok());
    match script_size_gate(11, 10) {
        Err(Error::BadStatic(m)) => assert_eq!(m, "file too large"),
        _ => panic!(),
    }
    assert!(script_in_channel(Some(3), 3).is_ok());
    assert!(matches!(script_in_channel(Some(4), 3), Err(Error::NotFound)));
    assert!(matches!(script_in_channel(None, 3), Err(Error::NotFound)));
    assert!(trigger_channel_gate(true).is_ok());
    match trigger_channel_gate(false) {
        Err(Error::BadStatic(m)) => assert_eq!(m, "channel is not a scripts channel"),
        _ => panic!(),
    }
    assert_eq!(format_name(ScriptFormat::Javascript), "Javascript");
    assert_eq!(format_name(ScriptFormat::Webassembly), "Webassembly");
}
