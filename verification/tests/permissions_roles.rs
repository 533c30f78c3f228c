use lamprey_backend::error::{Error, ErrorCode, Rejection};
use lamprey_backend::grants::{
    are_disjoint, bulk_apply_prefix, default_role_gate, ensure_changes_held, find_overwrite,
    find_overwrite_by_id, overwrite_removal, role_edit_decision, role_manage_gate, RoleEdit,
    normalize_role_patch, overwrite_decision, overwrite_error, rank_gate, reorder_gate,
    role_delete_allowed, without, Overwrite, OverwriteFault, OverwriteRequest, RoleMove,
};
use lamprey_backend::perms::{contains_permission, Permission, PermissionCheck};
use lamprey_backend::room::RoomSecurity;

use Permission::{Admin, ChannelView, MessageCreate, MessageDelete, RoleManage};

fn ow(id: u128, for_role: bool, allow: Vec<Permission>, deny: Vec<Permission>) -> Overwrite {
    Overwrite { id, for_role, allow, deny }
}

fn req(id: u128, for_role: bool, allow: Vec<Permission>, deny: Vec<Permission>) -> OverwriteRequest {
    OverwriteRequest { id, for_role, allow, deny }
}

#[test]
fn permission_checks() {
    assert!(contains_permission(&vec![Admin, RoleManage], RoleManage));
    assert!(!contains_permission(&vec![], RoleManage));
    let mut check = PermissionCheck::new(vec![ChannelView, MessageCreate]);
    assert!(check.has(ChannelView));
    assert!(check.ensure(MessageCreate).is_ok());
    assert!(matches!(check.ensure(Admin), Err(Error::MissingPermissions)));
    assert!(check.check().is_ok());
    check.needs(MessageCreate);
    check.needs(ChannelView);
    check.needs(MessageCreate);
    assert!(check.check().is_ok());
    // one more need can only turn a pass into a failure
    check.needs(Admin);
    assert!(matches!(check.check(), Err(Error::MissingPermissions)));
}

#[test]
fn allow_and_deny_lists() {
    assert!(are_disjoint(&vec![Admin], &vec![RoleManage]));
    assert!(!are_disjoint(&vec![Admin, RoleManage], &vec![RoleManage]));
    assert_eq!(without(&vec![Admin, RoleManage, ChannelView], &vec![RoleManage]), vec![Admin, ChannelView]);
}

#[test]
fn role_edits_that_set_one_list() {
    // setting the allow list drops the newly allowed permissions from the deny list
    let (a, d) = normalize_role_patch(&vec![], &vec![Admin, RoleManage], Some(vec![Admin]), None);
    assert_eq!(a, Some(vec![Admin]));
    assert_eq!(d, Some(vec![RoleManage]));
    // no overlap: the other list is left alone
    let (a, d) = normalize_role_patch(&vec![], &vec![RoleManage], Some(vec![Admin]), None);
    assert_eq!(a, Some(vec![Admin]));
    assert_eq!(d, None);
    // and the reverse
    let (a, d) = normalize_role_patch(&vec![Admin, ChannelView], &vec![], None, Some(vec![Admin]));
    assert_eq!(a, Some(vec![ChannelView]));
    assert_eq!(d, Some(vec![Admin]));
    // both lists set: nothing is completed
    let (a, d) = normalize_role_patch(&vec![], &vec![], Some(vec![Admin]), Some(vec![Admin]));
    assert_eq!((a, d), (Some(vec![Admin]), Some(vec![Admin])));
}

#[test]
fn changing_a_permission_needs_it() {
    assert!(ensure_changes_held(&vec![Admin], &vec![RoleManage], &vec![RoleManage, Admin]).is_ok());
    assert!(matches!(
        ensure_changes_held(&vec![Admin], &vec![RoleManage], &vec![Admin]),
        Err(Error::MissingPermissions)
    ));
    assert!(ensure_changes_held(&vec![], &vec![Admin], &vec![Admin]).is_ok());
}

#[test]
fn role_ranks() {
    assert!(rank_gate(false, 5, 4, false).is_ok());
    assert!(matches!(rank_gate(false, 4, 4, false), Err(Rejection::Api(ErrorCode::InsufficientRank))));
    assert!(rank_gate(true, 0, 4, false).is_ok());
    assert!(rank_gate(false, 0, 4, true).is_ok());
    assert!(matches!(default_role_gate(5, 5), Err(Rejection::Api(ErrorCode::CannotModifyDefaultRole))));
    assert!(default_role_gate(5, 6).is_ok());
    assert!(role_delete_allowed(0, false));
    assert!(role_delete_allowed(3, true));
    assert!(!role_delete_allowed(3, false));
}

#[test]
fn bulk_role_application_stops_at_the_first_refusal() {
    // rank 3 against a role at position 3: only the caller, for a
    // self-applicable role, passes
    assert_eq!(bulk_apply_prefix(&vec![1, 1, 2, 1], 1, false, 3, 3, true), (2, true));
    assert_eq!(bulk_apply_prefix(&vec![1, 1], 1, false, 3, 3, true), (2, false));
    assert_eq!(bulk_apply_prefix(&vec![2, 1], 1, false, 3, 3, false), (0, true));
    assert_eq!(bulk_apply_prefix(&vec![2, 3, 4], 1, false, 4, 3, false), (3, false));
    assert_eq!(bulk_apply_prefix(&vec![2, 3], 1, true, 0, 3, false), (2, false));
    assert_eq!(bulk_apply_prefix(&vec![], 1, false, 0, 3, false), (0, false));
}

#[test]
fn reordering_roles() {
    let moves = vec![RoleMove { current_position: 1, new_position: 2 }, RoleMove { current_position: 2, new_position: 1 }];
    assert!(reorder_gate(&moves, 3, false).is_ok());
    assert!(matches!(reorder_gate(&moves, 2, false), Err(Rejection::Api(ErrorCode::InsufficientRank))));
    assert!(reorder_gate(&moves, 0, true).is_ok());
    let up = vec![RoleMove { current_position: 1, new_position: 3 }];
    assert!(matches!(reorder_gate(&up, 3, false), Err(Rejection::Api(ErrorCode::InsufficientRank))));
}

#[test]
fn finding_overwrites() {
    let list = vec![ow(1, true, vec![], vec![]), ow(1, false, vec![], vec![]), ow(2, true, vec![], vec![])];
    assert_eq!(find_overwrite(&list, 1, false), Some(1));
    assert_eq!(find_overwrite(&list, 2, true), Some(2));
    assert_eq!(find_overwrite(&list, 2, false), None);
}

#[test]
fn overwrite_decisions() {
    let granted = vec![MessageCreate, MessageDelete];
    let existing = vec![ow(7, true, vec![MessageCreate], vec![])];
    // replacing an existing overwrite needs the permissions it changes
    let r = req(7, true, vec![MessageCreate, MessageDelete], vec![]);
    assert_eq!(overwrite_decision(&r, false, true, false, 5, 4, &existing, 10, &granted), Ok(Some(0)));
    let r = req(7, true, vec![MessageCreate], vec![Admin]);
    assert_eq!(overwrite_decision(&r, false, true, false, 5, 4, &existing, 10, &granted), Err(OverwriteFault::Missing));
    // a new overwrite needs all of its permissions, and room for it
    let r = req(8, false, vec![MessageDelete], vec![]);
    assert_eq!(overwrite_decision(&r, false, true, false, 5, 4, &existing, 10, &granted), Ok(None));
    assert_eq!(overwrite_decision(&r, false, true, false, 5, 4, &existing, 1, &granted), Err(OverwriteFault::TooMany));
    let r = req(8, false, vec![Admin], vec![]);
    assert_eq!(overwrite_decision(&r, false, true, false, 5, 4, &existing, 10, &granted), Err(OverwriteFault::Missing));
    // the earlier checks
    let r = req(8, false, vec![Admin], vec![Admin]);
    assert_eq!(overwrite_decision(&r, false, true, false, 5, 4, &existing, 10, &granted), Err(OverwriteFault::Conflict));
    let r = req(8, false, vec![], vec![]);
    assert_eq!(overwrite_decision(&r, true, true, false, 5, 4, &existing, 10, &granted), Err(OverwriteFault::WrongChannel));
    assert_eq!(overwrite_decision(&r, false, false, false, 5, 4, &existing, 10, &granted), Err(OverwriteFault::WrongChannel));
    assert_eq!(overwrite_decision(&r, false, true, false, 4, 4, &existing, 10, &granted), Err(OverwriteFault::Rank));
    assert_eq!(overwrite_decision(&r, false, true, true, 4, 4, &existing, 10, &granted), Ok(None));
}

#[test]
fn overwrite_errors() {
    assert!(matches!(overwrite_error(OverwriteFault::Conflict), Rejection::Api(ErrorCode::PermissionConflict)));
    assert!(matches!(overwrite_error(OverwriteFault::WrongChannel), Rejection::Api(ErrorCode::CannotSetPermissionsOnThisChannelType)));
    assert!(matches!(overwrite_error(OverwriteFault::Rank), Rejection::Api(ErrorCode::InsufficientRank)));
    assert!(matches!(overwrite_error(OverwriteFault::TooMany), Rejection::Api(ErrorCode::InvalidData)));
    assert!(matches!(overwrite_error(OverwriteFault::Missing), Rejection::Server(Error::MissingPermissions)));
}

#[test]
fn removing_overwrites() {
    let list = vec![ow(4, false, vec![], vec![]), ow(7, true, vec![MessageCreate], vec![MessageDelete])];
    assert_eq!(find_overwrite_by_id(&list, 7), Some(1));
    assert_eq!(find_overwrite_by_id(&list, 4), Some(0));
    assert_eq!(find_overwrite_by_id(&list, 5), None);
    let o = &list[1];
    assert_eq!(overwrite_removal(o, false, true, 9, 1, &vec![MessageCreate, MessageDelete]), Err(OverwriteFault::WrongChannel));
    assert_eq!(overwrite_removal(o, true, false, 3, 3, &vec![MessageCreate, MessageDelete]), Err(OverwriteFault::Rank));
    assert_eq!(overwrite_removal(o, true, true, 3, 3, &vec![MessageCreate, MessageDelete]), Ok(()));
    assert_eq!(overwrite_removal(o, true, false, 4, 3, &vec![MessageCreate]), Err(OverwriteFault::Missing));
    assert_eq!(overwrite_removal(o, true, false, 4, 3, &vec![MessageDelete]), Err(OverwriteFault::Missing));
    assert_eq!(overwrite_removal(&list[0], true, false, 4, 3, &vec![]), Ok(()));
}

#[test]
fn managing_roles_in_secure_rooms() {
    let strict = RoomSecurity { require_sudo: true, require_mfa: true };
    let lax = RoomSecurity { require_sudo: false, require_mfa: false };
    assert!(matches!(
        role_manage_gate(strict, Err(Rejection::Server(Error::UnauthSession)), Some(true), &vec![RoleManage]),
        Err(Rejection::Server(Error::UnauthSession))
    ));
    assert!(matches!(
        role_manage_gate(strict, Ok(()), None, &vec![RoleManage]),
        Err(Rejection::Api(ErrorCode::MfaRequired))
    ));
    assert!(matches!(
        role_manage_gate(strict, Ok(()), Some(true), &vec![Admin]),
        Err(Rejection::Server(Error::MissingPermissions))
    ));
    assert!(role_manage_gate(strict, Ok(()), Some(true), &vec![RoleManage]).is_ok());
    assert!(role_manage_gate(lax, Err(Rejection::Server(Error::UnauthSession)), None, &vec![RoleManage]).is_ok());
}

#[test]
fn role_edits_in_order() {
    let allow = vec![MessageCreate];
    let deny = vec![MessageDelete];
    // a conflict comes first, even for an edit that changes nothing
    assert!(matches!(
        role_edit_decision(&allow, &deny, &Some(vec![MessageDelete]), &Some(vec![MessageDelete]), false, false, 1, 9, &vec![]),
        Err(Rejection::Api(ErrorCode::PermissionConflict))
    ));
    // an edit that changes nothing is not modified, before the rank check
    assert!(matches!(role_edit_decision(&allow, &deny, &None, &None, false, false, 1, 9, &vec![]), Ok(RoleEdit::NotModified)));
    assert!(matches!(
        role_edit_decision(&allow, &deny, &None, &None, true, false, 1, 9, &vec![]),
        Err(Rejection::Api(ErrorCode::InsufficientRank))
    ));
    assert!(matches!(
        role_edit_decision(&allow, &deny, &Some(vec![MessageCreate, ChannelView]), &None, true, false, 10, 9, &vec![]),
        Err(Rejection::Server(Error::MissingPermissions))
    ));
    assert!(matches!(
        role_edit_decision(&allow, &deny, &Some(vec![MessageCreate, ChannelView]), &None, true, false, 10, 9, &vec![ChannelView]),
        Ok(RoleEdit::Update)
    ));
    assert!(matches!(
        role_edit_decision(&allow, &deny, &None, &Some(vec![]), true, true, 1, 9, &vec![MessageDelete]),
        Ok(RoleEdit::Update)
    ));
}
