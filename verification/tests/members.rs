use lamprey_backend::error::{Error, ErrorCode, Rejection};
use lamprey_backend::member::{
    ban_active, ban_decision, bridge_gate, bridge_put_needs, bulk_ban_decision, contains_id,
    id_difference, join_put_needs, kick_decision, public_join_plan, member_list_needs, member_update_decision, member_update_plan, MemberUpdate, mfa_gate,
    public_join_gate, quarantine_write, role_diff, role_rank_check, timeout_rank_gate, BanTarget, MemberPatch,
    MemberPut, MemberState, ModerationFacts,
};
use lamprey_backend::perms::Permission;

fn facts(auth: u128, target: u128, owner: Option<u128>, rank: u64, other: u64) -> ModerationFacts {
    ModerationFacts { auth_id: auth, target_id: target, is_server_room: false, owner_id: owner, rank, other_rank: other }
}

fn empty_put() -> MemberPut {
    MemberPut { mute: None, deaf: None, override_name: None, roles: None }
}

fn member(mute: bool, deaf: bool, name: Option<&str>) -> MemberState {
    MemberState { mute, deaf, override_name: name.map(|s| s.to_string()), roles: vec![] }
}

#[test]
fn bans_expire() {
    assert!(ban_active(None, 100));
    assert!(ban_active(Some(101), 100));
    assert!(!ban_active(Some(100), 100));
}

#[test]
fn mfa_requirement() {
    assert!(mfa_gate(false, None).is_ok());
    assert!(mfa_gate(true, Some(true)).is_ok());
    assert!(matches!(mfa_gate(true, Some(false)), Err(Rejection::Api(ErrorCode::MfaRequired))));
    assert!(matches!(mfa_gate(true, None), Err(Rejection::Api(ErrorCode::MfaRequired))));
}

#[test]
fn joining_a_public_room() {
    assert!(public_join_gate(true, None, 0, &empty_put()).is_ok());
    assert!(matches!(
        public_join_gate(false, None, 0, &empty_put()),
        Err(Rejection::Api(ErrorCode::GuestsCannotJoinPublicRooms))
    ));
    assert!(matches!(
        public_join_gate(true, Some(None), 0, &empty_put()),
        Err(Rejection::Api(ErrorCode::YouAreBanned))
    ));
    assert!(public_join_gate(true, Some(Some(5)), 10, &empty_put()).is_ok());
    let mut put = empty_put();
    put.roles = Some(vec![9]);
    assert!(matches!(
        public_join_gate(true, None, 0, &put),
        Err(Rejection::Api(ErrorCode::CannotAddRolesToYourself))
    ));
    put.roles = Some(vec![]);
    assert!(public_join_gate(true, None, 0, &put).is_ok());
}

#[test]
fn bridges_and_puppets() {
    assert!(bridge_gate(true, true, true, true).is_ok());
    assert!(matches!(bridge_gate(false, true, true, true), Err(Rejection::Api(ErrorCode::CantAddThatUser))));
    assert!(matches!(bridge_gate(true, false, true, true), Err(Rejection::Api(ErrorCode::OnlyBotsCanUseThis))));
    assert!(matches!(bridge_gate(true, true, false, true), Err(Rejection::Api(ErrorCode::BotIsNotABridge))));
    assert!(matches!(bridge_gate(true, true, true, false), Err(Rejection::Api(ErrorCode::NotPuppetOwner))));
}

#[test]
fn bridge_needs_for_new_and_existing_members() {
    let mut put = empty_put();
    put.mute = Some(true);
    put.override_name = Some("nick".to_string());
    assert_eq!(
        bridge_put_needs(None, &put),
        vec![Permission::IntegrationsBridge, Permission::VoiceMute, Permission::MemberNicknameManage]
    );
    let existing = member(true, false, Some("nick"));
    assert_eq!(bridge_put_needs(Some(&existing), &put), vec![Permission::IntegrationsBridge]);
    put.deaf = Some(true);
    put.roles = Some(vec![1]);
    assert_eq!(
        bridge_put_needs(Some(&existing), &put),
        vec![Permission::IntegrationsBridge, Permission::VoiceDeafen, Permission::RoleApply]
    );
}

#[test]
fn role_sets() {
    assert!(contains_id(&vec![1, 2, 3], 2));
    assert!(!contains_id(&vec![], 2));
    assert_eq!(id_difference(&vec![1, 2, 2, 3, 1], &vec![3]), vec![1, 2]);
    let (removed, added) = role_diff(&vec![1, 2, 3], &vec![3, 4, 4]);
    assert_eq!(removed, vec![1, 2]);
    assert_eq!(added, vec![4]);
}

#[test]
fn member_role_ranks() {
    assert!(role_rank_check(&vec![1, 2], &vec![3], 4).is_ok());
    assert!(matches!(
        role_rank_check(&vec![4], &vec![], 4),
        Err(Rejection::Api(ErrorCode::CannotRemoveRoleAboveYourRole))
    ));
    assert!(matches!(
        role_rank_check(&vec![], &vec![1, 9], 4),
        Err(Rejection::Api(ErrorCode::CannotAddRoleAboveYourRole))
    ));
    // removals are checked first
    assert!(matches!(
        role_rank_check(&vec![9], &vec![9], 4),
        Err(Rejection::Api(ErrorCode::CannotRemoveRoleAboveYourRole))
    ));
}

#[test]
fn member_update_needs() {
    let start = member(false, false, Some("old"));
    let patch = MemberPatch {
        mute: Some(true),
        deaf: Some(false),
        override_name: Some(Some("new".to_string())),
        timeout_until: Some(Some(50)),
        roles: Some(vec![]),
    };
    let plan = member_update_plan(&start, None, &patch, false);
    assert_eq!(
        plan.needs,
        vec![
            Permission::VoiceMute,
            Permission::MemberNicknameManage,
            Permission::MemberTimeout,
            Permission::RoleApply
        ]
    );
    assert!(plan.timeout_changes);
    let own = member_update_plan(&start, Some(50), &patch, true);
    assert_eq!(own.needs, vec![Permission::VoiceMute, Permission::MemberNickname, Permission::RoleApply]);
    assert!(!own.timeout_changes);
    let nothing = MemberPatch { mute: Some(false), deaf: None, override_name: Some(Some("old".to_string())), timeout_until: None, roles: None };
    assert!(member_update_plan(&start, None, &nothing, false).needs.is_empty());
}

#[test]
fn timeouts_follow_rank() {
    assert!(timeout_rank_gate(false, 5, 4).is_ok());
    assert!(timeout_rank_gate(true, 1, 4).is_ok());
    assert!(matches!(timeout_rank_gate(false, 4, 4), Err(Rejection::Api(ErrorCode::InsufficientRank))));
}

#[test]
fn kicks() {
    // kicking someone ranked below, with the permission
    assert!(kick_decision(facts(1, 2, Some(9), 5, 4), true).is_ok());
    assert!(matches!(kick_decision(facts(1, 2, Some(9), 5, 4), false), Err(Rejection::Server(Error::MissingPermissions))));
    assert!(matches!(kick_decision(facts(1, 2, Some(9), 4, 4), true), Err(Rejection::Api(ErrorCode::InsufficientRank))));
    // the owner kicks regardless of rank
    assert!(kick_decision(facts(9, 2, Some(9), 0, 4), true).is_ok());
    // the owner cannot be kicked, nor leave
    assert!(matches!(kick_decision(facts(1, 9, Some(9), 9, 0), true), Err(Rejection::Api(ErrorCode::RoomOwnerCannotLeave))));
    assert!(matches!(kick_decision(facts(9, 9, Some(9), 0, 0), false), Err(Rejection::Api(ErrorCode::RoomOwnerCannotLeave))));
    // leaving needs no permission and no rank
    assert!(kick_decision(facts(3, 3, Some(9), 0, 7), false).is_ok());
    let mut server = facts(3, 3, None, 0, 0);
    server.is_server_room = true;
    assert!(matches!(kick_decision(server, true), Err(Rejection::Api(ErrorCode::CannotKickFromServerRoom))));
}

#[test]
fn bans() {
    assert!(ban_decision(facts(1, 2, Some(9), 5, 4), true, true).is_ok());
    assert!(matches!(ban_decision(facts(1, 2, Some(9), 5, 4), false, true), Err(Rejection::Server(Error::MissingPermissions))));
    assert!(matches!(ban_decision(facts(1, 2, Some(9), 4, 4), true, true), Err(Rejection::Api(ErrorCode::InsufficientRank))));
    // a user who is not a member can be banned whatever their rank
    assert!(ban_decision(facts(1, 2, Some(9), 0, 4), true, false).is_ok());
    assert!(matches!(ban_decision(facts(9, 9, Some(9), 0, 0), true, true), Err(Rejection::Api(ErrorCode::CannotBanRoomOwner))));
    let mut server = facts(1, 2, None, 9, 0);
    server.is_server_room = true;
    assert!(matches!(ban_decision(server, true, true), Err(Rejection::Api(ErrorCode::CannotKickFromServerRoom))));
}

#[test]
fn bulk_bans() {
    let low = BanTarget { is_member: true, rank: 1 };
    let high = BanTarget { is_member: true, rank: 5 };
    let outsider = BanTarget { is_member: false, rank: 9 };
    assert!(bulk_ban_decision(true, false, false, 5, &vec![low, outsider]).is_ok());
    assert!(matches!(
        bulk_ban_decision(true, false, false, 5, &vec![low, high]),
        Err(Rejection::Api(ErrorCode::InsufficientRankToManageUser))
    ));
    assert!(bulk_ban_decision(true, false, true, 0, &vec![low, high]).is_ok());
    assert!(matches!(bulk_ban_decision(false, false, true, 0, &vec![]), Err(Rejection::Server(Error::MissingPermissions))));
    assert!(matches!(bulk_ban_decision(true, true, true, 0, &vec![]), Err(Rejection::Api(ErrorCode::CannotKickFromServerRoom))));
}

#[test]
fn a_bulk_ban_of_one_decides_like_a_ban() {
    // one member target, neither side the owner: both compare ranks the same way
    for (rank, other) in [(5u64, 4u64), (4, 4), (3, 4)] {
        let single = ban_decision(facts(1, 2, Some(9), rank, other), true, true).is_ok();
        let bulk = bulk_ban_decision(true, false, false, rank, &vec![BanTarget { is_member: true, rank: other }]).is_ok();
        assert_eq!(single, bulk);
    }
}

#[test]
fn listing_the_server_room() {
    assert_eq!(member_list_needs(true), vec![Permission::ServerOversee]);
    assert!(member_list_needs(false).is_empty());
}

#[test]
fn joining_public_rooms_needs() {
    let put = MemberPut { mute: Some(true), deaf: Some(false), override_name: Some("me".to_string()), roles: None };
    assert_eq!(
        join_put_needs(None, &put),
        vec![Permission::VoiceMute, Permission::MemberNickname]
    );
    let start = member(true, false, Some("me"));
    assert_eq!(join_put_needs(Some(&start), &put), Vec::<Permission>::new());
    let start = member(false, true, None);
    assert_eq!(
        join_put_needs(Some(&start), &put),
        vec![Permission::VoiceMute, Permission::VoiceDeafen, Permission::MemberNickname]
    );
    assert_eq!(join_put_needs(None, &empty_put()), Vec::<Permission>::new());
}

#[test]
fn automod_scan_sets_quarantine() {
    assert_eq!(quarantine_write(true, false), Some(true));
    assert_eq!(quarantine_write(true, true), Some(true));
    assert_eq!(quarantine_write(false, true), Some(false));
    assert_eq!(quarantine_write(false, false), None);
}

#[test]
fn public_join_plans() {
    let put = MemberPut { mute: None, deaf: None, override_name: Some("me".to_string()), roles: None };
    assert!(matches!(
        public_join_plan(false, None, 0, None, &put),
        Err(Rejection::Api(ErrorCode::GuestsCannotJoinPublicRooms))
    ));
    assert!(matches!(
        public_join_plan(true, Some(Some(10)), 5, None, &put),
        Err(Rejection::Api(ErrorCode::YouAreBanned))
    ));
    let with_roles = MemberPut { mute: None, deaf: None, override_name: None, roles: Some(vec![3]) };
    assert!(matches!(
        public_join_plan(true, None, 5, None, &with_roles),
        Err(Rejection::Api(ErrorCode::CannotAddRolesToYourself))
    ));
    let plan = public_join_plan(true, Some(Some(4)), 5, None, &put).ok().unwrap();
    assert!(plan.is_new_join);
    assert_eq!(plan.needs, vec![Permission::MemberNickname]);
    let start = member(false, false, Some("me"));
    let plan = public_join_plan(true, None, 5, Some(&start), &put).ok().unwrap();
    assert!(!plan.is_new_join);
    assert!(plan.needs.is_empty());
}

#[test]
fn unchanged_member_patches_stop_first() {
    let start = member(true, false, None);
    let patch = MemberPatch { mute: Some(true), deaf: None, override_name: None, timeout_until: None, roles: Some(vec![]) };
    // the patch's own change test says nothing changes: no needs at all
    assert!(matches!(member_update_decision(false, &start, None, &patch, false), MemberUpdate::Unchanged));
    match member_update_decision(true, &start, None, &patch, false) {
        MemberUpdate::Update(p) => assert_eq!(p.needs, vec![Permission::RoleApply]),
        MemberUpdate::Unchanged => panic!("expected an update"),
    }
}
