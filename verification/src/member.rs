use vstd::prelude::*;

use crate::error::{Error, ErrorCode, Rejection};
use crate::perms::Permission;
use crate::text::{opt_string_eq, opt_view};

verus! {

/// A room member as stored.
pub struct MemberState {
    pub mute: bool,
    pub deaf: bool,
    pub override_name: Option<String>,
    pub roles: Vec<u128>,
}

/// The fields a client sets when adding a member (absent fields are left as they are).
pub struct MemberPut {
    pub mute: Option<bool>,
    pub deaf: Option<bool>,
    pub override_name: Option<String>,
    pub roles: Option<Vec<u128>>,
}

/// The fields a client changes when updating a member; `Some(None)` clears a field.
pub struct MemberPatch {
    pub mute: Option<bool>,
    pub deaf: Option<bool>,
    pub override_name: Option<Option<String>>,
    /// Timeout end, nanoseconds since the epoch.
    pub timeout_until: Option<Option<i128>>,
    pub roles: Option<Vec<u128>>,
}

pub open spec fn changes_bool(req: Option<bool>, cur: bool) -> bool {
    req matches Some(m) && m != cur
}

/// Whether a ban (ending at `expires_at`, or never) still holds at `now`.
pub open spec fn spec_ban_active(expires_at: Option<i128>, now: i128) -> bool {
    match expires_at {
        Some(t) => t > now,
        None => true,
    }
}

/// Whether a ban still holds: it holds forever without an end, else until its end.
pub fn ban_active(expires_at: Option<i128>, now: i128) -> (res: bool)
    ensures
        res == spec_ban_active(expires_at, now),
{
    match expires_at {
        Some(t) => t > now,
        None => true,
    }
}

pub open spec fn spec_mfa_gate(require_mfa: bool, totp_enabled: Option<bool>) -> Result<
    (),
    Rejection,
> {
    if require_mfa && !(totp_enabled == Some(true)) {
        Err(Rejection::Api(ErrorCode::MfaRequired))
    } else {
        Ok(())
    }
}

/// A room that requires multi-factor authentication refuses users without
/// an enabled TOTP (`totp_enabled` is `None` when none was set up).
pub fn mfa_gate(require_mfa: bool, totp_enabled: Option<bool>) -> (res: Result<(), Rejection>)
    ensures
        res == spec_mfa_gate(require_mfa, totp_enabled),
{
    if require_mfa {
        let enabled = match totp_enabled {
            Some(e) => e,
            None => false,
        };
        if !enabled {
            return Err(Rejection::Api(ErrorCode::MfaRequired));
        }
    }
    Ok(())
}

pub open spec fn spec_public_join_gate(
    registered: bool,
    ban: Option<Option<i128>>,
    now: i128,
    put_roles_nonempty: bool,
) -> Result<(), Rejection> {
    if !registered {
        Err(Rejection::Api(ErrorCode::GuestsCannotJoinPublicRooms))
    } else if ban matches Some(e) && spec_ban_active(e, now) {
        Err(Rejection::Api(ErrorCode::YouAreBanned))
    } else if put_roles_nonempty {
        Err(Rejection::Api(ErrorCode::CannotAddRolesToYourself))
    } else {
        Ok(())
    }
}

/// Whether a user may join a public room by themself: guests may not,
/// a user under a ban (`ban` holds its end) may not, and nobody may give
/// themself roles on joining.
pub fn public_join_gate(registered: bool, ban: Option<Option<i128>>, now: i128, put: &MemberPut) -> (res:
    Result<(), Rejection>)
    ensures
        res == spec_public_join_gate(
            registered,
            ban,
            now,
            put.roles matches Some(r) && r@.len() > 0,
        ),
{
    if !registered {
        return Err(Rejection::Api(ErrorCode::GuestsCannotJoinPublicRooms));
    }
    if let Some(e) = ban {
        if ban_active(e, now) {
            return Err(Rejection::Api(ErrorCode::YouAreBanned));
        }
    }
    if let Some(r) = &put.roles {
        if r.len() > 0 {
            return Err(Rejection::Api(ErrorCode::CannotAddRolesToYourself));
        }
    }
    Ok(())
}

pub open spec fn name_changes_put(put: Option<String>, cur: Option<String>) -> bool {
    put is Some && opt_view(put) != opt_view(cur)
}

/// The permissions that a bridge needs to add a puppet user with `put`,
/// given the member as it stands (`None` for a new member).
pub open spec fn spec_bridge_put_needs(existing: Option<(bool, bool, Option<Seq<char>>)>, put_mute:
    Option<bool>, put_deaf: Option<bool>, put_name: Option<Seq<char>>, put_roles: bool) -> Seq<
    Permission,
> {
    let base = seq![Permission::IntegrationsBridge];
    let a = match existing {
        Some((mute, deaf, name)) => {
            let s1 = if changes_bool(put_mute, mute) {
                base.push(Permission::VoiceMute)
            } else {
                base
            };
            let s2 = if changes_bool(put_deaf, deaf) {
                s1.push(Permission::VoiceDeafen)
            } else {
                s1
            };
            if put_name is Some && put_name != name {
                s2.push(Permission::MemberNicknameManage)
            } else {
                s2
            }
        },
        None => {
            let s1 = if put_mute == Some(true) {
                base.push(Permission::VoiceMute)
            } else {
                base
            };
            let s2 = if put_deaf == Some(true) {
                s1.push(Permission::VoiceDeafen)
            } else {
                s1
            };
            if put_name is Some {
                s2.push(Permission::MemberNicknameManage)
            } else {
                s2
            }
        },
    };
    if put_roles {
        a.push(Permission::RoleApply)
    } else {
        a
    }
}

pub open spec fn member_summary(m: &MemberState) -> (bool, bool, Option<Seq<char>>) {
    (m.mute, m.deaf, opt_view(m.override_name))
}

/// The permissions that a bridge bot needs to add (or update) a puppet
/// user in a room: bridging itself; muting or deafening where that changes
/// (or, for a new member, where it is set); managing nicknames where the
/// nickname is set to something else; applying roles where roles are given.
pub fn bridge_put_needs(existing: Option<&MemberState>, put: &MemberPut) -> (res: Vec<
    Permission,
>)
    ensures
        res@ == spec_bridge_put_needs(
            match existing {
                Some(m) => Some(member_summary(m)),
                None => None,
            },
            put.mute,
            put.deaf,
            opt_view(put.override_name),
            put.roles is Some,
        ),
{
    let mut needs: Vec<Permission> = Vec::new();
    needs.push(Permission::IntegrationsBridge);
    match existing {
        Some(start) => {
            if let Some(m) = put.mute {
                if m != start.mute {
                    needs.push(Permission::VoiceMute);
                }
            }
            if let Some(d) = put.deaf {
                if d != start.deaf {
                    needs.push(Permission::VoiceDeafen);
                }
            }
            if put.override_name.is_some() && !opt_string_eq(&put.override_name, &start.override_name) {
                needs.push(Permission::MemberNicknameManage);
            }
        },
        None => {
            if put.mute == Some(true) {
                needs.push(Permission::VoiceMute);
            }
            if put.deaf == Some(true) {
                needs.push(Permission::VoiceDeafen);
            }
            if put.override_name.is_some() {
                needs.push(Permission::MemberNicknameManage);
            }
        },
    }
    if put.roles.is_some() {
        needs.push(Permission::RoleApply);
    }
    needs
}

pub open spec fn spec_bridge_gate(
    target_is_puppet: bool,
    auth_is_bot: bool,
    app_is_bridge: bool,
    puppet_owner_is_auth: bool,
) -> Result<(), Rejection> {
    if !target_is_puppet {
        Err(Rejection::Api(ErrorCode::CantAddThatUser))
    } else if !auth_is_bot {
        Err(Rejection::Api(ErrorCode::OnlyBotsCanUseThis))
    } else if !app_is_bridge {
        Err(Rejection::Api(ErrorCode::BotIsNotABridge))
    } else if !puppet_owner_is_auth {
        Err(Rejection::Api(ErrorCode::NotPuppetOwner))
    } else {
        Ok(())
    }
}

/// Who may add a user to a room other than themself: only a puppet user, only
/// by a bot, only by a bot whose application is a bridge, and only by the
/// bot that owns the puppet.
pub fn bridge_gate(
    target_is_puppet: bool,
    auth_is_bot: bool,
    app_is_bridge: bool,
    puppet_owner_is_auth: bool,
) -> (res: Result<(), Rejection>)
    ensures
        res == spec_bridge_gate(target_is_puppet, auth_is_bot, app_is_bridge, puppet_owner_is_auth),
{
    if !target_is_puppet {
        return Err(Rejection::Api(ErrorCode::CantAddThatUser));
    }
    if !auth_is_bot {
        return Err(Rejection::Api(ErrorCode::OnlyBotsCanUseThis));
    }
    if !app_is_bridge {
        return Err(Rejection::Api(ErrorCode::BotIsNotABridge));
    }
    if !puppet_owner_is_auth {
        return Err(Rejection::Api(ErrorCode::NotPuppetOwner));
    }
    Ok(())
}

/// Whether `x` occurs in `v`.
pub fn contains_id(v: &Vec<u128>, x: u128) -> (res: bool)
    ensures
        res == v@.contains(x),
{
    let mut i: usize = 0;
    while i < v.len()
        invariant
            i <= v.len(),
            forall|j: int| 0 <= j < i ==> v@[j] != x,
        decreases v.len() - i,
    {
        if v[i] == x {
            return true;
        }
        i = i + 1;
    }
    false
}

/// The ids in `a` that are not in `b`, each once, in the order they first occur in `a`.
pub fn id_difference(a: &Vec<u128>, b: &Vec<u128>) -> (res: Vec<u128>)
    ensures
        res@.no_duplicates(),
        forall|x: u128| res@.contains(x) <==> a@.contains(x) && !b@.contains(x),
{
    let mut res: Vec<u128> = Vec::new();
    let mut i: usize = 0;
    while i < a.len()
        invariant
            i <= a.len(),
            res@.no_duplicates(),
            forall|x: u128| res@.contains(x) <==> a@.take(i as int).contains(x) && !b@.contains(x),
        decreases a.len() - i,
    {
        let x = a[i];
        let ghost prev = res@;
        if !contains_id(b, x) && !contains_id(&res, x) {
            res.push(x);
            proof {
                assert forall|y: u128| res@.contains(y) implies prev.contains(y) || y == x by {
                    if res@.contains(y) {
                        let k = choose|k: int| 0 <= k < res@.len() && res@[k] == y;
                        if k < prev.len() {
                            assert(prev[k] == y);
                        }
                    }
                }
                assert(res@[prev.len() as int] == x);
                assert forall|y: u128| prev.contains(y) implies res@.contains(y) by {
                    let k = choose|k: int| 0 <= k < prev.len() && prev[k] == y;
                    assert(res@[k] == y);
                }
            }
        }
        proof {
            let t0 = a@.take(i as int);
            let t1 = a@.take(i + 1);
            assert(t1 =~= t0.push(x));
            assert forall|y: u128| t1.contains(y) <==> t0.contains(y) || y == x by {
                if t1.contains(y) {
                    let k = choose|k: int| 0 <= k < t1.len() && #[trigger] t1[k] == y;
                    if k < t0.len() {
                        assert(t0[k] == y);
                    }
                }
                if t0.contains(y) {
                    let k = choose|k: int| 0 <= k < t0.len() && #[trigger] t0[k] == y;
                    assert(t1[k] == y);
                }
                if y == x {
                    assert(t1[t0.len() as int] == y);
                }
            }
            assert forall|y: u128| res@.contains(y) <==> t1.contains(y) && !b@.contains(y) by {
                if y != x {
                    assert(res@.contains(y) <==> prev.contains(y));
                }
            }
        }
        i = i + 1;
    }
    proof {
        assert(a@.take(a@.len() as int) =~= a@);
    }
    res
}

/// The roles that an update removes and adds: those held before and not
/// after, and those held after and not before.
pub fn role_diff(old: &Vec<u128>, new: &Vec<u128>) -> (res: (Vec<u128>, Vec<u128>))
    ensures
        res.0@.no_duplicates(),
        res.1@.no_duplicates(),
        forall|x: u128| res.0@.contains(x) <==> old@.contains(x) && !new@.contains(x),
        forall|x: u128| res.1@.contains(x) <==> new@.contains(x) && !old@.contains(x),
{
    (id_difference(old, new), id_difference(new, old))
}

pub open spec fn any_at_or_above(positions: Seq<u64>, rank: u64) -> bool {
    exists|i: int| 0 <= i < positions.len() && positions[i] >= rank
}

pub open spec fn spec_role_rank_check(removed: Seq<u64>, added: Seq<u64>, rank: u64) -> Result<
    (),
    Rejection,
> {
    if any_at_or_above(removed, rank) {
        Err(Rejection::Api(ErrorCode::CannotRemoveRoleAboveYourRole))
    } else if any_at_or_above(added, rank) {
        Err(Rejection::Api(ErrorCode::CannotAddRoleAboveYourRole))
    } else {
        Ok(())
    }
}

fn first_at_or_above(positions: &Vec<u64>, rank: u64) -> (res: bool)
    ensures
        res == any_at_or_above(positions@, rank),
{
    let mut i: usize = 0;
    while i < positions.len()
        invariant
            i <= positions.len(),
            forall|j: int| 0 <= j < i ==> positions@[j] < rank,
        decreases positions.len() - i,
    {
        if positions[i] >= rank {
            return true;
        }
        i = i + 1;
    }
    false
}

/// A user may only remove or add roles that stand below their own rank:
/// `removed` and `added` hold the positions of the roles removed and added.
pub fn role_rank_check(removed: &Vec<u64>, added: &Vec<u64>, rank: u64) -> (res: Result<
    (),
    Rejection,
>)
    ensures
        res == spec_role_rank_check(removed@, added@, rank),
{
    if first_at_or_above(removed, rank) {
        return Err(Rejection::Api(ErrorCode::CannotRemoveRoleAboveYourRole));
    }
    if first_at_or_above(added, rank) {
        return Err(Rejection::Api(ErrorCode::CannotAddRoleAboveYourRole));
    }
    Ok(())
}

/// Whether the acting user outranks the target: the room's owner always
/// does; anyone else needs a strictly higher rank.
pub open spec fn spec_outranks(auth_is_owner: bool, rank: u64, other_rank: u64) -> bool {
    auth_is_owner || rank > other_rank
}

/// The permissions that updating a member with `patch` needs: muting,
/// deafening, nicknames (one's own or another's), timeouts and roles, each
/// only where the patch changes it.
pub open spec fn spec_update_needs(start: (bool, bool, Option<Seq<char>>, Option<i128>), patch_mute:
    Option<bool>, patch_deaf: Option<bool>, patch_name: Option<Option<Seq<char>>>, patch_timeout:
    Option<Option<i128>>, patch_roles: bool, is_self: bool) -> Seq<Permission> {
    let s1 = if changes_bool(patch_mute, start.0) {
        seq![Permission::VoiceMute]
    } else {
        Seq::empty()
    };
    let s2 = if changes_bool(patch_deaf, start.1) {
        s1.push(Permission::VoiceDeafen)
    } else {
        s1
    };
    let s3 = if patch_name matches Some(n) && n != start.2 {
        s2.push(
            if is_self {
                Permission::MemberNickname
            } else {
                Permission::MemberNicknameManage
            },
        )
    } else {
        s2
    };
    let s4 = if patch_timeout matches Some(t) && t != start.3 {
        s3.push(Permission::MemberTimeout)
    } else {
        s3
    };
    if patch_roles {
        s4.push(Permission::RoleApply)
    } else {
        s4
    }
}

/// What updating a member needs, field by field: changing the mute flag
/// needs `VoiceMute`, changing the deaf flag `VoiceDeafen`, changing a
/// nickname `MemberNickname` for one's own and `MemberNicknameManage` for
/// someone else's, changing the timeout `MemberTimeout`, and giving roles
/// `RoleApply`; and each of these is needed only when its field changes. A
/// field that the patch leaves out, or sets to what it already is, needs
/// nothing.
pub proof fn law_update_needs_by_field(
    start: (bool, bool, Option<Seq<char>>, Option<i128>),
    patch_mute: Option<bool>,
    patch_deaf: Option<bool>,
    patch_name: Option<Option<Seq<char>>>,
    patch_timeout: Option<Option<i128>>,
    patch_roles: bool,
    is_self: bool,
)
    ensures
        ({
            let needs = spec_update_needs(
                start,
                patch_mute,
                patch_deaf,
                patch_name,
                patch_timeout,
                patch_roles,
                is_self,
            );
            let name_changes = patch_name matches Some(n) && n != start.2;
            &&& needs.contains(Permission::VoiceMute) <==> (patch_mute matches Some(m) && m
                != start.0)
            &&& needs.contains(Permission::VoiceDeafen) <==> (patch_deaf matches Some(d) && d
                != start.1)
            &&& needs.contains(Permission::MemberNickname) <==> name_changes && is_self
            &&& needs.contains(Permission::MemberNicknameManage) <==> name_changes && !is_self
            &&& needs.contains(Permission::MemberTimeout) <==> (patch_timeout matches Some(t) && t
                != start.3)
            &&& needs.contains(Permission::RoleApply) <==> patch_roles
            &&& forall|p: Permission|
                needs.contains(p) ==> p == Permission::VoiceMute || p == Permission::VoiceDeafen
                    || p == Permission::MemberNickname || p == Permission::MemberNicknameManage
                    || p == Permission::MemberTimeout || p == Permission::RoleApply
        }),
{
    broadcast use vstd::seq_lib::group_seq_properties;

    let e = Seq::<Permission>::empty();
    assert(!e.contains(Permission::VoiceMute));
}

pub open spec fn opt_opt_view(a: Option<Option<String>>) -> Option<Option<Seq<char>>> {
    match a {
        Some(x) => Some(opt_view(x)),
        None => None,
    }
}

/// What updating a member needs and checks.
pub struct MemberUpdatePlan {
    /// The permissions the update needs.
    pub needs: Vec<Permission>,
    /// Whether the timeout changes, so that ranks must be compared.
    pub timeout_changes: bool,
}

/// The permissions that a member update needs, and whether it changes the
/// member's timeout. `start_timeout` is the member's current timeout end.
pub fn member_update_plan(
    start: &MemberState,
    start_timeout: Option<i128>,
    patch: &MemberPatch,
    is_self: bool,
) -> (res: MemberUpdatePlan)
    ensures
        res.needs@ == spec_update_needs(
            (start.mute, start.deaf, opt_view(start.override_name), start_timeout),
            patch.mute,
            patch.deaf,
            opt_opt_view(patch.override_name),
            patch.timeout_until,
            patch.roles is Some,
            is_self,
        ),
        res.timeout_changes == (patch.timeout_until matches Some(t) && t != start_timeout),
        res.needs@.contains(Permission::VoiceMute) <==> (patch.mute matches Some(m) && m
            != start.mute),
        res.needs@.contains(Permission::VoiceDeafen) <==> (patch.deaf matches Some(d) && d
            != start.deaf),
        res.needs@.contains(Permission::MemberTimeout) <==> res.timeout_changes,
        res.needs@.contains(Permission::RoleApply) <==> patch.roles is Some,
{
    proof {
        law_update_needs_by_field(
            (start.mute, start.deaf, opt_view(start.override_name), start_timeout),
            patch.mute,
            patch.deaf,
            opt_opt_view(patch.override_name),
            patch.timeout_until,
            patch.roles is Some,
            is_self,
        );
    }
    let mut needs: Vec<Permission> = Vec::new();
    if let Some(m) = patch.mute {
        if m != start.mute {
            needs.push(Permission::VoiceMute);
        }
    }
    if let Some(d) = patch.deaf {
        if d != start.deaf {
            needs.push(Permission::VoiceDeafen);
        }
    }
    if let Some(n) = &patch.override_name {
        if !opt_string_eq(n, &start.override_name) {
            if is_self {
                needs.push(Permission::MemberNickname);
            } else {
                needs.push(Permission::MemberNicknameManage);
            }
        }
    }
    let timeout_changes = match patch.timeout_until {
        Some(t) => t != start_timeout,
        None => false,
    };
    if timeout_changes {
        needs.push(Permission::MemberTimeout);
    }
    if patch.roles.is_some() {
        needs.push(Permission::RoleApply);
    }
    MemberUpdatePlan { needs, timeout_changes }
}

/// What a member update does, once the member as it stands is read.
pub enum MemberUpdate {
    /// The patch changes nothing: the member is answered as it is, with no
    /// permission check, write, audit entry or broadcast.
    Unchanged,
    /// The patch changes something, and needs what the plan says.
    Update(MemberUpdatePlan),
}

/// The first step of a member update: `changes` is whether the patch
/// changes the stored member (the patch's own change test). A patch that
/// changes nothing ends the request there; otherwise the update is planned
/// as `member_update_plan` says.
pub fn member_update_decision(
    changes: bool,
    start: &MemberState,
    start_timeout: Option<i128>,
    patch: &MemberPatch,
    is_self: bool,
) -> (res: MemberUpdate)
    ensures
        !changes ==> res is Unchanged,
        changes ==> (res matches MemberUpdate::Update(p) && p.needs@ == spec_update_needs(
            (start.mute, start.deaf, opt_view(start.override_name), start_timeout),
            patch.mute,
            patch.deaf,
            opt_opt_view(patch.override_name),
            patch.timeout_until,
            patch.roles is Some,
            is_self,
        ) && p.timeout_changes == (patch.timeout_until matches Some(t) && t != start_timeout)),
{
    if !changes {
        return MemberUpdate::Unchanged;
    }
    MemberUpdate::Update(member_update_plan(start, start_timeout, patch, is_self))
}

pub open spec fn spec_timeout_rank_gate(auth_is_owner: bool, rank: u64, other_rank: u64) -> Result<
    (),
    Rejection,
> {
    if spec_outranks(auth_is_owner, rank, other_rank) {
        Ok(())
    } else {
        Err(Rejection::Api(ErrorCode::InsufficientRank))
    }
}

/// Setting another member's timeout needs a higher rank than theirs, unless
/// the acting user owns the room.
pub fn timeout_rank_gate(auth_is_owner: bool, rank: u64, other_rank: u64) -> (res: Result<
    (),
    Rejection,
>)
    ensures
        res == spec_timeout_rank_gate(auth_is_owner, rank, other_rank),
{
    if auth_is_owner || rank > other_rank {
        Ok(())
    } else {
        Err(Rejection::Api(ErrorCode::InsufficientRank))
    }
}

/// The facts about a room and two users that deciding a kick or a ban reads.
#[derive(Clone, Copy, PartialEq, Eq, Structural, Debug)]
pub struct ModerationFacts {
    /// The acting user.
    pub auth_id: u128,
    /// The user acted on.
    pub target_id: u128,
    /// Whether the room is the server's own room.
    pub is_server_room: bool,
    /// The room's owner.
    pub owner_id: Option<u128>,
    /// The acting user's rank.
    pub rank: u64,
    /// The target's rank.
    pub other_rank: u64,
}

pub open spec fn spec_kick(f: ModerationFacts, has_kick: bool) -> Result<(), Rejection> {
    if f.target_id != f.auth_id && !has_kick {
        Err(Rejection::Server(Error::MissingPermissions))
    } else if f.is_server_room {
        Err(Rejection::Api(ErrorCode::CannotKickFromServerRoom))
    } else if f.owner_id == Some(f.target_id) {
        Err(Rejection::Api(ErrorCode::RoomOwnerCannotLeave))
    } else if f.auth_id != f.target_id && f.owner_id != Some(f.auth_id) && f.rank <= f.other_rank {
        Err(Rejection::Api(ErrorCode::InsufficientRank))
    } else {
        Ok(())
    }
}

/// Whether a member may be removed from a room (a kick, or leaving when the
/// target is the acting user): kicking another needs `MemberKick`; nobody
/// leaves the server room; the owner cannot leave or be kicked; and a kick
/// needs a higher rank than the target's unless the acting user owns the room.
pub fn kick_decision(f: ModerationFacts, has_kick: bool) -> (res: Result<(), Rejection>)
    ensures
        res == spec_kick(f, has_kick),
{
    if f.target_id != f.auth_id && !has_kick {
        return Err(Rejection::Server(Error::MissingPermissions));
    }
    if f.is_server_room {
        return Err(Rejection::Api(ErrorCode::CannotKickFromServerRoom));
    }
    if f.owner_id == Some(f.target_id) {
        return Err(Rejection::Api(ErrorCode::RoomOwnerCannotLeave));
    }
    if f.auth_id != f.target_id && f.owner_id != Some(f.auth_id) && f.rank <= f.other_rank {
        return Err(Rejection::Api(ErrorCode::InsufficientRank));
    }
    Ok(())
}

pub open spec fn spec_ban(f: ModerationFacts, has_ban: bool, target_is_member: bool) -> Result<
    (),
    Rejection,
> {
    if !has_ban {
        Err(Rejection::Server(Error::MissingPermissions))
    } else if f.is_server_room {
        Err(Rejection::Api(ErrorCode::CannotKickFromServerRoom))
    } else if target_is_member && f.owner_id != Some(f.auth_id) && f.rank <= f.other_rank {
        Err(Rejection::Api(ErrorCode::InsufficientRank))
    } else if target_is_member && f.owner_id == Some(f.target_id) {
        Err(Rejection::Api(ErrorCode::CannotBanRoomOwner))
    } else {
        Ok(())
    }
}

/// Whether a user may be banned from a room: it needs `MemberBan`; nobody
/// is banned from the server room; and a member can only be banned by a user
/// of higher rank or by the owner, and the owner cannot be banned.
pub fn ban_decision(f: ModerationFacts, has_ban: bool, target_is_member: bool) -> (res: Result<
    (),
    Rejection,
>)
    ensures
        res == spec_ban(f, has_ban, target_is_member),
{
    if !has_ban {
        return Err(Rejection::Server(Error::MissingPermissions));
    }
    if f.is_server_room {
        return Err(Rejection::Api(ErrorCode::CannotKickFromServerRoom));
    }
    if target_is_member {
        if f.owner_id != Some(f.auth_id) && f.rank <= f.other_rank {
            return Err(Rejection::Api(ErrorCode::InsufficientRank));
        }
        if f.owner_id == Some(f.target_id) {
            return Err(Rejection::Api(ErrorCode::CannotBanRoomOwner));
        }
    }
    Ok(())
}

/// One target of a bulk ban: whether they are a member, and their rank.
#[derive(Clone, Copy, PartialEq, Eq, Structural, Debug)]
pub struct BanTarget {
    pub is_member: bool,
    pub rank: u64,
}

pub open spec fn spec_bulk_ban(
    has_ban: bool,
    is_server_room: bool,
    auth_is_owner: bool,
    auth_rank: u64,
    targets: Seq<BanTarget>,
) -> Result<(), Rejection> {
    if !has_ban {
        Err(Rejection::Server(Error::MissingPermissions))
    } else if is_server_room {
        Err(Rejection::Api(ErrorCode::CannotKickFromServerRoom))
    } else if !auth_is_owner && exists|i: int|
        0 <= i < targets.len() && targets[i].is_member && auth_rank <= targets[i].rank {
        Err(Rejection::Api(ErrorCode::InsufficientRankToManageUser))
    } else {
        Ok(())
    }
}

/// Whether a list of users may be banned at once: as for one ban, except
/// that every target who is a member must rank below the acting user
/// unless that user owns the room.
pub fn bulk_ban_decision(
    has_ban: bool,
    is_server_room: bool,
    auth_is_owner: bool,
    auth_rank: u64,
    targets: &Vec<BanTarget>,
) -> (res: Result<(), Rejection>)
    ensures
        res == spec_bulk_ban(has_ban, is_server_room, auth_is_owner, auth_rank, targets@),
{
    if !has_ban {
        return Err(Rejection::Server(Error::MissingPermissions));
    }
    if is_server_room {
        return Err(Rejection::Api(ErrorCode::CannotKickFromServerRoom));
    }
    let mut i: usize = 0;
    while i < targets.len()
        invariant
            i <= targets.len(),
            has_ban,
            !is_server_room,
            !auth_is_owner ==> forall|j: int|
                0 <= j < i ==> !(targets@[j].is_member && auth_rank <= targets@[j].rank),
        decreases targets.len() - i,
    {
        let t = targets[i];
        assert(targets@[i as int] == t);
        if t.is_member && !auth_is_owner && auth_rank <= t.rank {
            assert(exists|j: int|
                0 <= j < targets@.len() && targets@[j].is_member && auth_rank <= targets@[j].rank);
            return Err(Rejection::Api(ErrorCode::InsufficientRankToManageUser));
        }
        i = i + 1;
    }
    Ok(())
}

/// Listing or searching the members of the server's own room needs
/// `ServerOversee`, so that the list of all users is not exposed.
pub fn member_list_needs(is_server_room: bool) -> (res: Vec<Permission>)
    ensures
        is_server_room ==> res@ == seq![Permission::ServerOversee],
        !is_server_room ==> res@ == Seq::<Permission>::empty(),
{
    let mut v: Vec<Permission> = Vec::new();
    if is_server_room {
        v.push(Permission::ServerOversee);
    }
    v
}

/// A kick decided for a user who is neither the owner nor outranked is
/// refused, and one by the owner (who is not the target) of an outranked
/// member is allowed: rank is what decides between members.
pub proof fn law_kick_follows_rank(f: ModerationFacts)
    requires
        f.auth_id != f.target_id,
        !f.is_server_room,
        f.owner_id != Some(f.target_id),
    ensures
        spec_kick(f, true) is Ok <==> spec_outranks(f.owner_id == Some(f.auth_id), f.rank, f.other_rank),
{
}

/// Leaving a room by oneself never needs a permission or a rank: it is
/// refused only in the server room and for the owner.
pub proof fn law_leaving_needs_no_rank(f: ModerationFacts, has_kick: bool)
    requires
        f.auth_id == f.target_id,
    ensures
        spec_kick(f, has_kick) is Ok <==> !f.is_server_room && f.owner_id != Some(f.target_id),
{
}

/// The owner of a room can never be banned from it while a member, nor kicked.
pub proof fn law_owner_is_protected(f: ModerationFacts, has: bool)
    requires
        f.owner_id == Some(f.target_id),
        f.auth_id != f.target_id,
    ensures
        spec_kick(f, has) is Err,
        spec_ban(f, has, true) is Err,
{
}

/// A bulk ban of one user is allowed exactly when a single ban of that user
/// passes its rank check.
pub proof fn law_bulk_ban_of_one_matches_ban(f: ModerationFacts, has_ban: bool, is_member: bool)
    requires
        f.owner_id != Some(f.target_id),
    ensures
        spec_bulk_ban(
            has_ban,
            f.is_server_room,
            f.owner_id == Some(f.auth_id),
            f.rank,
            seq![BanTarget { is_member, rank: f.other_rank }],
        ) is Ok <==> spec_ban(f, has_ban, is_member) is Ok,
{
    let t = seq![BanTarget { is_member, rank: f.other_rank }];
    if has_ban && !f.is_server_room && f.owner_id != Some(f.auth_id) && is_member && f.rank
        <= f.other_rank {
        assert(t[0].is_member && f.rank <= t[0].rank);
    }
}

/// The permissions that joining a public room by oneself needs, given the
/// member as it stands (`None` for a first join): muting or deafening where
/// that changes (or, on a first join, where it is set), and setting one's
/// own nickname where it is set to something else.
pub open spec fn spec_join_put_needs(
    existing: Option<(bool, bool, Option<Seq<char>>)>,
    put_mute: Option<bool>,
    put_deaf: Option<bool>,
    put_name: Option<Seq<char>>,
) -> Seq<Permission> {
    let (mute, deaf, name) = match existing {
        Some((m, d, n)) => (changes_bool(put_mute, m), changes_bool(put_deaf, d), put_name is Some
            && put_name != n),
        None => (put_mute == Some(true), put_deaf == Some(true), put_name is Some),
    };
    let s1 = if mute {
        seq![Permission::VoiceMute]
    } else {
        Seq::<Permission>::empty()
    };
    let s2 = if deaf {
        s1.push(Permission::VoiceDeafen)
    } else {
        s1
    };
    if name {
        s2.push(Permission::MemberNickname)
    } else {
        s2
    }
}

/// The permissions, beyond seeing the room, that a user needs to join a
/// public room by themself with `put` (roles are refused before this, by
/// `public_join_gate`).
pub fn join_put_needs(existing: Option<&MemberState>, put: &MemberPut) -> (res: Vec<Permission>)
    ensures
        res@ == spec_join_put_needs(
            match existing {
                Some(m) => Some(member_summary(m)),
                None => None,
            },
            put.mute,
            put.deaf,
            opt_view(put.override_name),
        ),
{
    let (mute, deaf, name) = match existing {
        Some(start) => {
            let mute = match put.mute {
                Some(m) => m != start.mute,
                None => false,
            };
            let deaf = match put.deaf {
                Some(d) => d != start.deaf,
                None => false,
            };
            let name = put.override_name.is_some() && !opt_string_eq(
                &put.override_name,
                &start.override_name,
            );
            (mute, deaf, name)
        },
        None => (put.mute == Some(true), put.deaf == Some(true), put.override_name.is_some()),
    };
    let mut needs: Vec<Permission> = Vec::new();
    if mute {
        needs.push(Permission::VoiceMute);
    }
    if deaf {
        needs.push(Permission::VoiceDeafen);
    }
    if name {
        needs.push(Permission::MemberNickname);
    }
    proof {
        if mute {
            assert(seq![Permission::VoiceMute] =~= Seq::<Permission>::empty().push(
                Permission::VoiceMute,
            ));
        }
    }
    needs
}

/// What joining a public room by oneself does once its checks pass: the
/// permissions it needs (beyond seeing the room), and whether the user is
/// new to the room (so that the join is announced).
pub struct JoinPlan {
    pub needs: Vec<Permission>,
    pub is_new_join: bool,
}

/// The decision of a self-join of a public room, in the order the server
/// makes it: the checks of `public_join_gate` first, and only when they
/// pass, the plan of what is written. A refused join writes nothing.
pub fn public_join_plan(
    registered: bool,
    ban: Option<Option<i128>>,
    now: i128,
    existing: Option<&MemberState>,
    put: &MemberPut,
) -> (res: Result<JoinPlan, Rejection>)
    ensures
        ({
            let gate = spec_public_join_gate(
                registered,
                ban,
                now,
                put.roles matches Some(r) && r@.len() > 0,
            );
            &&& gate is Err ==> res is Err && res->Err_0 == gate->Err_0
            &&& gate is Ok ==> (res matches Ok(p) && p.is_new_join == existing is None
                && p.needs@ == spec_join_put_needs(
                match existing {
                    Some(m) => Some(member_summary(m)),
                    None => None,
                },
                put.mute,
                put.deaf,
                opt_view(put.override_name),
            ))
        }),
{
    public_join_gate(registered, ban, now, put)?;
    let needs = join_put_needs(existing, put);
    Ok(JoinPlan { needs, is_new_join: existing.is_none() })
}

pub open spec fn spec_quarantine_write(block: bool, quarantined: bool) -> Option<bool> {
    if block {
        Some(true)
    } else if quarantined {
        Some(false)
    } else {
        None
    }
}

/// What the server writes after automod scans a member that was just added
/// or updated: a scan that asks to block quarantines the member; otherwise
/// a quarantined member is released; otherwise nothing is written (and the
/// member is not read again).
pub fn quarantine_write(block: bool, quarantined: bool) -> (res: Option<bool>)
    ensures
        res == spec_quarantine_write(block, quarantined),
{
    if block {
        Some(true)
    } else if quarantined {
        Some(false)
    } else {
        None
    }
}

/// After automod has scanned a member, the member is quarantined exactly
/// when the scan asked to block, whatever their state before.
pub proof fn law_scan_decides_quarantine(block: bool, quarantined: bool)
    ensures
        (match spec_quarantine_write(block, quarantined) {
            Some(q) => q,
            None => quarantined,
        }) == block,
{
}

/// A ban holds at a time exactly when it has no end or ends later.
pub proof fn law_ban_holds_until_its_end(expires_at: Option<i128>, now: i128)
    ensures
        spec_ban_active(None, now),
        !spec_ban_active(Some(now), now),
        expires_at matches Some(t) ==> (spec_ban_active(expires_at, now) <==> now < t),
{
}

/// A room that requires multi-factor authentication lets through exactly
/// the users whose TOTP is enabled; a room that does not lets everyone.
pub proof fn law_mfa_requirement(require_mfa: bool, totp_enabled: Option<bool>)
    ensures
        spec_mfa_gate(require_mfa, totp_enabled) is Ok <==> !require_mfa || totp_enabled == Some(
            true,
        ),
        spec_mfa_gate(require_mfa, totp_enabled) is Err ==> spec_mfa_gate(require_mfa, totp_enabled)
            == Err::<(), Rejection>(Rejection::Api(ErrorCode::MfaRequired)),
{
}

/// Joining a public room by oneself succeeds exactly for a registered user
/// who is not banned at that time (no ban, or one that has ended) and asks
/// for no roles.
pub proof fn law_public_join(registered: bool, ban: Option<Option<i128>>, now: i128, roles: bool)
    ensures
        spec_public_join_gate(registered, ban, now, roles) is Ok <==> registered && (ban is None
            || (ban matches Some(Some(t)) && t <= now)) && !roles,
        registered && (ban == Some(None::<i128>) || (ban matches Some(Some(t)) && t > now))
            ==> spec_public_join_gate(registered, ban, now, roles) == Err::<(), Rejection>(
            Rejection::Api(ErrorCode::YouAreBanned),
        ),
{
}

/// A bot adds a user to a room only when the user is a puppet, the bot's
/// application is a bridge, and the puppet belongs to that bot.
pub proof fn law_bridges_add_their_own_puppets(a: bool, b: bool, c: bool, d: bool)
    ensures
        spec_bridge_gate(a, b, c, d) is Ok <==> a && b && c && d,
{
}

/// Changing a member's roles needs every role removed and every role added
/// to sit below the acting user's rank.
pub proof fn law_roles_below_rank(removed: Seq<u64>, added: Seq<u64>, rank: u64)
    ensures
        spec_role_rank_check(removed, added, rank) is Ok <==> (forall|i: int|
            0 <= i < removed.len() ==> removed[i] < rank) && (forall|i: int|
            0 <= i < added.len() ==> added[i] < rank),
{
    if !(forall|i: int| 0 <= i < removed.len() ==> removed[i] < rank) {
        let i = choose|i: int| !(0 <= i < removed.len() ==> removed[i] < rank);
        assert(any_at_or_above(removed, rank));
    }
    if !(forall|i: int| 0 <= i < added.len() ==> added[i] < rank) {
        let i = choose|i: int| !(0 <= i < added.len() ==> added[i] < rank);
        assert(any_at_or_above(added, rank));
    }
}

/// What a kick and a ban need, stated plainly: removing someone else needs
/// the matching permission; nothing happens in the server room; a kick that
/// passes never touches the owner and, against someone else, is made by the
/// owner or by a strictly higher rank; a ban that passes against a member is
/// made by the owner or a strictly higher rank, and never against the owner.
pub proof fn law_kicks_and_bans(f: ModerationFacts, permitted: bool, is_member: bool)
    ensures
        f.auth_id != f.target_id && !permitted ==> spec_kick(f, permitted) == Err::<(), Rejection>(
            Rejection::Server(Error::MissingPermissions),
        ),
        !permitted ==> spec_ban(f, permitted, is_member) == Err::<(), Rejection>(
            Rejection::Server(Error::MissingPermissions),
        ),
        f.is_server_room ==> spec_kick(f, permitted) is Err && spec_ban(f, permitted, is_member) is Err,
        spec_kick(f, permitted) is Ok ==> f.owner_id != Some(f.target_id) && (f.auth_id == f.target_id || (
        permitted && (f.owner_id == Some(f.auth_id) || f.rank > f.other_rank))),
        spec_ban(f, permitted, is_member) is Ok ==> permitted && !f.is_server_room && (is_member ==> (f.owner_id
            == Some(f.auth_id) || f.rank > f.other_rank) && f.owner_id != Some(f.target_id)),
        permitted && !f.is_server_room && !is_member ==> spec_ban(f, permitted, is_member) is Ok,
{
}

/// A bulk ban passes exactly when the user may ban, outside the server
/// room, and either owns the room or outranks every target who is a member.
pub proof fn law_bulk_ban(has_ban: bool, is_server_room: bool, auth_is_owner: bool, auth_rank: u64, targets: Seq<BanTarget>)
    ensures
        spec_bulk_ban(has_ban, is_server_room, auth_is_owner, auth_rank, targets) is Ok <==> has_ban
            && !is_server_room && (auth_is_owner || forall|i: int|
            0 <= i < targets.len() && targets[i].is_member ==> targets[i].rank < auth_rank),
{
}

/// A bridge adding a puppet needs the bridging permission always, and each
/// other permission exactly when its field changes (or, for a new member,
/// is set), and applying roles exactly when roles are given.
pub proof fn law_bridge_needs_by_field(
    existing: Option<(bool, bool, Option<Seq<char>>)>,
    put_mute: Option<bool>,
    put_deaf: Option<bool>,
    put_name: Option<Seq<char>>,
    put_roles: bool,
)
    ensures
        ({
            let needs = spec_bridge_put_needs(existing, put_mute, put_deaf, put_name, put_roles);
            let (mute, deaf, name) = match existing {
                Some((m, d, n)) => (put_mute matches Some(x) && x != m, put_deaf matches Some(x)
                    && x != d, put_name is Some && put_name != n),
                None => (put_mute == Some(true), put_deaf == Some(true), put_name is Some),
            };
            &&& needs.contains(Permission::IntegrationsBridge)
            &&& needs.contains(Permission::VoiceMute) <==> mute
            &&& needs.contains(Permission::VoiceDeafen) <==> deaf
            &&& needs.contains(Permission::MemberNicknameManage) <==> name
            &&& needs.contains(Permission::RoleApply) <==> put_roles
            &&& !needs.contains(Permission::MemberNickname)
        }),
{
    broadcast use vstd::seq_lib::group_seq_properties;

    assert(seq![Permission::IntegrationsBridge][0] == Permission::IntegrationsBridge);
}

/// Joining a public room needs muting, deafening or a nickname exactly
/// when the join changes (or, first joining, sets) that field, and never a
/// permission meant for others' nicknames.
pub proof fn law_join_needs_by_field(
    existing: Option<(bool, bool, Option<Seq<char>>)>,
    put_mute: Option<bool>,
    put_deaf: Option<bool>,
    put_name: Option<Seq<char>>,
)
    ensures
        ({
            let needs = spec_join_put_needs(existing, put_mute, put_deaf, put_name);
            let (mute, deaf, name) = match existing {
                Some((m, d, n)) => (put_mute matches Some(x) && x != m, put_deaf matches Some(x)
                    && x != d, put_name is Some && put_name != n),
                None => (put_mute == Some(true), put_deaf == Some(true), put_name is Some),
            };
            &&& needs.contains(Permission::VoiceMute) <==> mute
            &&& needs.contains(Permission::VoiceDeafen) <==> deaf
            &&& needs.contains(Permission::MemberNickname) <==> name
            &&& !needs.contains(Permission::MemberNicknameManage)
            &&& !needs.contains(Permission::RoleApply)
        }),
{
    broadcast use vstd::seq_lib::group_seq_properties;

    assert(!Seq::<Permission>::empty().contains(Permission::VoiceMute));
    assert(seq![Permission::VoiceMute][0] == Permission::VoiceMute);
}

/// Setting someone's timeout needs a strictly higher rank than theirs,
/// unless the acting user owns the room.
pub proof fn law_timeout_rank(auth_is_owner: bool, rank: u64, other_rank: u64)
    ensures
        spec_timeout_rank_gate(auth_is_owner, rank, other_rank) is Ok <==> auth_is_owner || rank
            > other_rank,
{
}

/// After automod scans a member, a quarantine is written exactly when the
/// scan blocks or a quarantined member must be released.
pub proof fn law_quarantine_writes(block: bool, quarantined: bool)
    ensures
        spec_quarantine_write(block, quarantined) is Some <==> block || quarantined,
        spec_quarantine_write(block, quarantined) matches Some(q) ==> q == block,
{
}

} // verus!
