use vstd::prelude::*;

use crate::error::{Error, ErrorCode, Rejection};
use crate::perms::{contains_permission, Permission};
use crate::room::{room_security_checks, spec_room_security_checks, RoomSecurity};

verus! {

/// The kinds of channels a direct-message request may ask for.
#[derive(Clone, Copy, PartialEq, Eq, Structural, Debug)]
pub enum DmKind {
    Dm,
    Gdm,
    /// Any kind that belongs in a room.
    Other,
}

/// The most bits per second a voice channel may stream at.
pub const MAX_BITRATE: u64 = 393216;

/// What creating a direct-message channel leads to.
#[derive(Clone, Copy, PartialEq, Eq, Structural, Debug)]
pub enum DmPlan {
    /// Open (or find) the one-to-one channel with this user.
    OneToOne(u128),
    /// Create a group channel with the requested recipients and the user.
    Group,
}

pub open spec fn spec_dm_plan(
    kind: DmKind,
    recipients: Option<Seq<u128>>,
    auth_id: u128,
    max_members: u64,
    friends: Seq<bool>,
) -> Result<DmPlan, Rejection> {
    match kind {
        DmKind::Dm => match recipients {
            None => Err(Rejection::Api(ErrorCode::DmThreadMissingRecipients)),
            Some(r) => if r.len() != 1 {
                Err(Rejection::Api(ErrorCode::DmThreadSinglePersonOnly))
            } else {
                Ok(DmPlan::OneToOne(r[0]))
            },
        },
        DmKind::Gdm => {
            let r = match recipients {
                Some(r) => r,
                None => Seq::empty(),
            };
            if r.len() + 1 > max_members {
                Err(Rejection::Api(ErrorCode::GdmTooManyMembers))
            } else if exists|i: int| 0 <= i < r.len() && r[i] != auth_id && !friends[i] {
                Err(Rejection::Api(ErrorCode::GdmRequiresFriend))
            } else {
                Ok(DmPlan::Group)
            }
        },
        DmKind::Other => Err(Rejection::Api(ErrorCode::DmGdmOnlyOutsideRoom)),
    }
}

/// Decides a request to create a direct-message channel. A one-to-one
/// channel needs exactly one recipient. A group channel holds its
/// recipients and the user, at most `max_members` of them, and every
/// recipient other than the user must be the user's friend (`friends[i]`
/// says whether recipient `i` is). Rooms' channel kinds are refused.
pub fn dm_plan(
    kind: DmKind,
    recipients: Option<&Vec<u128>>,
    auth_id: u128,
    max_members: u64,
    friends: &Vec<bool>,
) -> (res: Result<DmPlan, Rejection>)
    requires
        recipients matches Some(r) ==> friends@.len() == r@.len(),
    ensures
        res == spec_dm_plan(
            kind,
            match recipients {
                Some(r) => Some(r@),
                None => None,
            },
            auth_id,
            max_members,
            friends@,
        ),
{
    match kind {
        DmKind::Dm => match recipients {
            None => Err(Rejection::Api(ErrorCode::DmThreadMissingRecipients)),
            Some(r) => if r.len() != 1 {
                Err(Rejection::Api(ErrorCode::DmThreadSinglePersonOnly))
            } else {
                Ok(DmPlan::OneToOne(r[0]))
            },
        },
        DmKind::Gdm => {
            let empty: Vec<u128> = Vec::new();
            let r = match recipients {
                Some(r) => r,
                None => &empty,
            };
            if r.len() as u64 >= max_members {
                return Err(Rejection::Api(ErrorCode::GdmTooManyMembers));
            }
            let mut i: usize = 0;
            while i < r.len()
                invariant
                    i <= r@.len(),
                    recipients is Some ==> friends@.len() == r@.len(),
                    recipients is None ==> r@.len() == 0,
                    recipients matches Some(rr) ==> r@ == rr@,
                    kind == DmKind::Gdm,
                    r@.len() + 1 <= max_members,
                    forall|j: int| 0 <= j < i ==> !(r@[j] != auth_id && !friends@[j]),
                decreases r.len() - i,
            {
                if r[i] != auth_id && !friends[i] {
                    assert(exists|j: int| 0 <= j < r@.len() && r@[j] != auth_id && !friends@[j]);
                    return Err(Rejection::Api(ErrorCode::GdmRequiresFriend));
                }
                i = i + 1;
            }
            Ok(DmPlan::Group)
        },
        DmKind::Other => Err(Rejection::Api(ErrorCode::DmGdmOnlyOutsideRoom)),
    }
}

pub open spec fn spec_voice_settings_gate(
    has_voice: bool,
    bitrate: Option<u64>,
    user_limit: Option<u64>,
) -> Result<(), Rejection> {
    if bitrate matches Some(b) && b > MAX_BITRATE {
        Err(Rejection::Api(ErrorCode::BitrateTooHigh))
    } else if !has_voice && bitrate is Some {
        Err(Rejection::Api(ErrorCode::CannotSetBitrateForNonVoiceThread))
    } else if !has_voice && user_limit is Some {
        Err(Rejection::Api(ErrorCode::CannotSetUserLimitForNonVoiceThread))
    } else {
        Ok(())
    }
}

/// A channel's bitrate may not exceed the maximum, and only a channel with
/// voice has a bitrate or a user limit.
pub fn voice_settings_gate(has_voice: bool, bitrate: Option<u64>, user_limit: Option<u64>) -> (res:
    Result<(), Rejection>)
    ensures
        res == spec_voice_settings_gate(has_voice, bitrate, user_limit),
{
    if let Some(b) = bitrate {
        if b > MAX_BITRATE {
            return Err(Rejection::Api(ErrorCode::BitrateTooHigh));
        }
    }
    if !has_voice && bitrate.is_some() {
        return Err(Rejection::Api(ErrorCode::CannotSetBitrateForNonVoiceThread));
    }
    if !has_voice && user_limit.is_some() {
        return Err(Rejection::Api(ErrorCode::CannotSetUserLimitForNonVoiceThread));
    }
    Ok(())
}

/// A channel's icon must be an image.
pub fn icon_gate(is_image: bool) -> (res: Result<(), Rejection>)
    ensures
        is_image ==> res is Ok,
        !is_image ==> res == Err::<(), Rejection>(Rejection::Api(ErrorCode::MediaNotAnImage)),
{
    if is_image {
        Ok(())
    } else {
        Err(Rejection::Api(ErrorCode::MediaNotAnImage))
    }
}

/// The permission that removing or restoring a channel needs: managing
/// threads for a thread, managing channels otherwise.
pub fn manage_permission(is_thread: bool) -> (res: Permission)
    ensures
        is_thread ==> res == Permission::ThreadManage,
        !is_thread ==> res == Permission::ChannelManage,
{
    if is_thread {
        Permission::ThreadManage
    } else {
        Permission::ChannelManage
    }
}

/// Whether removing (`remove`) or restoring a channel changes anything:
/// removing a removed channel, or restoring one that is not removed, does
/// nothing.
pub fn removal_changes(remove: bool, is_removed: bool) -> (res: bool)
    ensures
        res == (remove != is_removed),
{
    remove != is_removed
}

/// The checks of removing (`remove`) or restoring a channel, in the order
/// in which they run, and on success whether anything changes. `room` is
/// the security of the channel's room (`None` outside any room); `sudo` is
/// the outcome of the session's sudo check, consulted only where the room
/// requires it; `totp_enabled` is whether the user's TOTP is enabled
/// (`None` without one). Removing checks the permission first and the
/// room's requirements after; restoring checks them the other way round.
pub fn removal_gate(
    remove: bool,
    is_thread: bool,
    is_removed: bool,
    room: Option<RoomSecurity>,
    sudo: Result<(), Rejection>,
    totp_enabled: Option<bool>,
    granted: &Vec<Permission>,
) -> (res: Result<bool, Rejection>)
    ensures
        ({
            let perm_ok = granted@.contains(
                if is_thread {
                    Permission::ThreadManage
                } else {
                    Permission::ChannelManage
                },
            );
            let checks = match room {
                Some(r) => spec_room_security_checks(r, sudo, totp_enabled),
                None => Ok(()),
            };
            &&& remove && !perm_ok ==> res == Err::<bool, Rejection>(
                Rejection::Server(Error::MissingPermissions),
            )
            &&& (remove && perm_ok || !remove) && checks is Err ==> res == Err::<bool, Rejection>(
                checks->Err_0,
            )
            &&& !remove && checks is Ok && !perm_ok ==> res == Err::<bool, Rejection>(
                Rejection::Server(Error::MissingPermissions),
            )
            &&& perm_ok && checks is Ok ==> res == Ok::<bool, Rejection>(remove != is_removed)
        }),
{
    let need = manage_permission(is_thread);
    let perm_ok = contains_permission(granted, need);
    if remove && !perm_ok {
        return Err(Rejection::Server(Error::MissingPermissions));
    }
    if let Some(r) = room {
        room_security_checks(r, sudo, totp_enabled)?;
    }
    if !perm_ok {
        return Err(Rejection::Server(Error::MissingPermissions));
    }
    Ok(removal_changes(remove, is_removed))
}

pub open spec fn spec_upgrade_gate(
    is_gdm: bool,
    owner_id: Option<u128>,
    auth_id: u128,
    in_room: bool,
) -> Result<(), Rejection> {
    if !is_gdm {
        Err(Rejection::Api(ErrorCode::OnlyGdmCanUpgrade))
    } else if owner_id != Some(auth_id) {
        Err(Rejection::Api(ErrorCode::NotThreadOwner))
    } else if in_room {
        Err(Rejection::Api(ErrorCode::ThreadAlreadyInRoom))
    } else {
        Ok(())
    }
}

/// Only the owner of a group channel outside any room may turn it into a room.
pub fn upgrade_gate(is_gdm: bool, owner_id: Option<u128>, auth_id: u128, in_room: bool) -> (res:
    Result<(), Rejection>)
    ensures
        res == spec_upgrade_gate(is_gdm, owner_id, auth_id, in_room),
{
    if !is_gdm {
        return Err(Rejection::Api(ErrorCode::OnlyGdmCanUpgrade));
    }
    if owner_id != Some(auth_id) {
        return Err(Rejection::Api(ErrorCode::NotThreadOwner));
    }
    if in_room {
        return Err(Rejection::Api(ErrorCode::ThreadAlreadyInRoom));
    }
    Ok(())
}

/// Only the owner of a channel may hand its ownership to another member.
pub fn transfer_gate(owner_id: Option<u128>, auth_id: u128) -> (res: Result<(), Rejection>)
    ensures
        owner_id == Some(auth_id) ==> res is Ok,
        owner_id != Some(auth_id) ==> res == Err::<(), Rejection>(
            Rejection::Api(ErrorCode::NotThreadOwner),
        ),
{
    if owner_id == Some(auth_id) {
        Ok(())
    } else {
        Err(Rejection::Api(ErrorCode::NotThreadOwner))
    }
}

/// A channel edit may not change its owner.
pub fn update_gate(changes_owner: bool) -> (res: Result<(), Rejection>)
    ensures
        !changes_owner ==> res is Ok,
        changes_owner ==> res == Err::<(), Rejection>(
            Rejection::Api(ErrorCode::OwnerIdCannotBeChanged),
        ),
{
    if changes_owner {
        Err(Rejection::Api(ErrorCode::OwnerIdCannotBeChanged))
    } else {
        Ok(())
    }
}

/// Setting or lifting a user's slowmode in a channel needs any of managing
/// channels, managing threads, or timing out members.
pub fn ratelimit_gate(granted: &Vec<Permission>) -> (res: Result<(), Error>)
    ensures
        res is Ok <==> granted@.contains(Permission::ChannelManage) || granted@.contains(
            Permission::ThreadManage,
        ) || granted@.contains(Permission::MemberTimeout),
        res is Err ==> res == Err::<(), Error>(Error::MissingPermissions),
{
    if !contains_permission(granted, Permission::ChannelManage) && !contains_permission(
        granted,
        Permission::ThreadManage,
    ) && !contains_permission(granted, Permission::MemberTimeout) {
        Err(Error::MissingPermissions)
    } else {
        Ok(())
    }
}

/// What a slowmode edit writes for one kind of slowmode, and reports.
#[derive(Clone, Copy, PartialEq, Eq, Structural, Debug)]
pub struct SlowmodeWrite {
    /// The expiry to store, if any is stored.
    pub store: Option<i128>,
    /// The expiry to report.
    pub report: Option<i128>,
}

/// One second, in nanoseconds.
pub const SECOND_NANOS: i128 = 1_000_000_000;

/// What a slowmode edit does: `Some(Some(t))` sets the expiry to `t`;
/// `Some(None)` lifts it by storing an expiry a second in the past (at the
/// earliest representable time at most) and reports none; `None` leaves it.
pub fn slowmode_write(edit: Option<Option<i128>>, now: i128) -> (res: SlowmodeWrite)
    ensures
        edit matches Some(Some(t)) ==> res == (SlowmodeWrite { store: Some(t), report: Some(t) }),
        edit == Some(None::<i128>) ==> res == (SlowmodeWrite {
            store: Some(if now - SECOND_NANOS < i128::MIN { i128::MIN } else { (now - SECOND_NANOS) as i128 }),
            report: None,
        }),
        edit is None ==> res == (SlowmodeWrite { store: None, report: None }),
{
    match edit {
        Some(Some(t)) => SlowmodeWrite { store: Some(t), report: Some(t) },
        Some(None) => {
            let past = if now < i128::MIN + SECOND_NANOS {
                i128::MIN
            } else {
                now - SECOND_NANOS
            };
            SlowmodeWrite { store: Some(past), report: None }
        },
        None => SlowmodeWrite { store: None, report: None },
    }
}

/// How long a typing indicator lasts, in nanoseconds.
pub const TYPING_NANOS: i128 = 10_000_000_000;

/// When a typing indicator started now ends.
pub fn typing_until(now: i128) -> (res: i128)
    requires
        now + TYPING_NANOS <= i128::MAX,
    ensures
        res == now + TYPING_NANOS,
{
    now + TYPING_NANOS
}

/// The index of the last occurrence of `x` in `s`.
pub open spec fn last_index(s: Seq<u128>, x: u128) -> Option<int>
    decreases s.len(),
{
    if s.len() == 0 {
        None
    } else if s.last() == x {
        Some(s.len() - 1)
    } else {
        last_index(s.drop_last(), x)
    }
}

/// The items listed for `ids`, as indices into `item_ids`: for each id in
/// turn, the last item with that id, unless it was listed already or
/// there is none.
pub open spec fn ordered(ids: Seq<u128>, item_ids: Seq<u128>) -> Seq<int>
    decreases ids.len(),
{
    if ids.len() == 0 {
        Seq::empty()
    } else {
        let prev = ordered(ids.drop_last(), item_ids);
        match last_index(item_ids, ids.last()) {
            Some(j) => if prev.contains(j) {
                prev
            } else {
                prev.push(j)
            },
            None => prev,
        }
    }
}

fn find_last(item_ids: &Vec<u128>, x: u128) -> (res: Option<usize>)
    ensures
        match res {
            Some(j) => last_index(item_ids@, x) == Some(j as int),
            None => last_index(item_ids@, x) is None,
        },
{
    let mut j: usize = item_ids.len();
    proof {
        assert(item_ids@.take(j as int) =~= item_ids@);
    }
    while j > 0
        invariant
            j <= item_ids@.len(),
            last_index(item_ids@, x) == last_index(item_ids@.take(j as int), x),
        decreases j,
    {
        proof {
            assert(item_ids@.take(j as int).drop_last() =~= item_ids@.take(j - 1));
        }
        if item_ids[j - 1] == x {
            return Some(j - 1);
        }
        j = j - 1;
    }
    proof {
        assert(item_ids@.take(0) =~= Seq::<u128>::empty());
    }
    None
}

/// Lists the items found for `ids` in the order of `ids` (the order the
/// store keeps them in), as indices into `item_ids`: each id takes the last
/// item found with that id, an id listed twice is listed once, and an id
/// with no item is skipped.
pub fn order_by_ids(ids: &Vec<u128>, item_ids: &Vec<u128>) -> (res: Vec<usize>)
    ensures
        res@.map_values(|j: usize| j as int) == ordered(ids@, item_ids@),
{
    let mut out: Vec<usize> = Vec::new();
    let mut i: usize = 0;
    proof {
        assert(ids@.take(0) =~= Seq::<u128>::empty());
        assert(out@.map_values(|j: usize| j as int) =~= Seq::<int>::empty());
    }
    while i < ids.len()
        invariant
            i <= ids.len(),
            out@.map_values(|j: usize| j as int) == ordered(ids@.take(i as int), item_ids@),
        decreases ids.len() - i,
    {
        proof {
            assert(ids@.take(i + 1).drop_last() =~= ids@.take(i as int));
            assert(ids@.take(i + 1).last() == ids@[i as int]);
        }
        let ghost prev = out@.map_values(|j: usize| j as int);
        match find_last(item_ids, ids[i]) {
            Some(j) => {
                let mut taken = false;
                let mut k: usize = 0;
                while k < out.len()
                    invariant
                        k <= out@.len(),
                        prev == out@.map_values(|j: usize| j as int),
                        taken == exists|m: int| 0 <= m < k && out@[m] == j,
                    decreases out.len() - k,
                {
                    if out[k] == j {
                        taken = true;
                    }
                    k = k + 1;
                }
                proof {
                    if taken {
                        let m = choose|m: int| 0 <= m < out@.len() && out@[m] == j;
                        assert(prev[m] == j as int);
                    } else {
                        assert forall|m: int| 0 <= m < prev.len() implies prev[m] != j as int by {
                            assert(out@[m] != j);
                        }
                    }
                }
                if !taken {
                    out.push(j);
                    proof {
                        assert(out@.map_values(|j: usize| j as int) =~= prev.push(j as int));
                    }
                }
            },
            None => {},
        }
        i = i + 1;
    }
    proof {
        assert(ids@.take(ids@.len() as int) =~= ids@);
    }
    out
}

/// Opening a direct message with a user: some users (webhooks) cannot be
/// messaged at all; a user who does not take messages from the caller can
/// still be messaged by a friend.
pub fn dm_init_gate(target_can_dm: bool, target_allows_dms: bool, is_friend: bool) -> (res: Result<
    (),
    Rejection,
>)
    ensures
        !target_can_dm ==> res matches Err(Rejection::Api(ErrorCode::CannotDmThisUser)),
        target_can_dm && !target_allows_dms && !is_friend ==> res matches Err(
            Rejection::Api(ErrorCode::DmsNotAllowedFromThisUser),
        ),
        target_can_dm && (target_allows_dms || is_friend) ==> res is Ok,
{
    if !target_can_dm {
        return Err(Rejection::Api(ErrorCode::CannotDmThisUser));
    }
    if !target_allows_dms && !is_friend {
        return Err(Rejection::Api(ErrorCode::DmsNotAllowedFromThisUser));
    }
    Ok(())
}

/// A forum tag is edited or deleted only through its own forum; through
/// another channel it is unknown.
pub fn tag_channel_gate(tag_channel_id: u128, channel_id: u128) -> (res: Result<(), Rejection>)
    ensures
        tag_channel_id == channel_id ==> res is Ok,
        tag_channel_id != channel_id ==> res == Err::<(), Rejection>(
            Rejection::Api(ErrorCode::UnknownTag),
        ),
{
    if tag_channel_id != channel_id {
        Err(Rejection::Api(ErrorCode::UnknownTag))
    } else {
        Ok(())
    }
}

/// A tag that threads still use is deleted only when forced; otherwise the
/// answer is "conflict".
pub fn tag_delete_allowed(total_thread_count: u64, force: bool) -> (res: bool)
    ensures
        res == (total_thread_count == 0 || force),
{
    total_thread_count == 0 || force
}

/// The status that answers a one-to-one channel request: "created" when
/// the channel is new, "OK" when it already existed.
pub fn dm_status(is_new: bool) -> (res: u16)
    ensures
        res == (if is_new {
            201u16
        } else {
            200u16
        }),
{
    if is_new {
        201
    } else {
        200
    }
}

/// The fields of a request for a group channel.
pub struct GdmCreate {
    pub name: String,
    pub description: Option<String>,
    pub icon: Option<u128>,
    pub nsfw: bool,
    pub bitrate: Option<u64>,
    pub user_limit: Option<u64>,
    pub invitable: bool,
    pub auto_archive_duration: Option<u64>,
    pub default_auto_archive_duration: Option<u64>,
    pub slowmode_thread: Option<u64>,
    pub slowmode_message: Option<u64>,
    pub default_slowmode_message: Option<u64>,
    pub tags: Option<Vec<u128>>,
    pub url: Option<String>,
}

/// The row a group channel is stored as.
pub struct GdmRow {
    pub room_id: Option<u128>,
    pub creator_id: u128,
    pub name: String,
    pub description: Option<String>,
    pub icon: Option<u128>,
    pub nsfw: bool,
    pub bitrate: Option<i32>,
    pub user_limit: Option<i32>,
    pub parent_id: Option<u128>,
    pub owner_id: Option<u128>,
    pub invitable: bool,
    pub auto_archive_duration: Option<i64>,
    pub default_auto_archive_duration: Option<i64>,
    pub slowmode_thread: Option<i64>,
    pub slowmode_message: Option<i64>,
    pub default_slowmode_message: Option<i64>,
    pub tags: Option<Vec<u128>>,
    pub url: Option<String>,
    pub locked: bool,
}

pub open spec fn opt_i32(v: Option<u64>) -> Option<i32> {
    match v {
        Some(x) => Some(x as i32),
        None => None,
    }
}

pub open spec fn opt_i64(v: Option<u64>) -> Option<i64> {
    match v {
        Some(x) => Some(x as i64),
        None => None,
    }
}

fn to_i32(v: Option<u64>) -> (res: Option<i32>)
    ensures
        res == opt_i32(v),
{
    match v {
        Some(x) => Some(x as i32),
        None => None,
    }
}

fn to_i64(v: Option<u64>) -> (res: Option<i64>)
    ensures
        res == opt_i64(v),
{
    match v {
        Some(x) => Some(x as i64),
        None => None,
    }
}

/// The row of a new group channel: outside any room and any parent, made
/// and owned by the user, unlocked, with the request's fields. The user
/// limit is stored from the request's bitrate, as the server does (the
/// request's user limit is not stored).
pub fn gdm_row(auth_id: u128, req: GdmCreate) -> (res: GdmRow)
    ensures
        res.room_id is None,
        res.parent_id is None,
        res.creator_id == auth_id,
        res.owner_id == Some(auth_id),
        !res.locked,
        res.name == req.name,
        res.description == req.description,
        res.icon == req.icon,
        res.nsfw == req.nsfw,
        res.bitrate == opt_i32(req.bitrate),
        res.user_limit == opt_i32(req.bitrate),
        res.invitable == req.invitable,
        res.auto_archive_duration == opt_i64(req.auto_archive_duration),
        res.default_auto_archive_duration == opt_i64(req.default_auto_archive_duration),
        res.slowmode_thread == opt_i64(req.slowmode_thread),
        res.slowmode_message == opt_i64(req.slowmode_message),
        res.default_slowmode_message == opt_i64(req.default_slowmode_message),
        res.tags == req.tags,
        res.url == req.url,
{
    GdmRow {
        room_id: None,
        creator_id: auth_id,
        name: req.name,
        description: req.description,
        icon: req.icon,
        nsfw: req.nsfw,
        bitrate: to_i32(req.bitrate),
        user_limit: to_i32(req.bitrate),
        parent_id: None,
        owner_id: Some(auth_id),
        invitable: req.invitable,
        auto_archive_duration: to_i64(req.auto_archive_duration),
        default_auto_archive_duration: to_i64(req.default_auto_archive_duration),
        slowmode_thread: to_i64(req.slowmode_thread),
        slowmode_message: to_i64(req.slowmode_message),
        default_slowmode_message: to_i64(req.default_slowmode_message),
        tags: req.tags,
        url: req.url,
        locked: false,
    }
}

/// The members of a new group channel: the requested recipients, then the
/// user, in that order.
pub fn gdm_members(recipients: &Vec<u128>, auth_id: u128) -> (res: Vec<u128>)
    ensures
        res@ == recipients@.push(auth_id),
{
    let mut v = recipients.clone();
    v.push(auth_id);
    v
}

/// A channel's voice settings: a bitrate above the maximum is always
/// refused, and a channel without voice takes neither a bitrate nor a user
/// limit; anything else passes.
pub proof fn law_voice_settings(has_voice: bool, bitrate: Option<u64>, user_limit: Option<u64>)
    ensures
        spec_voice_settings_gate(has_voice, bitrate, user_limit) is Ok <==> (bitrate matches Some(b)
            ==> b <= 393216) && (!has_voice ==> bitrate is None && user_limit is None),
{
}

/// Only the owner of a group channel outside any room turns it into a room.
pub proof fn law_upgrade_by_owner(is_gdm: bool, owner_id: Option<u128>, auth_id: u128, in_room: bool)
    ensures
        spec_upgrade_gate(is_gdm, owner_id, auth_id, in_room) is Ok <==> is_gdm && owner_id == Some(
            auth_id,
        ) && !in_room,
{
}

/// What a direct-message request may open: a one-to-one channel with
/// exactly its single recipient; a group channel only when the user and the
/// recipients fit the limit and every other recipient is the user's friend;
/// and nothing of a room's kinds.
pub proof fn law_dm_requests(
    kind: DmKind,
    recipients: Option<Seq<u128>>,
    auth_id: u128,
    max_members: u64,
    friends: Seq<bool>,
)
    requires
        recipients matches Some(r) ==> friends.len() == r.len(),
    ensures
        ({
            let res = spec_dm_plan(kind, recipients, auth_id, max_members, friends);
            let r = match recipients {
                Some(r) => r,
                None => Seq::<u128>::empty(),
            };
            &&& kind == DmKind::Other ==> res is Err
            &&& kind == DmKind::Dm ==> (res is Ok <==> recipients is Some && r.len() == 1)
            &&& (kind == DmKind::Dm && res is Ok) ==> res == Ok::<DmPlan, Rejection>(
                DmPlan::OneToOne(r[0]),
            )
            &&& kind == DmKind::Gdm ==> (res is Ok <==> r.len() + 1 <= max_members && forall|i: int|
                0 <= i < r.len() && r[i] != auth_id ==> friends[i])
            &&& (kind == DmKind::Gdm && res is Ok) ==> res == Ok::<DmPlan, Rejection>(DmPlan::Group)
        }),
{
}

} // verus!
