use vstd::prelude::*;
use vstd::string::*;

use crate::codec::random_code;
use crate::error::{Error, Rejection};
use crate::member::spec_ban_active;

verus! {

/// The length of an invite code.
pub const CODE_LENGTH: usize = 8;

/// Where an invite leads.
#[derive(Clone, Copy, PartialEq, Eq, Structural, Debug)]
pub enum InviteTarget {
    /// Into a room, optionally pointing at one of its channels.
    Room { room_id: u128, channel_id: Option<u128> },
    /// Into a group direct-message channel.
    Gdm { channel_id: u128 },
    /// Onto the server: registers a guest.
    Server,
    /// Friendship with a user.
    User { user_id: u128 },
}

/// Where the permission to manage an invite is looked up.
#[derive(Clone, Copy, PartialEq, Eq, Structural, Debug)]
pub enum PermScope {
    Room(u128),
    Channel(u128),
    ServerRoom,
    /// Nobody manages a user's invites but their creator.
    Nowhere,
}

pub open spec fn spec_manage_scope(t: InviteTarget) -> PermScope {
    match t {
        InviteTarget::Room { room_id, .. } => PermScope::Room(room_id),
        InviteTarget::Gdm { channel_id } => PermScope::Channel(channel_id),
        InviteTarget::Server => PermScope::ServerRoom,
        InviteTarget::User { .. } => PermScope::Nowhere,
    }
}

/// Where `InviteManage` is looked up for an invite: the room, the group
/// channel, or the server room; nowhere for a user's invite.
pub fn manage_scope(t: InviteTarget) -> (res: PermScope)
    ensures
        res == spec_manage_scope(t),
{
    match t {
        InviteTarget::Room { room_id, .. } => PermScope::Room(room_id),
        InviteTarget::Gdm { channel_id } => PermScope::Channel(channel_id),
        InviteTarget::Server => PermScope::ServerRoom,
        InviteTarget::User { .. } => PermScope::Nowhere,
    }
}

/// Whether a user may delete or edit an invite: its creator may, and so may
/// anyone holding `InviteManage` where the invite leads (`has_manage`).
pub fn can_manage(auth_id: u128, creator_id: u128, has_manage: bool) -> (res: bool)
    ensures
        res == (auth_id == creator_id || has_manage),
{
    auth_id == creator_id || has_manage
}

/// Editing an invite that one may not manage is refused.
pub fn patch_gate(auth_id: u128, creator_id: u128, has_manage: bool) -> (res: Result<(), Error>)
    ensures
        res is Ok <==> (auth_id == creator_id || has_manage),
        res is Err ==> res == Err::<(), Error>(Error::MissingPermissions),
{
    if can_manage(auth_id, creator_id, has_manage) {
        Ok(())
    } else {
        Err(Error::MissingPermissions)
    }
}

/// Whether an invite is shown without its metadata (uses, limits, creator
/// details) when resolved: its creator sees everything; for a user's invite
/// nobody else does; for the others, those holding `InviteManage` do.
pub fn strip_on_resolve(auth_id: u128, creator_id: u128, t: InviteTarget, has_manage: bool) -> (res:
    bool)
    ensures
        auth_id == creator_id ==> !res,
        auth_id != creator_id ==> res == (t is User || !has_manage),
{
    if auth_id == creator_id {
        return false;
    }
    match t {
        InviteTarget::User { .. } => true,
        _ => !has_manage,
    }
}

/// Whether an invite in a listing is shown without its metadata: only its
/// creator and those holding `InviteManage` see it.
pub fn strip_in_list(auth_id: u128, creator_id: u128, has_manage: bool) -> (res: bool)
    ensures
        res == (creator_id != auth_id && !has_manage),
{
    creator_id != auth_id && !has_manage
}

pub open spec fn spec_audit_room(t: InviteTarget, server_room: u128) -> Option<u128> {
    match t {
        InviteTarget::Room { room_id, .. } => Some(room_id),
        InviteTarget::Gdm { .. } => None,
        InviteTarget::Server => Some(server_room),
        InviteTarget::User { user_id } => Some(user_id),
    }
}

/// The audit log that records changes to an invite: the room's, the server
/// room's, or the user's own log; a group channel's invites are not logged.
pub fn audit_room(t: InviteTarget, server_room: u128) -> (res: Option<u128>)
    ensures
        res == spec_audit_room(t, server_room),
{
    match t {
        InviteTarget::Room { room_id, .. } => Some(room_id),
        InviteTarget::Gdm { .. } => None,
        InviteTarget::Server => Some(server_room),
        InviteTarget::User { user_id } => Some(user_id),
    }
}

/// Who is told that an invite was deleted.
#[derive(Clone, Copy, PartialEq, Eq, Structural, Debug)]
pub enum Audience {
    Room(u128),
    Channel(u128),
    Everyone,
}

/// The audience of an invite's deletion: the room (the server room for a
/// server invite), the group channel, or everyone for a user's invite.
pub fn delete_audience(t: InviteTarget, server_room: u128) -> (res: Audience)
    ensures
        t is Room ==> res == Audience::Room(t->room_id),
        t is Gdm ==> res == Audience::Channel(t->Gdm_channel_id),
        t is Server ==> res == Audience::Room(server_room),
        t is User ==> res == Audience::Everyone,
{
    match t {
        InviteTarget::Room { room_id, .. } => Audience::Room(room_id),
        InviteTarget::Gdm { channel_id } => Audience::Channel(channel_id),
        InviteTarget::Server => Audience::Room(server_room),
        InviteTarget::User { .. } => Audience::Everyone,
    }
}

/// What using an invite does, once the checks have passed.
#[derive(Clone, Copy, PartialEq, Eq, Structural, Debug)]
pub enum InviteUse {
    /// Join the room.
    JoinRoom(u128),
    /// Already a member of the room: nothing to do.
    AlreadyJoined,
    /// Join the group channel.
    JoinGdm(u128),
    /// Register the guest.
    Register,
    /// Become friends with the user.
    Befriend(u128),
}

/// What the server knows of the user using an invite.
#[derive(Clone, Copy, PartialEq, Eq, Structural, Debug)]
pub struct InviteUser {
    /// The end of the user's ban from the invite's room: `None` when not
    /// banned, `Some(None)` when banned forever.
    pub ban: Option<Option<i128>>,
    /// Whether the user has already joined the invite's room.
    pub joined: bool,
    /// Whether the user is registered (not a guest).
    pub registered: bool,
    /// Whether the user has a way to log in.
    pub can_login: bool,
}

/// Why using an invite is refused.
#[derive(Clone, Copy, PartialEq, Eq, Structural, Debug)]
pub enum InviteUseFault {
    /// The invite has expired or was used up.
    Dead,
    Banned,
    NotAGuest,
    NoAuthMethod,
}

pub open spec fn spec_invite_use(dead: bool, t: InviteTarget, u: InviteUser, now: i128) -> Result<
    InviteUse,
    InviteUseFault,
> {
    if dead {
        Err(InviteUseFault::Dead)
    } else {
        match t {
            InviteTarget::Room { room_id, .. } => if u.ban matches Some(e) && spec_ban_active(
                e,
                now,
            ) {
                Err(InviteUseFault::Banned)
            } else if u.joined {
                Ok(InviteUse::AlreadyJoined)
            } else {
                Ok(InviteUse::JoinRoom(room_id))
            },
            InviteTarget::Gdm { channel_id } => Ok(InviteUse::JoinGdm(channel_id)),
            InviteTarget::Server => if u.registered {
                Err(InviteUseFault::NotAGuest)
            } else if !u.can_login {
                Err(InviteUseFault::NoAuthMethod)
            } else {
                Ok(InviteUse::Register)
            },
            InviteTarget::User { user_id } => Ok(InviteUse::Befriend(user_id)),
        }
    }
}

/// Decides what using an invite does: a dead invite is not found; a room
/// invite refuses a banned user and does nothing for a member; a server
/// invite only registers a guest who can log in.
pub fn invite_use(dead: bool, t: InviteTarget, u: InviteUser, now: i128) -> (res: Result<
    InviteUse,
    InviteUseFault,
>)
    ensures
        res == spec_invite_use(dead, t, u, now),
        !dead && t is Room && (u.ban == Some(None::<i128>) || (u.ban matches Some(Some(end))
            && end > now)) ==> res == Err::<InviteUse, InviteUseFault>(InviteUseFault::Banned),
        !dead && (t matches InviteTarget::Room { room_id, .. } && !u.joined && (u.ban is None
            || (u.ban matches Some(Some(end)) && end <= now))) ==> res == Ok::<
            InviteUse,
            InviteUseFault,
        >(InviteUse::JoinRoom(t->room_id)),
{
    if dead {
        return Err(InviteUseFault::Dead);
    }
    match t {
        InviteTarget::Room { room_id, .. } => {
            if let Some(e) = u.ban {
                if crate::member::ban_active(e, now) {
                    return Err(InviteUseFault::Banned);
                }
            }
            if u.joined {
                Ok(InviteUse::AlreadyJoined)
            } else {
                Ok(InviteUse::JoinRoom(room_id))
            }
        },
        InviteTarget::Gdm { channel_id } => Ok(InviteUse::JoinGdm(channel_id)),
        InviteTarget::Server => {
            if u.registered {
                Err(InviteUseFault::NotAGuest)
            } else if !u.can_login {
                Err(InviteUseFault::NoAuthMethod)
            } else {
                Ok(InviteUse::Register)
            }
        },
        InviteTarget::User { user_id } => Ok(InviteUse::Befriend(user_id)),
    }
}

/// The error that answers a refused use of an invite.
pub fn invite_use_error(f: InviteUseFault) -> (res: Error)
    ensures
        f == InviteUseFault::Dead ==> res == Error::NotFound,
        f == InviteUseFault::Banned ==> (res matches Error::BadStatic(m) && m@ == "banned"@),
        f == InviteUseFault::NotAGuest ==> (res matches Error::BadStatic(m) && m@
            == "User is not a guest account"@),
        f == InviteUseFault::NoAuthMethod ==> (res matches Error::BadStatic(m) && m@
            == "add an auth method first"@),
{
    match f {
        InviteUseFault::Dead => Error::NotFound,
        InviteUseFault::Banned => Error::BadStatic(String::from_str("banned")),
        InviteUseFault::NotAGuest => Error::BadStatic(String::from_str("User is not a guest account")),
        InviteUseFault::NoAuthMethod => Error::BadStatic(String::from_str("add an auth method first")),
    }
}

/// The room whose welcome message follows the use of an invite: the room
/// joined, or the server room on registration; none otherwise.
pub fn welcome_room(used: InviteUse, server_room: u128) -> (res: Option<u128>)
    ensures
        used matches InviteUse::JoinRoom(r) ==> res == Some(r),
        used is AlreadyJoined ==> res is None,
        used is Register ==> res == Some(server_room),
        used is JoinGdm || used is Befriend ==> res is None,
{
    match used {
        InviteUse::JoinRoom(r) => Some(r),
        InviteUse::Register => Some(server_room),
        _ => None,
    }
}

/// A room invite cannot lead into the server room.
pub fn room_invite_gate(is_server_room: bool) -> (res: Result<(), Error>)
    ensures
        !is_server_room ==> res is Ok,
        is_server_room ==> (res matches Err(Error::BadStatic(m)) && m@
            == "You can't create an invite for the server room. Use the make-admin subcommand in the cli instead."@),
{
    if is_server_room {
        Err(
            Error::BadStatic(
                String::from_str(
                    "You can't create an invite for the server room. Use the make-admin subcommand in the cli instead.",
                ),
            ),
        )
    } else {
        Ok(())
    }
}

/// Where a channel invite's creation is checked and logged.
#[derive(Clone, Copy, PartialEq, Eq, Structural, Debug)]
pub enum ChannelInviteRoom {
    /// A group channel: anyone in it may invite, and nothing is logged.
    Gdm,
    /// A room channel: `InviteCreate` in the room is needed, and the room logs it.
    Room(u128),
}

/// Where a channel invite belongs: a group channel, or the channel's room;
/// a channel in neither is refused.
pub fn channel_invite_room(is_gdm: bool, room_id: Option<u128>) -> (res: Result<
    ChannelInviteRoom,
    Error,
>)
    ensures
        is_gdm ==> res == Ok::<ChannelInviteRoom, Error>(ChannelInviteRoom::Gdm),
        !is_gdm && room_id is Some ==> res == Ok::<ChannelInviteRoom, Error>(
            ChannelInviteRoom::Room(room_id.unwrap()),
        ),
        !is_gdm && room_id is None ==> (res matches Err(Error::BadStatic(m)) && m@
            == "Channel is not in a room or a GDM"@),
{
    if is_gdm {
        Ok(ChannelInviteRoom::Gdm)
    } else {
        match room_id {
            Some(r) => Ok(ChannelInviteRoom::Room(r)),
            None => Err(Error::BadStatic(String::from_str("Channel is not in a room or a GDM"))),
        }
    }
}

/// Who sees the metadata of a channel's invites besides their creators:
/// everyone in a group channel, those holding `InviteManage` in a room
/// channel, nobody for other channels.
pub fn channel_list_manage(is_gdm: bool, in_room: bool, has_manage_in_room: bool) -> (res: bool)
    ensures
        res == (is_gdm || (in_room && has_manage_in_room)),
{
    if is_gdm {
        true
    } else if in_room {
        has_manage_in_room
    } else {
        false
    }
}

/// Guests can neither create nor list server invites.
pub fn server_invite_gate(registered: bool, listing: bool) -> (res: Result<(), Error>)
    ensures
        registered ==> res is Ok,
        !registered && !listing ==> (res matches Err(Error::BadStatic(m)) && m@
            == "Guest users cannot create server invites"@),
        !registered && listing ==> (res matches Err(Error::BadStatic(m)) && m@
            == "Guest users cannot list server invites"@),
{
    if registered {
        Ok(())
    } else if listing {
        Err(Error::BadStatic(String::from_str("Guest users cannot list server invites")))
    } else {
        Err(Error::BadStatic(String::from_str("Guest users cannot create server invites")))
    }
}

/// A user's friend invites are only theirs to create and list; asking for
/// another user's is answered as if they did not exist.
pub fn user_invite_gate(auth_id: u128, target_id: u128) -> (res: Result<(), Error>)
    ensures
        res is Ok <==> auth_id == target_id,
        res is Err ==> res == Err::<(), Error>(Error::NotFound),
{
    if auth_id == target_id {
        Ok(())
    } else {
        Err(Error::NotFound)
    }
}

/// The characters invite codes are drawn from: ASCII letters and digits.
pub open spec fn is_code_char(c: char) -> bool {
    ('a' as u32 <= c as u32 <= 'z' as u32) || ('A' as u32 <= c as u32 <= 'Z' as u32) || (
    '0' as u32 <= c as u32 <= '9' as u32)
}

fn push_range(v: &mut Vec<char>, first: u8, count: u8)
    requires
        first as int + count as int <= 128,
    ensures
        final(v)@.len() == old(v)@.len() + count,
        forall|i: int| 0 <= i < old(v)@.len() ==> final(v)@[i] == old(v)@[i],
        forall|i: int|
            old(v)@.len() <= i < final(v)@.len() ==> (final(v)@[i] as u32) == first as u32 + (i
                - old(v)@.len()),
{
    let ghost start = v@.len();
    let mut k: u8 = 0;
    while k < count
        invariant
            k <= count,
            first as int + count as int <= 128,
            v@.len() == start + k,
            start == old(v)@.len(),
            forall|i: int| 0 <= i < start ==> v@[i] == old(v)@[i],
            forall|i: int| start <= i < v@.len() ==> (v@[i] as u32) == first as u32 + (i - start),
        decreases count - k,
    {
        let b: u8 = first + k;
        let c = b as char;
        v.push(c);
        k = k + 1;
    }
}

/// The alphabet of invite codes: the 26 lowercase letters, the 26
/// uppercase letters, then the ten digits.
pub fn code_alphabet() -> (res: Vec<char>)
    ensures
        res@.len() == 62,
        forall|i: int| 0 <= i < res@.len() ==> is_code_char(#[trigger] res@[i]),
        forall|i: int| 0 <= i < res@.len() ==> (res@[i] as u32) < 128,
        forall|i: int| 0 <= i < 26 ==> (#[trigger] res@[i] as u32) == 97 + i,
        forall|i: int| 26 <= i < 52 ==> (#[trigger] res@[i] as u32) == 65 + (i - 26),
        forall|i: int| 52 <= i < 62 ==> (#[trigger] res@[i] as u32) == 48 + (i - 52),
{
    let mut v: Vec<char> = Vec::new();
    push_range(&mut v, 97, 26);
    let ghost v1 = v@;
    push_range(&mut v, 65, 26);
    let ghost v2 = v@;
    push_range(&mut v, 48, 10);
    proof {
        assert forall|i: int| 0 <= i < 26 implies (v@[i] as u32) == 97 + i by {
            assert(v2[i] == v1[i]);
            assert(v@[i] == v2[i]);
        }
        assert forall|i: int| 26 <= i < 52 implies (v@[i] as u32) == 65 + (i - 26) by {
            assert(v@[i] == v2[i]);
        }
    }
    v
}

/// A fresh invite code: eight characters drawn at random from the ASCII
/// letters and digits.
pub fn new_invite_code() -> (res: String)
    ensures
        res@.len() == CODE_LENGTH,
        forall|i: int| 0 <= i < res@.len() ==> is_code_char(#[trigger] res@[i]),
{
    let alphabet = code_alphabet();
    let code = random_code(CODE_LENGTH, &alphabet);
    proof {
        assert forall|i: int| 0 <= i < code@.len() implies is_code_char(#[trigger] code@[i]) by {
            assert(alphabet@.contains(code@[i]));
            let k = choose|k: int| 0 <= k < alphabet@.len() && alphabet@[k] == code@[i];
            assert(is_code_char(alphabet@[k]));
        }
    }
    code
}

/// A room invite is refused to a user who is banned when they use it (a
/// ban without an end, or one that ends after now), and only to such a
/// user: someone never banned, or whose ban has ended, joins the room (or,
/// already a member, stays as they are). A dead invite is refused first.
pub proof fn law_room_invites_respect_bans(
    room_id: u128,
    channel_id: Option<u128>,
    u: InviteUser,
    now: i128,
)
    ensures
        ({
            let t = InviteTarget::Room { room_id, channel_id };
            let banned_now = u.ban == Some(None::<i128>) || (u.ban matches Some(Some(end)) && end
                > now);
            &&& spec_invite_use(true, t, u, now) == Err::<InviteUse, InviteUseFault>(
                InviteUseFault::Dead,
            )
            &&& banned_now ==> spec_invite_use(false, t, u, now) == Err::<InviteUse, InviteUseFault>(
                InviteUseFault::Banned,
            )
            &&& !banned_now && !u.joined ==> spec_invite_use(false, t, u, now) == Ok::<
                InviteUse,
                InviteUseFault,
            >(InviteUse::JoinRoom(room_id))
            &&& !banned_now && u.joined ==> spec_invite_use(false, t, u, now) == Ok::<
                InviteUse,
                InviteUseFault,
            >(InviteUse::AlreadyJoined)
        }),
{
}

} // verus!
