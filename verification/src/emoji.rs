use vstd::prelude::*;

verus! {

/// Who owns a custom emoji.
#[derive(Clone, Copy, PartialEq, Eq, Structural, Debug)]
pub enum EmojiOwner {
    /// A room's emoji.
    Room { room_id: u128 },
    /// A user's own emoji.
    User,
}

/// The room whose membership decides what a lookup shows, if any.
pub fn owner_room(owner: Option<EmojiOwner>) -> (res: Option<u128>)
    ensures
        owner matches Some(EmojiOwner::Room { room_id }) ==> res == Some(room_id),
        !(owner matches Some(EmojiOwner::Room { .. })) ==> res is None,
{
    match owner {
        Some(EmojiOwner::Room { room_id }) => Some(room_id),
        _ => None,
    }
}

/// Whether a lookup shows who owns and who made an emoji: members of the
/// owning room see it for a room's emoji, the creator for a user's emoji,
/// and nobody for an emoji without an owner.
pub open spec fn spec_reveals(owner: Option<EmojiOwner>, creator_id: Option<u128>, auth_id: u128, is_room_member: bool) -> bool {
    match owner {
        Some(EmojiOwner::Room { .. }) => is_room_member,
        Some(EmojiOwner::User) => creator_id == Some(auth_id),
        None => false,
    }
}

/// The owner and creator that a lookup of an emoji shows: both as they are
/// when revealed (see `spec_reveals`), else neither. `is_room_member` is
/// whether the caller belongs to the owning room, for a room's emoji.
pub fn lookup_view(
    owner: Option<EmojiOwner>,
    creator_id: Option<u128>,
    auth_id: u128,
    is_room_member: bool,
) -> (res: (Option<EmojiOwner>, Option<u128>))
    ensures
        spec_reveals(owner, creator_id, auth_id, is_room_member) ==> res == (owner, creator_id),
        !spec_reveals(owner, creator_id, auth_id, is_room_member) ==> res == (
            None::<EmojiOwner>,
            None::<u128>,
        ),
{
    let reveal = match owner {
        Some(EmojiOwner::Room { .. }) => is_room_member,
        Some(EmojiOwner::User) => creator_id == Some(auth_id),
        None => false,
    };
    if reveal {
        (owner, creator_id)
    } else {
        (None, None)
    }
}

} // verus!
