use vstd::prelude::*;

use crate::codec::{random_u128, spec_uuid_text, uuid_text};

verus! {

/// A webhook as stored: its user's name and avatar, and its token.
pub struct WebhookRow {
    pub id: u128,
    pub room_id: Option<u128>,
    pub channel_id: u128,
    pub creator_id: Option<u128>,
    pub name: String,
    pub avatar: Option<u128>,
    pub token: String,
}

/// An edit of a webhook: each field is changed when given, and the token
/// is replaced by a fresh one when asked.
pub struct WebhookUpdate {
    pub name: Option<String>,
    pub avatar: Option<Option<u128>>,
    pub channel_id: Option<u128>,
    pub rotate_token: bool,
}

/// A webhook as the edit answers it.
pub struct Webhook {
    pub id: u128,
    pub room_id: Option<u128>,
    pub channel_id: u128,
    pub creator_id: Option<u128>,
    pub name: String,
    pub avatar: Option<u128>,
    pub token: Option<String>,
}

/// Whether `res` carries the webhook's identity and stored place (the room,
/// and the channel as it was before the edit) and the edited name and
/// avatar where the edit gives them, else the stored ones.
pub open spec fn keeps_and_edits(res: Webhook, original: WebhookRow, patch: WebhookUpdate) -> bool {
    &&& res.id == original.id
    &&& res.room_id == original.room_id
    &&& res.channel_id == original.channel_id
    &&& res.creator_id == original.creator_id
    &&& res.name == (match patch.name {
        Some(n) => n,
        None => original.name,
    })
    &&& res.avatar == (match patch.avatar {
        Some(a) => a,
        None => original.avatar,
    })
}

/// The webhook that an edit made with the webhook's token answers with: see
/// `keeps_and_edits`; its token is `fresh` when the edit rotates it, else
/// the stored one.
pub fn updated_with_token(original: WebhookRow, patch: WebhookUpdate, fresh: String) -> (res:
    Webhook)
    ensures
        keeps_and_edits(res, original, patch),
        patch.rotate_token ==> res.token == Some(fresh),
        !patch.rotate_token ==> res.token == Some(original.token),
{
    let token = if patch.rotate_token {
        fresh
    } else {
        original.token
    };
    Webhook {
        id: original.id,
        room_id: original.room_id,
        channel_id: original.channel_id,
        creator_id: original.creator_id,
        name: match patch.name {
            Some(n) => n,
            None => original.name,
        },
        avatar: match patch.avatar {
            Some(a) => a,
            None => original.avatar,
        },
        token: Some(token),
    }
}

/// Whether a UUID has version 4 and the RFC 4122 variant, as a random one does.
pub open spec fn is_random_uuid(r: u128) -> bool {
    (r >> 76u128) % 16 == 4 && (r >> 62u128) % 4 == 2
}

/// Edits a webhook with its token, drawing a fresh random UUID as the new
/// token when the edit rotates it (and drawing nothing otherwise); the
/// caller stores the token that is answered.
pub fn update_with_token(original: WebhookRow, patch: WebhookUpdate) -> (res: Webhook)
    ensures
        keeps_and_edits(res, original, patch),
        patch.rotate_token ==> exists|r: u128|
            is_random_uuid(r) && (res.token matches Some(t) && t@ == #[trigger] spec_uuid_text(r)),
        !patch.rotate_token ==> res.token == Some(original.token),
{
    if patch.rotate_token {
        let r = random_u128();
        let fresh = uuid_text(r);
        let res = updated_with_token(original, patch, fresh);
        assert(is_random_uuid(r) && (res.token matches Some(t) && t@ == spec_uuid_text(r)));
        res
    } else {
        updated_with_token(original, patch, String::new())
    }
}

} // verus!
