use vstd::prelude::*;

use crate::error::{Error, ErrorCode, Rejection};

verus! {

/// How one user stands towards another.
#[derive(Clone, Copy, PartialEq, Eq, Structural, Debug)]
pub enum RelationshipType {
    Friend,
    Outgoing,
    Incoming,
    Block,
}

/// The two directed relations between a user and a target: `forward` is how
/// the user stands towards the target, `reverse` how the target stands
/// towards the user.
#[derive(Clone, Copy, PartialEq, Eq, Structural, Debug)]
pub struct RelationPair {
    pub forward: Option<RelationshipType>,
    pub reverse: Option<RelationshipType>,
}

/// A change to one directed relation.
#[derive(Clone, Copy, PartialEq, Eq, Structural, Debug)]
pub enum RelationWrite {
    Keep,
    Put(RelationshipType),
    Delete,
}

/// The changes to both directed relations that an operation makes.
#[derive(Clone, Copy, PartialEq, Eq, Structural, Debug)]
pub struct RelationUpdate {
    pub forward: RelationWrite,
    pub reverse: RelationWrite,
}

pub open spec fn apply_write(
    cur: Option<RelationshipType>,
    w: RelationWrite,
) -> Option<RelationshipType> {
    match w {
        RelationWrite::Keep => cur,
        RelationWrite::Put(t) => Some(t),
        RelationWrite::Delete => None,
    }
}

/// The pair after an update.
pub open spec fn apply_update(p: RelationPair, u: RelationUpdate) -> RelationPair {
    RelationPair {
        forward: apply_write(p.forward, u.forward),
        reverse: apply_write(p.reverse, u.reverse),
    }
}

/// The same pair seen from the target's side.
pub open spec fn swapped(p: RelationPair) -> RelationPair {
    RelationPair { forward: p.reverse, reverse: p.forward }
}

/// The pairs that the relationship operations leave in the store: nothing,
/// a friendship, a pending request (outgoing on one side, incoming on the
/// other), or a block on either side with nothing but a block on the other.
pub open spec fn pair_valid(p: RelationPair) -> bool {
    match (p.forward, p.reverse) {
        (None, None) => true,
        (Some(RelationshipType::Friend), Some(RelationshipType::Friend)) => true,
        (Some(RelationshipType::Outgoing), Some(RelationshipType::Incoming)) => true,
        (Some(RelationshipType::Incoming), Some(RelationshipType::Outgoing)) => true,
        (Some(RelationshipType::Block), None) => true,
        (None, Some(RelationshipType::Block)) => true,
        (Some(RelationshipType::Block), Some(RelationshipType::Block)) => true,
        _ => false,
    }
}

/// What sending (or accepting) a friend request does, before any check on
/// the target's preferences.
#[derive(Clone, Copy, PartialEq, Eq, Structural, Debug)]
pub enum FriendAddStep {
    /// The target had asked first: both become friends.
    Accept,
    /// Nothing stands between them: a new request, once the target's
    /// preferences and the user's permission allow it.
    Request,
    /// Already friends, or already asked: nothing changes.
    Unchanged,
}

/// The pairs on which a friend request has no defined outcome.
pub open spec fn friend_add_undefined(p: RelationPair) -> bool {
    match (p.forward, p.reverse) {
        (Some(RelationshipType::Incoming), Some(RelationshipType::Outgoing)) => false,
        (_, Some(RelationshipType::Block)) => false,
        (None, None) => false,
        (Some(RelationshipType::Friend), Some(RelationshipType::Friend)) => false,
        (Some(RelationshipType::Outgoing), Some(RelationshipType::Incoming)) => false,
        (Some(RelationshipType::Block), _) => false,
        _ => true,
    }
}

pub open spec fn spec_friend_add(p: RelationPair) -> Result<FriendAddStep, Rejection> {
    match (p.forward, p.reverse) {
        (Some(RelationshipType::Incoming), Some(RelationshipType::Outgoing)) => Ok(
            FriendAddStep::Accept,
        ),
        (_, Some(RelationshipType::Block)) => Err(Rejection::Server(Error::Blocked)),
        (None, None) => Ok(FriendAddStep::Request),
        (Some(RelationshipType::Friend), Some(RelationshipType::Friend)) => Ok(
            FriendAddStep::Unchanged,
        ),
        (Some(RelationshipType::Outgoing), Some(RelationshipType::Incoming)) => Ok(
            FriendAddStep::Unchanged,
        ),
        _ => Err(Rejection::Api(ErrorCode::UnblockUserFirst)),
    }
}

/// Decides what a friend request from the user to the target does.
/// A target that blocked the user refuses it; a user who blocked the
/// target must unblock first.
pub fn friend_add(p: RelationPair) -> (res: Result<FriendAddStep, Rejection>)
    requires
        !friend_add_undefined(p),
    ensures
        res == spec_friend_add(p),
{
    match (p.forward, p.reverse) {
        (Some(RelationshipType::Incoming), Some(RelationshipType::Outgoing)) => Ok(
            FriendAddStep::Accept,
        ),
        (_, Some(RelationshipType::Block)) => Err(Rejection::Server(Error::Blocked)),
        (None, None) => Ok(FriendAddStep::Request),
        (Some(RelationshipType::Friend), Some(RelationshipType::Friend)) => Ok(
            FriendAddStep::Unchanged,
        ),
        (Some(RelationshipType::Outgoing), Some(RelationshipType::Incoming)) => Ok(
            FriendAddStep::Unchanged,
        ),
        _ => Err(Rejection::Api(ErrorCode::UnblockUserFirst)),
    }
}

pub open spec fn spec_friend_add_update(s: FriendAddStep) -> RelationUpdate {
    match s {
        FriendAddStep::Accept => RelationUpdate {
            forward: RelationWrite::Put(RelationshipType::Friend),
            reverse: RelationWrite::Put(RelationshipType::Friend),
        },
        FriendAddStep::Request => RelationUpdate {
            forward: RelationWrite::Put(RelationshipType::Outgoing),
            reverse: RelationWrite::Put(RelationshipType::Incoming),
        },
        FriendAddStep::Unchanged => RelationUpdate {
            forward: RelationWrite::Keep,
            reverse: RelationWrite::Keep,
        },
    }
}

/// The writes that a friend-request step makes.
pub fn friend_add_update(s: FriendAddStep) -> (res: RelationUpdate)
    ensures
        res == spec_friend_add_update(s),
{
    match s {
        FriendAddStep::Accept => RelationUpdate {
            forward: RelationWrite::Put(RelationshipType::Friend),
            reverse: RelationWrite::Put(RelationshipType::Friend),
        },
        FriendAddStep::Request => RelationUpdate {
            forward: RelationWrite::Put(RelationshipType::Outgoing),
            reverse: RelationWrite::Put(RelationshipType::Incoming),
        },
        FriendAddStep::Unchanged => RelationUpdate {
            forward: RelationWrite::Keep,
            reverse: RelationWrite::Keep,
        },
    }
}

/// What a target's privacy preferences say of friend requests.
#[derive(Clone, Copy, PartialEq, Eq, Structural, Debug)]
pub struct FriendPrefs {
    /// Requests are refused until this time (nanoseconds since the epoch).
    pub pause_until: Option<i128>,
    pub allow_everyone: bool,
    pub allow_mutual_room: bool,
    pub allow_mutual_friend: bool,
}

pub open spec fn spec_friend_request_gate(
    has_friend_create: bool,
    prefs: FriendPrefs,
    now: i128,
    shares_room: bool,
    has_mutual_friend: bool,
) -> Result<(), Rejection> {
    if !has_friend_create {
        Err(Rejection::Server(Error::MissingPermissions))
    } else if prefs.pause_until matches Some(t) && t > now {
        Err(Rejection::Api(ErrorCode::FriendRequestsPaused))
    } else if !(prefs.allow_everyone || (prefs.allow_mutual_room && shares_room) || (
    prefs.allow_mutual_friend && has_mutual_friend)) {
        Err(Rejection::Api(ErrorCode::InvalidData))
    } else {
        Ok(())
    }
}

/// Whether a new friend request may be sent: the user needs the
/// `FriendCreate` permission, the target must not have paused requests, and
/// the target must allow requests from everyone, or from users sharing a
/// room (`shares_room`), or from friends of friends (`has_mutual_friend`).
pub fn friend_request_gate(
    has_friend_create: bool,
    prefs: FriendPrefs,
    now: i128,
    shares_room: bool,
    has_mutual_friend: bool,
) -> (res: Result<(), Rejection>)
    ensures
        res == spec_friend_request_gate(
            has_friend_create,
            prefs,
            now,
            shares_room,
            has_mutual_friend,
        ),
        res is Ok ==> has_friend_create && (prefs.allow_everyone || (prefs.allow_mutual_room
            && shares_room) || (prefs.allow_mutual_friend && has_mutual_friend)),
        !prefs.allow_everyone && !prefs.allow_mutual_room && !has_mutual_friend ==> res is Err,
        !prefs.allow_everyone && !prefs.allow_mutual_friend && !shares_room ==> res is Err,
{
    if !has_friend_create {
        return Err(Rejection::Server(Error::MissingPermissions));
    }
    if let Some(t) = prefs.pause_until {
        if t > now {
            return Err(Rejection::Api(ErrorCode::FriendRequestsPaused));
        }
    }
    let allowed = if prefs.allow_everyone {
        true
    } else {
        (prefs.allow_mutual_room && shares_room) || (prefs.allow_mutual_friend
            && has_mutual_friend)
    };
    if !allowed {
        return Err(Rejection::Api(ErrorCode::InvalidData));
    }
    Ok(())
}

/// Who may send a friend request: someone holding `FriendCreate`, while the
/// target has not paused requests, and only through a door the target left
/// open: requests from everyone; from people sharing a room with them (only
/// when that is allowed); or from friends of their friends (only when that
/// is allowed). Sharing a room never stands in for a mutual friend, nor the
/// reverse.
pub proof fn law_friend_request_doors(
    has_friend_create: bool,
    prefs: FriendPrefs,
    now: i128,
    shares_room: bool,
    has_mutual_friend: bool,
)
    ensures
        ({
            let g = spec_friend_request_gate(
                has_friend_create,
                prefs,
                now,
                shares_room,
                has_mutual_friend,
            );
            let paused = prefs.pause_until matches Some(t) && t > now;
            let door = prefs.allow_everyone || (prefs.allow_mutual_room && shares_room) || (
            prefs.allow_mutual_friend && has_mutual_friend);
            &&& g is Ok <==> has_friend_create && !paused && door
            &&& !has_friend_create ==> g == Err::<(), Rejection>(
                Rejection::Server(Error::MissingPermissions),
            )
            &&& has_friend_create && paused ==> g == Err::<(), Rejection>(
                Rejection::Api(ErrorCode::FriendRequestsPaused),
            )
            &&& has_friend_create && !paused && !door ==> g == Err::<(), Rejection>(
                Rejection::Api(ErrorCode::InvalidData),
            )
            &&& !prefs.allow_everyone && !prefs.allow_mutual_room && !has_mutual_friend ==> g is Err
            &&& !prefs.allow_everyone && !prefs.allow_mutual_friend && !shares_room ==> g is Err
        }),
{
}

pub open spec fn is_pending_or_friend(r: Option<RelationshipType>) -> bool {
    r == Some(RelationshipType::Friend) || r == Some(RelationshipType::Incoming) || r == Some(
        RelationshipType::Outgoing,
    )
}

pub open spec fn spec_friend_remove(p: RelationPair) -> RelationUpdate {
    if is_pending_or_friend(p.forward) {
        RelationUpdate {
            forward: RelationWrite::Delete,
            reverse: if is_pending_or_friend(p.reverse) {
                RelationWrite::Delete
            } else {
                RelationWrite::Keep
            },
        }
    } else {
        RelationUpdate { forward: RelationWrite::Keep, reverse: RelationWrite::Keep }
    }
}

fn pending_or_friend(r: Option<RelationshipType>) -> (res: bool)
    ensures
        res == is_pending_or_friend(r),
{
    match r {
        Some(RelationshipType::Friend) | Some(RelationshipType::Incoming) | Some(
            RelationshipType::Outgoing,
        ) => true,
        _ => false,
    }
}

/// The writes that removing a friend (or withdrawing or rejecting a
/// request) makes: a friendship or pending request is deleted on both
/// sides; a block stays.
pub fn friend_remove(p: RelationPair) -> (res: RelationUpdate)
    ensures
        res == spec_friend_remove(p),
{
    if pending_or_friend(p.forward) {
        RelationUpdate {
            forward: RelationWrite::Delete,
            reverse: if pending_or_friend(p.reverse) {
                RelationWrite::Delete
            } else {
                RelationWrite::Keep
            },
        }
    } else {
        RelationUpdate { forward: RelationWrite::Keep, reverse: RelationWrite::Keep }
    }
}

/// Whether removing a friend writes a friend-deletion audit entry: only
/// when it ends a friendship (the user's side is `Friend`), not when it
/// withdraws or rejects a pending request, nor when there was nothing to
/// remove.
pub fn friend_remove_audits(forward: Option<RelationshipType>) -> (res: bool)
    ensures
        res == (forward == Some(RelationshipType::Friend)),
{
    match forward {
        Some(RelationshipType::Friend) => true,
        _ => false,
    }
}

pub open spec fn spec_block_add(p: RelationPair) -> RelationUpdate {
    RelationUpdate {
        forward: RelationWrite::Put(RelationshipType::Block),
        reverse: if p.reverse == Some(RelationshipType::Block) || p.reverse is None {
            RelationWrite::Keep
        } else {
            RelationWrite::Delete
        },
    }
}

/// The writes that blocking the target makes: the user's side becomes a
/// block, and whatever the target had towards the user is dropped unless
/// it is a block too.
pub fn block_add(p: RelationPair) -> (res: RelationUpdate)
    ensures
        res == spec_block_add(p),
{
    let reverse = match p.reverse {
        Some(RelationshipType::Block) => RelationWrite::Keep,
        None => RelationWrite::Keep,
        _ => RelationWrite::Delete,
    };
    RelationUpdate { forward: RelationWrite::Put(RelationshipType::Block), reverse }
}

pub open spec fn spec_block_remove(p: RelationPair) -> RelationUpdate {
    RelationUpdate {
        forward: if p.forward == Some(RelationshipType::Block) {
            RelationWrite::Delete
        } else {
            RelationWrite::Keep
        },
        reverse: RelationWrite::Keep,
    }
}

/// The writes that unblocking the target makes: the user's block is
/// deleted; nothing else changes.
pub fn block_remove(p: RelationPair) -> (res: RelationUpdate)
    ensures
        res == spec_block_remove(p),
{
    let forward = match p.forward {
        Some(RelationshipType::Block) => RelationWrite::Delete,
        _ => RelationWrite::Keep,
    };
    RelationUpdate { forward, reverse: RelationWrite::Keep }
}

pub open spec fn spec_friend_invite_use() -> RelationUpdate {
    RelationUpdate {
        forward: RelationWrite::Put(RelationshipType::Friend),
        reverse: RelationWrite::Put(RelationshipType::Friend),
    }
}

/// The writes that using a user's friend invite makes: both become friends.
pub fn friend_invite_use() -> (res: RelationUpdate)
    ensures
        res == spec_friend_invite_use(),
{
    RelationUpdate {
        forward: RelationWrite::Put(RelationshipType::Friend),
        reverse: RelationWrite::Put(RelationshipType::Friend),
    }
}

/// On every pair that the operations leave in the store, a friend request
/// has a defined outcome.
pub proof fn law_valid_pairs_have_friend_add_outcome(p: RelationPair)
    requires
        pair_valid(p),
    ensures
        !friend_add_undefined(p),
{
}

/// Every relationship operation maps a valid pair to a valid pair: a
/// friend request (whatever its step), removing a friend, blocking,
/// unblocking and using a friend invite.
pub proof fn law_operations_keep_pairs_valid(p: RelationPair)
    requires
        pair_valid(p),
    ensures
        spec_friend_add(p) matches Ok(s) ==> pair_valid(
            apply_update(p, spec_friend_add_update(s)),
        ),
        pair_valid(apply_update(p, spec_friend_remove(p))),
        pair_valid(apply_update(p, spec_block_add(p))),
        pair_valid(apply_update(p, spec_block_remove(p))),
        pair_valid(apply_update(p, spec_friend_invite_use())),
{
}

/// A pair is valid exactly when it is valid seen from the other side, so
/// the operations keep the store valid whichever of the two users acts.
pub proof fn law_validity_is_symmetric(p: RelationPair)
    ensures
        pair_valid(p) <==> pair_valid(swapped(p)),
{
}

/// A request sent where nothing stood between two users, accepted by the
/// target, makes them friends on both sides.
pub proof fn law_request_then_accept_makes_friends(p: RelationPair)
    requires
        p.forward is None,
        p.reverse is None,
    ensures
        spec_friend_add(p) == Ok::<FriendAddStep, Rejection>(FriendAddStep::Request),
        ({
            let after = apply_update(p, spec_friend_add_update(FriendAddStep::Request));
            &&& spec_friend_add(swapped(after)) == Ok::<FriendAddStep, Rejection>(
                FriendAddStep::Accept,
            )
            &&& apply_update(swapped(after), spec_friend_add_update(FriendAddStep::Accept))
                == RelationPair {
                forward: Some(RelationshipType::Friend),
                reverse: Some(RelationshipType::Friend),
            }
        }),
{
}

/// Removing a friend, or withdrawing or rejecting a request, leaves
/// nothing between the two users.
pub proof fn law_remove_clears_friendship(p: RelationPair)
    requires
        pair_valid(p),
        is_pending_or_friend(p.forward),
    ensures
        apply_update(p, spec_friend_remove(p)) == (RelationPair { forward: None, reverse: None }),
{
}

/// After blocking, the user's side is a block, and the target holds no
/// friendship or request towards the user.
pub proof fn law_block_severs(p: RelationPair)
    ensures
        apply_update(p, spec_block_add(p)).forward == Some(RelationshipType::Block),
        !is_pending_or_friend(apply_update(p, spec_block_add(p)).reverse),
{
}

/// Blocking then unblocking leaves nothing on the user's side.
pub proof fn law_unblock_undoes_block(p: RelationPair)
    ensures
        ({
            let blocked = apply_update(p, spec_block_add(p));
            apply_update(blocked, spec_block_remove(blocked)).forward is None
        }),
{
}

/// Muting a user, until a time (in the store's time unit) or for good.
#[derive(Clone, Copy, PartialEq, Eq, Structural, Debug)]
pub struct Ignore {
    pub until: Option<i128>,
}

/// How a user stands towards another, as clients see it.
#[derive(Clone, Copy, PartialEq, Eq, Structural, Debug)]
pub struct Relationship {
    pub relation: Option<RelationshipType>,
    pub ignore: Option<Ignore>,
}

/// A relationship as stored: the relation, whether the other user is
/// muted, and until when.
#[derive(Clone, Copy, PartialEq, Eq, Structural, Debug)]
pub struct RelationshipRow {
    pub rel: Option<RelationshipType>,
    pub ignore: bool,
    pub ignore_until: Option<i128>,
}

pub open spec fn spec_to_row(r: Relationship) -> RelationshipRow {
    RelationshipRow {
        rel: r.relation,
        ignore: r.ignore is Some,
        ignore_until: match r.ignore {
            Some(i) => i.until,
            None => None,
        },
    }
}

pub open spec fn spec_from_row(row: RelationshipRow) -> Relationship {
    Relationship {
        relation: row.rel,
        ignore: if row.ignore {
            Some(Ignore { until: row.ignore_until })
        } else {
            None
        },
    }
}

impl Relationship {
    /// The row that stores a relationship.
    pub fn to_row(self) -> (res: RelationshipRow)
        ensures
            res == spec_to_row(self),
    {
        RelationshipRow {
            rel: self.relation,
            ignore: self.ignore.is_some(),
            ignore_until: match self.ignore {
                Some(i) => i.until,
                None => None,
            },
        }
    }
}

impl RelationshipRow {
    /// The relationship a row stores: a mute, if the row has one, lasts
    /// until the row's time.
    pub fn to_relationship(self) -> (res: Relationship)
        ensures
            res == spec_from_row(self),
    {
        Relationship {
            relation: self.rel,
            ignore: if self.ignore {
                Some(Ignore { until: self.ignore_until })
            } else {
                None
            },
        }
    }
}

/// Storing a relationship and reading it back gives the same relationship.
pub proof fn law_row_round_trip(r: Relationship)
    ensures
        spec_from_row(spec_to_row(r)) == r,
{
}

/// A row read as a relationship and stored again is the same row, unless
/// it holds a mute time without a mute (which is dropped).
pub proof fn law_row_normal_form(row: RelationshipRow)
    requires
        row.ignore || row.ignore_until is None,
    ensures
        spec_to_row(spec_from_row(row)) == row,
{
}

} // verus!
