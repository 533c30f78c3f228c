use lamprey_backend::error::{Error, ErrorCode, Rejection};
use lamprey_backend::relationship::{
    block_add, block_remove, friend_add, friend_remove_audits, friend_add_update, friend_invite_use, friend_remove,
    friend_request_gate, FriendAddStep, FriendPrefs, Ignore, RelationPair, RelationUpdate,
    RelationWrite, Relationship, RelationshipRow, RelationshipType,
};

use RelationshipType::{Block, Friend, Incoming, Outgoing};

fn pair(forward: Option<RelationshipType>, reverse: Option<RelationshipType>) -> RelationPair {
    RelationPair { forward, reverse }
}

fn write(cur: Option<RelationshipType>, w: RelationWrite) -> Option<RelationshipType> {
    match w {
        RelationWrite::Keep => cur,
        RelationWrite::Put(t) => Some(t),
        RelationWrite::Delete => None,
    }
}

fn apply(p: RelationPair, u: RelationUpdate) -> RelationPair {
    pair(write(p.forward, u.forward), write(p.reverse, u.reverse))
}

fn swap(p: RelationPair) -> RelationPair {
    pair(p.reverse, p.forward)
}

fn valid_pairs() -> Vec<RelationPair> {
    vec![
        pair(None, None),
        pair(Some(Friend), Some(Friend)),
        pair(Some(Outgoing), Some(Incoming)),
        pair(Some(Incoming), Some(Outgoing)),
        pair(Some(Block), None),
        pair(None, Some(Block)),
        pair(Some(Block), Some(Block)),
    ]
}

fn is_valid(p: RelationPair) -> bool {
    valid_pairs().contains(&p)
}

fn prefs(everyone: bool) -> FriendPrefs {
    FriendPrefs { pause_until: None, allow_everyone: everyone, allow_mutual_room: false, allow_mutual_friend: false }
}

#[test]
fn friend_request_steps() {
    assert!(matches!(friend_add(pair(None, None)), Ok(FriendAddStep::Request)));
    assert!(matches!(friend_add(pair(Some(Incoming), Some(Outgoing))), Ok(FriendAddStep::Accept)));
    assert!(matches!(friend_add(pair(Some(Friend), Some(Friend))), Ok(FriendAddStep::Unchanged)));
    assert!(matches!(friend_add(pair(Some(Outgoing), Some(Incoming))), Ok(FriendAddStep::Unchanged)));
    assert!(matches!(friend_add(pair(None, Some(Block))), Err(Rejection::Server(Error::Blocked))));
    assert!(matches!(friend_add(pair(Some(Block), Some(Block))), Err(Rejection::Server(Error::Blocked))));
    assert!(matches!(friend_add(pair(Some(Block), None)), Err(Rejection::Api(ErrorCode::UnblockUserFirst))));
}

#[test]
fn friend_request_preferences() {
    assert!(friend_request_gate(true, prefs(true), 0, false, false).is_ok());
    assert!(matches!(
        friend_request_gate(false, prefs(true), 0, false, false),
        Err(Rejection::Server(Error::MissingPermissions))
    ));
    let mut paused = prefs(true);
    paused.pause_until = Some(100);
    assert!(matches!(
        friend_request_gate(true, paused, 99, false, false),
        Err(Rejection::Api(ErrorCode::FriendRequestsPaused))
    ));
    assert!(friend_request_gate(true, paused, 100, false, false).is_ok());
    assert!(matches!(
        friend_request_gate(true, prefs(false), 0, true, true),
        Err(Rejection::Api(ErrorCode::InvalidData))
    ));
    let mut rooms = prefs(false);
    rooms.allow_mutual_room = true;
    assert!(friend_request_gate(true, rooms, 0, true, false).is_ok());
    assert!(friend_request_gate(true, rooms, 0, false, true).is_err());
    let mut friends = prefs(false);
    friends.allow_mutual_friend = true;
    assert!(friend_request_gate(true, friends, 0, false, true).is_ok());
}

#[test]
fn every_operation_keeps_pairs_valid() {
    for p in valid_pairs() {
        assert!(is_valid(swap(p)));
        if let Ok(step) = friend_add(p) {
            assert!(is_valid(apply(p, friend_add_update(step))), "{p:?}");
        }
        assert!(is_valid(apply(p, friend_remove(p))), "{p:?}");
        assert!(is_valid(apply(p, block_add(p))), "{p:?}");
        assert!(is_valid(apply(p, block_remove(p))), "{p:?}");
        assert!(is_valid(apply(p, friend_invite_use())), "{p:?}");
    }
}

#[test]
fn request_then_accept_makes_friends() {
    let start = pair(None, None);
    let step = friend_add(start).ok().unwrap();
    assert_eq!(step, FriendAddStep::Request);
    let after = apply(start, friend_add_update(step));
    assert_eq!(after, pair(Some(Outgoing), Some(Incoming)));
    let theirs = swap(after);
    let accept = friend_add(theirs).ok().unwrap();
    assert_eq!(accept, FriendAddStep::Accept);
    assert_eq!(apply(theirs, friend_add_update(accept)), pair(Some(Friend), Some(Friend)));
}

#[test]
fn removing_a_friend_clears_both_sides() {
    for p in [pair(Some(Friend), Some(Friend)), pair(Some(Outgoing), Some(Incoming)), pair(Some(Incoming), Some(Outgoing))] {
        assert_eq!(apply(p, friend_remove(p)), pair(None, None));
    }
    // a block stays
    let blocked = pair(Some(Block), None);
    assert_eq!(apply(blocked, friend_remove(blocked)), blocked);
}

#[test]
fn blocking_severs_and_unblocking_undoes() {
    for p in valid_pairs() {
        let blocked = apply(p, block_add(p));
        assert_eq!(blocked.forward, Some(Block));
        assert!(!matches!(blocked.reverse, Some(Friend) | Some(Incoming) | Some(Outgoing)));
        let unblocked = apply(blocked, block_remove(blocked));
        assert_eq!(unblocked.forward, None);
    }
    // the other side's block stays
    let both = pair(None, Some(Block));
    assert_eq!(apply(both, block_add(both)), pair(Some(Block), Some(Block)));
}

#[test]
fn relationship_rows_round_trip() {
    let cases = [
        Relationship { relation: None, ignore: None },
        Relationship { relation: Some(Friend), ignore: Some(Ignore { until: None }) },
        Relationship { relation: Some(Block), ignore: Some(Ignore { until: Some(42) }) },
    ];
    for r in cases {
        assert_eq!(r.to_row().to_relationship(), r);
    }
    let row = RelationshipRow { rel: Some(Incoming), ignore: true, ignore_until: Some(7) };
    assert_eq!(row.to_relationship().to_row(), row);
    // a mute time without a mute is not kept
    let odd = RelationshipRow { rel: None, ignore: false, ignore_until: Some(7) };
    assert_eq!(odd.to_relationship().to_row(), RelationshipRow { rel: None, ignore: false, ignore_until: None });
}

#[test]
fn only_ending_a_friendship_is_audited() {
    assert!(friend_remove_audits(Some(Friend)));
    assert!(!friend_remove_audits(Some(Incoming)));
    assert!(!friend_remove_audits(Some(Outgoing)));
    assert!(!friend_remove_audits(Some(Block)));
    assert!(!friend_remove_audits(None));
}
