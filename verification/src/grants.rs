use vstd::prelude::*;

use crate::error::{Error, ErrorCode, Rejection};
use crate::perms::{contains_permission, Permission};
use crate::room::{room_security_checks, spec_room_security_checks, RoomSecurity};

verus! {

/// Whether no permission is both allowed and denied.
pub open spec fn disjoint(allow: Seq<Permission>, deny: Seq<Permission>) -> bool {
    forall|p: Permission| !(allow.contains(p) && deny.contains(p))
}

/// Whether an allow list and a deny list share no permission.
pub fn are_disjoint(allow: &Vec<Permission>, deny: &Vec<Permission>) -> (res: bool)
    ensures
        res == disjoint(allow@, deny@),
{
    let mut i: usize = 0;
    while i < allow.len()
        invariant
            i <= allow.len(),
            forall|j: int| 0 <= j < i ==> !deny@.contains(#[trigger] allow@[j]),
        decreases allow.len() - i,
    {
        if contains_permission(deny, allow[i]) {
            return false;
        }
        i = i + 1;
    }
    proof {
        assert forall|p: Permission| !(allow@.contains(p) && deny@.contains(p)) by {
            if allow@.contains(p) {
                let j = choose|j: int| 0 <= j < allow@.len() && allow@[j] == p;
                assert(!deny@.contains(allow@[j]));
            }
        }
    }
    true
}

/// The permissions of `v` that are not in `drop`, in order.
pub fn without(v: &Vec<Permission>, drop: &Vec<Permission>) -> (res: Vec<Permission>)
    ensures
        res@ == v@.filter(|p: Permission| !drop@.contains(p)),
{
    let ghost keep = |p: Permission| !drop@.contains(p);
    let mut out: Vec<Permission> = Vec::new();
    let mut i: usize = 0;
    while i < v.len()
        invariant
            i <= v.len(),
            keep == (|p: Permission| !drop@.contains(p)),
            out@ == v@.take(i as int).filter(keep),
        decreases v.len() - i,
    {
        proof {
            assert(v@.take(i + 1).drop_last() =~= v@.take(i as int));
            reveal(Seq::filter);
        }
        if !contains_permission(drop, v[i]) {
            out.push(v[i]);
        }
        i = i + 1;
    }
    proof {
        assert(v@.take(v@.len() as int) =~= v@);
    }
    out
}

/// A role's allow and deny lists after an edit that sets only one of them:
/// setting only the allow list drops the newly allowed permissions from the
/// deny list (and the reverse), so that the edit does not conflict with what
/// was there. The other list is only written when that drops something.
pub open spec fn spec_normalize(
    start_allow: Seq<Permission>,
    start_deny: Seq<Permission>,
    allow: Option<Seq<Permission>>,
    deny: Option<Seq<Permission>>,
) -> (Option<Seq<Permission>>, Option<Seq<Permission>>) {
    match (allow, deny) {
        (Some(a), None) => {
            let nd = start_deny.filter(|p: Permission| !a.contains(p));
            (Some(a), if nd.len() != start_deny.len() { Some(nd) } else { None })
        },
        (None, Some(d)) => {
            let na = start_allow.filter(|p: Permission| !d.contains(p));
            (if na.len() != start_allow.len() { Some(na) } else { None }, Some(d))
        },
        _ => (allow, deny),
    }
}

pub open spec fn opt_seq(v: Option<Vec<Permission>>) -> Option<Seq<Permission>> {
    match v {
        Some(x) => Some(x@),
        None => None,
    }
}

/// Completes a role edit that sets only one of the allow and deny lists.
pub fn normalize_role_patch(
    start_allow: &Vec<Permission>,
    start_deny: &Vec<Permission>,
    allow: Option<Vec<Permission>>,
    deny: Option<Vec<Permission>>,
) -> (res: (Option<Vec<Permission>>, Option<Vec<Permission>>))
    ensures
        (opt_seq(res.0), opt_seq(res.1)) == spec_normalize(
            start_allow@,
            start_deny@,
            opt_seq(allow),
            opt_seq(deny),
        ),
{
    match (allow, deny) {
        (Some(a), None) => {
            let nd = without(start_deny, &a);
            if nd.len() != start_deny.len() {
                (Some(a), Some(nd))
            } else {
                (Some(a), None)
            }
        },
        (None, Some(d)) => {
            let na = without(start_allow, &d);
            if na.len() != start_allow.len() {
                (Some(na), Some(d))
            } else {
                (None, Some(d))
            }
        },
        (a, d) => (a, d),
    }
}

/// The lists a role ends up with: those an edit sets, else those it had.
pub open spec fn effective(start: Seq<Permission>, set: Option<Seq<Permission>>) -> Seq<Permission> {
    match set {
        Some(s) => s,
        None => start,
    }
}

/// An edit of a role that sets only one of its lists, once completed, never
/// makes the role allow and deny a permission at once.
pub proof fn law_normalized_edit_is_disjoint(
    start_allow: Seq<Permission>,
    start_deny: Seq<Permission>,
    allow: Option<Seq<Permission>>,
    deny: Option<Seq<Permission>>,
)
    requires
        allow is Some != deny is Some,
    ensures
        ({
            let n = spec_normalize(start_allow, start_deny, allow, deny);
            disjoint(effective(start_allow, n.0), effective(start_deny, n.1))
        }),
{
    let n = spec_normalize(start_allow, start_deny, allow, deny);
    match (allow, deny) {
        (Some(a), None) => {
            let f = |p: Permission| !a.contains(p);
            let nd = start_deny.filter(f);
            assert forall|p: Permission| !(a.contains(p) && effective(start_deny, n.1).contains(p)) by {
                if a.contains(p) && effective(start_deny, n.1).contains(p) {
                    if nd.len() != start_deny.len() {
                        assert(nd.contains(p));
                        assert(f(p));
                    } else {
                        lemma_filter_same_len_keeps_all(start_deny, f);
                        assert(start_deny.contains(p));
                        let j = choose|j: int| 0 <= j < start_deny.len() && start_deny[j] == p;
                        assert(f(start_deny[j]));
                    }
                }
            }
        },
        (None, Some(d)) => {
            let f = |p: Permission| !d.contains(p);
            let na = start_allow.filter(f);
            assert forall|p: Permission| !(effective(start_allow, n.0).contains(p) && d.contains(p)) by {
                if effective(start_allow, n.0).contains(p) && d.contains(p) {
                    if na.len() != start_allow.len() {
                        assert(na.contains(p));
                        assert(f(p));
                    } else {
                        lemma_filter_same_len_keeps_all(start_allow, f);
                        let j = choose|j: int| 0 <= j < start_allow.len() && start_allow[j] == p;
                        assert(f(start_allow[j]));
                    }
                }
            }
        },
        _ => {},
    }
}

/// A filter that keeps as many elements as there were keeps every one.
proof fn lemma_filter_same_len_keeps_all(s: Seq<Permission>, f: spec_fn(Permission) -> bool)
    requires
        s.filter(f).len() == s.len(),
    ensures
        forall|j: int| 0 <= j < s.len() ==> f(#[trigger] s[j]),
    decreases s.len(),
{
    reveal(Seq::filter);
    if s.len() > 0 {
        let init = s.drop_last();
        init.lemma_filter_len(f);
        s.lemma_filter_len(f);
        if f(s.last()) {
            assert(s.filter(f) == init.filter(f).push(s.last()));
            lemma_filter_same_len_keeps_all(init, f);
            assert forall|j: int| 0 <= j < s.len() implies f(#[trigger] s[j]) by {
                if j < init.len() {
                    assert(s[j] == init[j]);
                }
            }
        } else {
            assert(s.filter(f) == init.filter(f));
            assert(init.filter(f).len() <= init.len());
        }
    }
}

/// The permissions in exactly one of two lists.
pub open spec fn in_sym_diff(a: Seq<Permission>, b: Seq<Permission>, p: Permission) -> bool {
    a.contains(p) != b.contains(p)
}

/// Changing a permission in a role's (or an overwrite's) lists needs the
/// permission itself: succeeds when the user holds every permission that is
/// in exactly one of `old` and `new`.
pub fn ensure_changes_held(granted: &Vec<Permission>, old: &Vec<Permission>, new: &Vec<Permission>) -> (res:
    Result<(), Error>)
    ensures
        res is Ok <==> forall|p: Permission| in_sym_diff(old@, new@, p) ==> granted@.contains(p),
        res is Err ==> res == Err::<(), Error>(Error::MissingPermissions),
{
    let mut i: usize = 0;
    while i < new.len()
        invariant
            i <= new.len(),
            forall|j: int|
                0 <= j < i ==> (!old@.contains(#[trigger] new@[j]) ==> granted@.contains(new@[j])),
        decreases new.len() - i,
    {
        if !contains_permission(old, new[i]) && !contains_permission(granted, new[i]) {
            return Err(Error::MissingPermissions);
        }
        i = i + 1;
    }
    let mut k: usize = 0;
    while k < old.len()
        invariant
            k <= old.len(),
            forall|j: int|
                0 <= j < new@.len() ==> (!old@.contains(#[trigger] new@[j]) ==> granted@.contains(new@[j])),
            forall|j: int|
                0 <= j < k ==> (!new@.contains(#[trigger] old@[j]) ==> granted@.contains(old@[j])),
        decreases old.len() - k,
    {
        if !contains_permission(new, old[k]) && !contains_permission(granted, old[k]) {
            return Err(Error::MissingPermissions);
        }
        k = k + 1;
    }
    proof {
        assert forall|p: Permission| in_sym_diff(old@, new@, p) implies granted@.contains(p) by {
            if new@.contains(p) {
                let j = choose|j: int| 0 <= j < new@.len() && new@[j] == p;
                assert(!old@.contains(new@[j]) ==> granted@.contains(new@[j]));
            } else {
                let j = choose|j: int| 0 <= j < old@.len() && old@[j] == p;
                assert(!new@.contains(old@[j]) ==> granted@.contains(old@[j]));
            }
        }
    }
    Ok(())
}

pub open spec fn spec_rank_gate(auth_is_owner: bool, rank: u64, position: u64, self_apply: bool) -> Result<
    (),
    Rejection,
> {
    if rank <= position && !auth_is_owner && !self_apply {
        Err(Rejection::Api(ErrorCode::InsufficientRank))
    } else {
        Ok(())
    }
}

/// Managing a role (or applying it to a member) needs a rank above the
/// role's position, unless the user owns the room, or is applying a
/// self-applicable role to themself (`self_apply`).
pub fn rank_gate(auth_is_owner: bool, rank: u64, position: u64, self_apply: bool) -> (res: Result<
    (),
    Rejection,
>)
    ensures
        res == spec_rank_gate(auth_is_owner, rank, position, self_apply),
{
    if rank <= position && !auth_is_owner && !self_apply {
        Err(Rejection::Api(ErrorCode::InsufficientRank))
    } else {
        Ok(())
    }
}

/// Whether the rank check lets the caller apply a role to a user, a
/// self-applicable role counting as self-applied for the caller only.
pub open spec fn may_apply_to(
    user_id: u128,
    auth_id: u128,
    auth_is_owner: bool,
    rank: u64,
    position: u64,
    self_applicable: bool,
) -> bool {
    spec_rank_gate(auth_is_owner, rank, position, self_applicable && user_id == auth_id) is Ok
}

/// How far a bulk application of a role gets: the users are served in
/// order, each passing the rank check before the role is applied to them;
/// the first that fails stops the request. The result is how many users
/// were served before it stopped, and whether it stopped.
pub fn bulk_apply_prefix(
    user_ids: &Vec<u128>,
    auth_id: u128,
    auth_is_owner: bool,
    rank: u64,
    position: u64,
    self_applicable: bool,
) -> (res: (usize, bool))
    ensures
        res.0 <= user_ids@.len(),
        forall|i: int|
            0 <= i < res.0 ==> may_apply_to(
                #[trigger] user_ids@[i],
                auth_id,
                auth_is_owner,
                rank,
                position,
                self_applicable,
            ),
        res.1 <==> res.0 < user_ids@.len(),
        res.1 ==> !may_apply_to(
            user_ids@[res.0 as int],
            auth_id,
            auth_is_owner,
            rank,
            position,
            self_applicable,
        ),
{
    let mut i: usize = 0;
    while i < user_ids.len()
        invariant
            i <= user_ids@.len(),
            forall|j: int|
                0 <= j < i ==> may_apply_to(
                    #[trigger] user_ids@[j],
                    auth_id,
                    auth_is_owner,
                    rank,
                    position,
                    self_applicable,
                ),
        decreases user_ids.len() - i,
    {
        let self_apply = self_applicable && user_ids[i] == auth_id;
        if rank_gate(auth_is_owner, rank, position, self_apply).is_err() {
            return (i, true);
        }
        i = i + 1;
    }
    (i, false)
}

/// A role moved by a reorder: where it is, and where it goes.
#[derive(Clone, Copy, PartialEq, Eq, Structural, Debug)]
pub struct RoleMove {
    pub current_position: u64,
    pub new_position: u64,
}

/// Whether a user of the given rank may make one move: the role must be
/// below the user's rank, and stay below it.
pub open spec fn move_allowed(m: RoleMove, rank: u64) -> bool {
    m.current_position < rank && m.new_position < rank
}

/// Reordering roles: the room's owner may make any moves; anyone else only
/// moves that keep every role involved below their own rank. Either all
/// moves are made or none is.
pub fn reorder_gate(moves: &Vec<RoleMove>, rank: u64, auth_is_owner: bool) -> (res: Result<
    (),
    Rejection,
>)
    ensures
        res is Ok <==> (auth_is_owner || forall|i: int|
            0 <= i < moves@.len() ==> move_allowed(#[trigger] moves@[i], rank)),
        res is Err ==> res == Err::<(), Rejection>(Rejection::Api(ErrorCode::InsufficientRank)),
{
    if auth_is_owner {
        return Ok(());
    }
    let mut i: usize = 0;
    while i < moves.len()
        invariant
            i <= moves@.len(),
            !auth_is_owner,
            forall|j: int| 0 <= j < i ==> move_allowed(#[trigger] moves@[j], rank),
        decreases moves.len() - i,
    {
        let m = moves[i];
        if rank <= m.current_position || m.new_position >= rank {
            assert(!move_allowed(moves@[i as int], rank));
            return Err(Rejection::Api(ErrorCode::InsufficientRank));
        }
        i = i + 1;
    }
    Ok(())
}

/// A room's default role is the one whose id is the room's id; it cannot be
/// deleted, applied or removed.
pub fn default_role_gate(room_id: u128, role_id: u128) -> (res: Result<(), Rejection>)
    ensures
        room_id == role_id ==> res == Err::<(), Rejection>(
            Rejection::Api(ErrorCode::CannotModifyDefaultRole),
        ),
        room_id != role_id ==> res is Ok,
{
    if room_id == role_id {
        Err(Rejection::Api(ErrorCode::CannotModifyDefaultRole))
    } else {
        Ok(())
    }
}

/// A role is only deleted when nobody holds it, or when a fallback role is
/// given; otherwise the deletion answers with a conflict.
pub fn role_delete_allowed(member_count: u64, has_fallback: bool) -> (res: bool)
    ensures
        res == (member_count == 0 || has_fallback),
{
    member_count == 0 || has_fallback
}

/// A channel permission overwrite as stored.
pub struct Overwrite {
    pub id: u128,
    /// Whether the overwrite is for a role (else for a user).
    pub for_role: bool,
    pub allow: Vec<Permission>,
    pub deny: Vec<Permission>,
}

/// The index of the overwrite with the given target, if the channel has one.
pub fn find_overwrite(list: &Vec<Overwrite>, id: u128, for_role: bool) -> (res: Option<usize>)
    ensures
        match res {
            Some(i) => i < list@.len() && list@[i as int].id == id && list@[i as int].for_role
                == for_role && forall|j: int|
                0 <= j < i ==> !(list@[j].id == id && list@[j].for_role == for_role),
            None => forall|j: int|
                0 <= j < list@.len() ==> !(list@[j].id == id && list@[j].for_role == for_role),
        },
{
    let mut i: usize = 0;
    while i < list.len()
        invariant
            i <= list.len(),
            forall|j: int| 0 <= j < i ==> !(list@[j].id == id && list@[j].for_role == for_role),
        decreases list.len() - i,
    {
        if list[i].id == id && list[i].for_role == for_role {
            return Some(i);
        }
        i = i + 1;
    }
    None
}

/// Why setting a channel permission overwrite is refused.
#[derive(Clone, Copy, PartialEq, Eq, Structural, Debug)]
pub enum OverwriteFault {
    /// The same permission is both allowed and denied.
    Conflict,
    /// The channel is a thread, or not in a room.
    WrongChannel,
    /// The target ranks at or above the user, who does not own the room.
    Rank,
    /// The channel already has the most overwrites it may hold.
    TooMany,
    /// The user lacks a permission that the overwrite changes.
    Missing,
}

/// What deciding an overwrite reads.
pub struct OverwriteRequest {
    pub id: u128,
    pub for_role: bool,
    pub allow: Vec<Permission>,
    pub deny: Vec<Permission>,
}

/// Whether an overwrite is set for the request's target.
pub open spec fn targets(o: Overwrite, req: &OverwriteRequest) -> bool {
    o.id == req.id && o.for_role == req.for_role
}

/// Whether the `i`th overwrite is the first one set for the request's target.
pub open spec fn is_first_target(existing: Seq<Overwrite>, req: &OverwriteRequest, i: int) -> bool {
    0 <= i < existing.len() && targets(existing[i], req) && forall|j: int|
        0 <= j < i ==> !targets(existing[j], req)
}

/// The checks an overwrite passes before the existing ones are looked at:
/// its lists do not conflict, the channel is a room channel and not a
/// thread, and the user outranks the target or owns the room.
pub open spec fn passes_front(
    req: &OverwriteRequest,
    is_thread: bool,
    in_room: bool,
    auth_is_owner: bool,
    rank: u64,
    other_rank: u64,
) -> bool {
    disjoint(req.allow@, req.deny@) && !is_thread && in_room && (auth_is_owner || rank
        > other_rank)
}

/// Whether the user holds every permission that replacing an overwrite changes.
pub open spec fn changes_held(o: Overwrite, req: &OverwriteRequest, granted: Seq<Permission>) -> bool {
    (forall|p: Permission| in_sym_diff(o.allow@, req.allow@, p) ==> granted.contains(p)) && (
    forall|p: Permission| in_sym_diff(o.deny@, req.deny@, p) ==> granted.contains(p))
}

/// Whether the user holds every permission of a new overwrite.
pub open spec fn new_held(req: &OverwriteRequest, granted: Seq<Permission>) -> bool {
    forall|p: Permission| req.allow@.contains(p) || req.deny@.contains(p) ==> granted.contains(p)
}

/// Decides whether a permission overwrite may be set on a channel. The
/// lists must not conflict; the channel must be a room channel that is not
/// a thread (`in_room`, `is_thread`); the target (a role at `other_rank`,
/// or a user of that rank) must rank below the user unless the user owns
/// the room; a channel holds at most `max` overwrites; and the user must
/// hold every permission that the overwrite changes (all of its
/// permissions for a new one). The index of the overwrite it replaces is
/// returned.
pub fn overwrite_decision(
    req: &OverwriteRequest,
    is_thread: bool,
    in_room: bool,
    auth_is_owner: bool,
    rank: u64,
    other_rank: u64,
    existing: &Vec<Overwrite>,
    max: usize,
    granted: &Vec<Permission>,
) -> (res: Result<Option<usize>, OverwriteFault>)
    ensures
        !disjoint(req.allow@, req.deny@) ==> res == Err::<Option<usize>, OverwriteFault>(
            OverwriteFault::Conflict,
        ),
        disjoint(req.allow@, req.deny@) && (is_thread || !in_room) ==> res == Err::<
            Option<usize>,
            OverwriteFault,
        >(OverwriteFault::WrongChannel),
        disjoint(req.allow@, req.deny@) && !is_thread && in_room && rank <= other_rank
            && !auth_is_owner ==> res == Err::<Option<usize>, OverwriteFault>(OverwriteFault::Rank),
        res matches Ok(Some(i)) ==> i < existing@.len() && existing@[i as int].id == req.id
            && existing@[i as int].for_role == req.for_role && (forall|p: Permission|
            in_sym_diff(existing@[i as int].allow@, req.allow@, p) ==> granted@.contains(p)) && (
        forall|p: Permission|
            in_sym_diff(existing@[i as int].deny@, req.deny@, p) ==> granted@.contains(p)),
        res matches Ok(None) ==> existing@.len() < max && (forall|j: int|
            0 <= j < existing@.len() ==> !(existing@[j].id == req.id && existing@[j].for_role
                == req.for_role)) && (forall|p: Permission|
            req.allow@.contains(p) || req.deny@.contains(p) ==> granted@.contains(p)),
        res is Ok ==> disjoint(req.allow@, req.deny@) && !is_thread && in_room && (auth_is_owner
            || rank > other_rank),
        passes_front(req, is_thread, in_room, auth_is_owner, rank, other_rank) && (forall|j: int|
            0 <= j < existing@.len() ==> !targets(#[trigger] existing@[j], req)) ==> {
            &&& existing@.len() >= max ==> res == Err::<Option<usize>, OverwriteFault>(
                OverwriteFault::TooMany,
            )
            &&& existing@.len() < max && new_held(req, granted@) ==> res == Ok::<
                Option<usize>,
                OverwriteFault,
            >(None)
            &&& existing@.len() < max && !new_held(req, granted@) ==> res == Err::<
                Option<usize>,
                OverwriteFault,
            >(OverwriteFault::Missing)
        },
        forall|i: int|
            passes_front(req, is_thread, in_room, auth_is_owner, rank, other_rank)
                && #[trigger] is_first_target(existing@, req, i) ==> {
                &&& changes_held(existing@[i], req, granted@) ==> res == Ok::<
                    Option<usize>,
                    OverwriteFault,
                >(Some(i as usize))
                &&& !changes_held(existing@[i], req, granted@) ==> res == Err::<
                    Option<usize>,
                    OverwriteFault,
                >(OverwriteFault::Missing)
            },
{
    if !are_disjoint(&req.allow, &req.deny) {
        return Err(OverwriteFault::Conflict);
    }
    if is_thread || !in_room {
        return Err(OverwriteFault::WrongChannel);
    }
    if rank <= other_rank && !auth_is_owner {
        return Err(OverwriteFault::Rank);
    }
    match find_overwrite(existing, req.id, req.for_role) {
        Some(i) => {
            proof {
                assert(is_first_target(existing@, req, i as int));
                assert forall|k: int| #[trigger] is_first_target(existing@, req, k) implies k
                    == i as int by {
                    if k < i as int {
                        assert(!targets(existing@[k], req));
                    } else if k > i as int {
                        assert(!targets(existing@[i as int], req));
                    }
                }
            }
            let e = &existing[i];
            if ensure_changes_held(granted, &e.allow, &req.allow).is_err() {
                return Err(OverwriteFault::Missing);
            }
            if ensure_changes_held(granted, &e.deny, &req.deny).is_err() {
                return Err(OverwriteFault::Missing);
            }
            Ok(Some(i))
        },
        None => {
            proof {
                assert forall|k: int| !#[trigger] is_first_target(existing@, req, k) by {
                    if 0 <= k < existing@.len() {
                        assert(!targets(existing@[k], req));
                    }
                }
            }
            if existing.len() >= max {
                return Err(OverwriteFault::TooMany);
            }
            let empty: Vec<Permission> = Vec::new();
            if ensure_changes_held(granted, &empty, &req.allow).is_err() {
                return Err(OverwriteFault::Missing);
            }
            if ensure_changes_held(granted, &empty, &req.deny).is_err() {
                return Err(OverwriteFault::Missing);
            }
            proof {
                assert forall|p: Permission| req.allow@.contains(p) || req.deny@.contains(p)
                    implies granted@.contains(p) by {
                    if req.allow@.contains(p) {
                        assert(in_sym_diff(empty@, req.allow@, p));
                    } else {
                        assert(in_sym_diff(empty@, req.deny@, p));
                    }
                }
            }
            Ok(None)
        },
    }
}

/// The answer to a refused overwrite.
pub fn overwrite_error(f: OverwriteFault) -> (res: Rejection)
    ensures
        f == OverwriteFault::Conflict ==> res == Rejection::Api(ErrorCode::PermissionConflict),
        f == OverwriteFault::WrongChannel ==> res == Rejection::Api(
            ErrorCode::CannotSetPermissionsOnThisChannelType,
        ),
        f == OverwriteFault::Rank ==> res == Rejection::Api(ErrorCode::InsufficientRank),
        f == OverwriteFault::TooMany ==> res == Rejection::Api(ErrorCode::InvalidData),
        f == OverwriteFault::Missing ==> res == Rejection::Server(Error::MissingPermissions),
{
    match f {
        OverwriteFault::Conflict => Rejection::Api(ErrorCode::PermissionConflict),
        OverwriteFault::WrongChannel => Rejection::Api(ErrorCode::CannotSetPermissionsOnThisChannelType),
        OverwriteFault::Rank => Rejection::Api(ErrorCode::InsufficientRank),
        OverwriteFault::TooMany => Rejection::Api(ErrorCode::InvalidData),
        OverwriteFault::Missing => Rejection::Server(Error::MissingPermissions),
    }
}

/// The index of the first overwrite of a channel with the given id, of
/// either kind: the one that a removal request names.
pub fn find_overwrite_by_id(list: &Vec<Overwrite>, id: u128) -> (res: Option<usize>)
    ensures
        match res {
            Some(i) => i < list@.len() && list@[i as int].id == id && forall|j: int|
                0 <= j < i ==> list@[j].id != id,
            None => forall|j: int| 0 <= j < list@.len() ==> list@[j].id != id,
        },
{
    let mut i: usize = 0;
    while i < list.len()
        invariant
            i <= list.len(),
            forall|j: int| 0 <= j < i ==> list@[j].id != id,
        decreases list.len() - i,
    {
        if list[i].id == id {
            return Some(i);
        }
        i = i + 1;
    }
    None
}

/// Whether the user holds every permission that an overwrite allows or denies.
pub open spec fn holds_overwrite(o: Overwrite, granted: Seq<Permission>) -> bool {
    forall|p: Permission| o.allow@.contains(p) || o.deny@.contains(p) ==> granted.contains(p)
}

/// Decides whether an existing overwrite may be removed from a channel: the
/// channel must be in a room; the overwrite's target (a role at
/// `other_rank`, or a user of that rank) must rank below the user unless
/// the user owns the room; and the user must hold every permission that
/// the overwrite allows or denies.
pub fn overwrite_removal(
    o: &Overwrite,
    in_room: bool,
    auth_is_owner: bool,
    rank: u64,
    other_rank: u64,
    granted: &Vec<Permission>,
) -> (res: Result<(), OverwriteFault>)
    ensures
        !in_room ==> res == Err::<(), OverwriteFault>(OverwriteFault::WrongChannel),
        in_room && rank <= other_rank && !auth_is_owner ==> res == Err::<(), OverwriteFault>(
            OverwriteFault::Rank,
        ),
        in_room && (auth_is_owner || rank > other_rank) ==> (res is Ok <==> holds_overwrite(
            *o,
            granted@,
        )),
        res is Err && in_room && (auth_is_owner || rank > other_rank) ==> res == Err::<
            (),
            OverwriteFault,
        >(OverwriteFault::Missing),
{
    if !in_room {
        return Err(OverwriteFault::WrongChannel);
    }
    if rank <= other_rank && !auth_is_owner {
        return Err(OverwriteFault::Rank);
    }
    let empty: Vec<Permission> = Vec::new();
    if ensure_changes_held(granted, &o.allow, &empty).is_err() {
        return Err(OverwriteFault::Missing);
    }
    if ensure_changes_held(granted, &o.deny, &empty).is_err() {
        proof {
            let p = choose|p: Permission| !(in_sym_diff(o.deny@, empty@, p) ==> granted@.contains(p));
            assert(o.deny@.contains(p) && !granted@.contains(p));
        }
        return Err(OverwriteFault::Missing);
    }
    proof {
        assert forall|p: Permission| o.allow@.contains(p) || o.deny@.contains(p) implies granted@.contains(p) by {
            if o.allow@.contains(p) {
                assert(in_sym_diff(o.allow@, empty@, p));
            } else {
                assert(in_sym_diff(o.deny@, empty@, p));
            }
        }
    }
    Ok(())
}

/// The checks that updating, deleting and reordering roles share: the
/// room's security settings first, then the right to manage roles.
pub fn role_manage_gate(
    security: RoomSecurity,
    sudo: Result<(), Rejection>,
    totp_enabled: Option<bool>,
    granted: &Vec<Permission>,
) -> (res: Result<(), Rejection>)
    ensures
        res == (match spec_room_security_checks(security, sudo, totp_enabled) {
            Err(e) => Err(e),
            Ok(_) => if granted@.contains(Permission::RoleManage) {
                Ok(())
            } else {
                Err(Rejection::Server(Error::MissingPermissions))
            },
        }),
{
    room_security_checks(security, sudo, totp_enabled)?;
    if !contains_permission(granted, Permission::RoleManage) {
        return Err(Rejection::Server(Error::MissingPermissions));
    }
    Ok(())
}

/// What a role edit that passed the room's checks and the right to manage
/// roles does.
#[derive(Clone, Copy, PartialEq, Eq, Structural, Debug)]
pub enum RoleEdit {
    /// The edit changes nothing: answered "not modified", with no write.
    NotModified,
    /// The edit is written.
    Update,
}

/// Whether the user holds every permission that an edit of one list (when
/// it sets that list) changes.
pub open spec fn list_changes_held(start: Seq<Permission>, set: Option<Seq<Permission>>, granted: Seq<
    Permission,
>) -> bool {
    set matches Some(n) ==> forall|p: Permission| in_sym_diff(start, n, p) ==> granted.contains(p)
}

pub open spec fn spec_role_edit(
    start_allow: Seq<Permission>,
    start_deny: Seq<Permission>,
    allow: Option<Seq<Permission>>,
    deny: Option<Seq<Permission>>,
    changes: bool,
    auth_is_owner: bool,
    rank: u64,
    position: u64,
    granted: Seq<Permission>,
) -> Result<RoleEdit, Rejection> {
    if !disjoint(effective(start_allow, allow), effective(start_deny, deny)) {
        Err(Rejection::Api(ErrorCode::PermissionConflict))
    } else if !changes {
        Ok(RoleEdit::NotModified)
    } else if spec_rank_gate(auth_is_owner, rank, position, false) is Err {
        Err(Rejection::Api(ErrorCode::InsufficientRank))
    } else if !list_changes_held(start_allow, allow, granted) || !list_changes_held(
        start_deny,
        deny,
        granted,
    ) {
        Err(Rejection::Server(Error::MissingPermissions))
    } else {
        Ok(RoleEdit::Update)
    }
}

/// Decides a role edit whose lists were completed by `normalize_role_patch`
/// (`allow`, `deny`), in the server's order: the lists the role would end
/// up with must not conflict; an edit that changes nothing (`changes` is
/// the edit's own change test) is answered "not modified" before the rank
/// is looked at; the user must outrank the role unless they own the room;
/// and every permission that a given list changes must be held.
pub fn role_edit_decision(
    start_allow: &Vec<Permission>,
    start_deny: &Vec<Permission>,
    allow: &Option<Vec<Permission>>,
    deny: &Option<Vec<Permission>>,
    changes: bool,
    auth_is_owner: bool,
    rank: u64,
    position: u64,
    granted: &Vec<Permission>,
) -> (res: Result<RoleEdit, Rejection>)
    ensures
        res == spec_role_edit(
            start_allow@,
            start_deny@,
            opt_seq(*allow),
            opt_seq(*deny),
            changes,
            auth_is_owner,
            rank,
            position,
            granted@,
        ),
{
    let ok = match (allow, deny) {
        (Some(a), Some(d)) => are_disjoint(a, d),
        (Some(a), None) => are_disjoint(a, start_deny),
        (None, Some(d)) => are_disjoint(start_allow, d),
        (None, None) => are_disjoint(start_allow, start_deny),
    };
    if !ok {
        return Err(Rejection::Api(ErrorCode::PermissionConflict));
    }
    if !changes {
        return Ok(RoleEdit::NotModified);
    }
    if rank_gate(auth_is_owner, rank, position, false).is_err() {
        return Err(Rejection::Api(ErrorCode::InsufficientRank));
    }
    if let Some(a) = allow {
        if ensure_changes_held(granted, start_allow, a).is_err() {
            return Err(Rejection::Server(Error::MissingPermissions));
        }
    }
    if let Some(d) = deny {
        if ensure_changes_held(granted, start_deny, d).is_err() {
            return Err(Rejection::Server(Error::MissingPermissions));
        }
    }
    Ok(RoleEdit::Update)
}

/// Managing or applying a role needs a rank strictly above the role's
/// position, except for the room's owner and for applying a self-applicable
/// role to oneself.
pub proof fn law_rank_above_role(auth_is_owner: bool, rank: u64, position: u64, self_apply: bool)
    ensures
        spec_rank_gate(auth_is_owner, rank, position, self_apply) is Ok <==> auth_is_owner
            || self_apply || rank > position,
{
}

/// A role edit is written only when it changes something, its lists do not
/// conflict, the user outranks the role or owns the room, and the user
/// holds every permission a given list adds or drops; an edit that changes
/// nothing and has no conflict is "not modified" whatever the user's rank
/// or permissions.
pub proof fn law_role_edits(
    start_allow: Seq<Permission>,
    start_deny: Seq<Permission>,
    allow: Option<Seq<Permission>>,
    deny: Option<Seq<Permission>>,
    changes: bool,
    auth_is_owner: bool,
    rank: u64,
    position: u64,
    granted: Seq<Permission>,
)
    ensures
        spec_role_edit(start_allow, start_deny, allow, deny, changes, auth_is_owner, rank, position, granted)
            == Ok::<RoleEdit, Rejection>(RoleEdit::Update) <==> disjoint(
            effective(start_allow, allow),
            effective(start_deny, deny),
        ) && changes && (auth_is_owner || rank > position) && (allow is Some ==> forall|p: Permission|
            start_allow.contains(p) != allow.unwrap().contains(p) ==> granted.contains(p)) && (deny is Some
            ==> forall|p: Permission|
            start_deny.contains(p) != deny.unwrap().contains(p) ==> granted.contains(p)),
        spec_role_edit(start_allow, start_deny, allow, deny, changes, auth_is_owner, rank, position, granted)
            == Ok::<RoleEdit, Rejection>(RoleEdit::NotModified) <==> disjoint(
            effective(start_allow, allow),
            effective(start_deny, deny),
        ) && !changes,
        !disjoint(effective(start_allow, allow), effective(start_deny, deny)) ==> spec_role_edit(
            start_allow,
            start_deny,
            allow,
            deny,
            changes,
            auth_is_owner,
            rank,
            position,
            granted,
        ) == Err::<RoleEdit, Rejection>(Rejection::Api(ErrorCode::PermissionConflict)),
{
    assert(list_changes_held(start_allow, allow, granted) <==> (allow is Some ==> forall|p: Permission|
        start_allow.contains(p) != allow.unwrap().contains(p) ==> granted.contains(p))) by {
        if allow is Some {
            let n = allow.unwrap();
            assert(forall|p: Permission| in_sym_diff(start_allow, n, p) == (start_allow.contains(p) != n.contains(p)));
        }
    }
    assert(list_changes_held(start_deny, deny, granted) <==> (deny is Some ==> forall|p: Permission|
        start_deny.contains(p) != deny.unwrap().contains(p) ==> granted.contains(p))) by {
        if deny is Some {
            let n = deny.unwrap();
            assert(forall|p: Permission| in_sym_diff(start_deny, n, p) == (start_deny.contains(p) != n.contains(p)));
        }
    }
}

} // verus!
