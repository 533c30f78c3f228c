use vstd::prelude::*;

use crate::error::Error;

verus! {

/// A permission that a user can hold in a room, a channel or on the server.
#[derive(Clone, Copy, PartialEq, Eq, Structural, Debug, Hash)]
pub enum Permission {
    Admin,
    AnalyticsView,
    ApplicationCreate,
    AuditLogView,
    CalendarEventCreate,
    CalendarEventManage,
    CalendarEventRsvp,
    ChannelEdit,
    ChannelManage,
    ChannelView,
    DmCreate,
    DocumentEdit,
    EmojiManage,
    FriendCreate,
    IntegrationsBridge,
    IntegrationsManage,
    InviteCreate,
    InviteManage,
    MemberBan,
    MemberKick,
    MemberNickname,
    MemberNicknameManage,
    MemberTimeout,
    MessageCreate,
    MessageDelete,
    MessagePin,
    MessageRemove,
    ReactionAdd,
    ReactionManage,
    RoleApply,
    RoleManage,
    RoomCreate,
    RoomEdit,
    RoomManage,
    ScriptManage,
    ServerMetrics,
    ServerOversee,
    ThreadManage,
    VoiceDeafen,
    VoiceMute,
}

/// Whether `p` occurs in `v`.
pub fn contains_permission(v: &Vec<Permission>, p: Permission) -> (res: bool)
    ensures
        res == v@.contains(p),
{
    let mut i: usize = 0;
    while i < v.len()
        invariant
            i <= v.len(),
            forall|j: int| 0 <= j < i ==> v@[j] != p,
        decreases v.len() - i,
    {
        if v[i] == p {
            return true;
        }
        i = i + 1;
    }
    false
}

/// A check of permissions: those that a user holds, and those that the
/// request being served needs.
pub struct PermissionCheck {
    pub granted: Vec<Permission>,
    pub needed: Vec<Permission>,
}

/// Whether every permission in `needed` is held.
pub open spec fn all_held(granted: Seq<Permission>, needed: Seq<Permission>) -> bool {
    forall|i: int| 0 <= i < needed.len() ==> granted.contains(#[trigger] needed[i])
}

impl PermissionCheck {
    /// A check that needs nothing yet.
    pub fn new(granted: Vec<Permission>) -> (res: PermissionCheck)
        ensures
            res.granted@ == granted@,
            res.needed@ == Seq::<Permission>::empty(),
    {
        PermissionCheck { granted, needed: Vec::new() }
    }

    /// Whether the user holds `p`.
    pub fn has(&self, p: Permission) -> (res: bool)
        ensures
            res == self.granted@.contains(p),
    {
        contains_permission(&self.granted, p)
    }

    /// Records that the request needs `p`.
    pub fn needs(&mut self, p: Permission)
        ensures
            final(self).granted@ == old(self).granted@,
            final(self).needed@ == old(self).needed@.push(p),
    {
        self.needed.push(p);
    }

    /// Succeeds when the user holds `p`.
    pub fn ensure(&self, p: Permission) -> (res: Result<(), Error>)
        ensures
            res is Ok <==> self.granted@.contains(p),
            res matches Err(e) ==> e == Error::MissingPermissions,
    {
        if self.has(p) {
            Ok(())
        } else {
            Err(Error::MissingPermissions)
        }
    }

    /// Succeeds when the user holds every permission that was recorded as needed.
    pub fn check(&self) -> (res: Result<(), Error>)
        ensures
            res is Ok <==> all_held(self.granted@, self.needed@),
            res matches Err(e) ==> e == Error::MissingPermissions,
    {
        let mut i: usize = 0;
        while i < self.needed.len()
            invariant
                i <= self.needed.len(),
                all_held(self.granted@, self.needed@.take(i as int)),
            decreases self.needed.len() - i,
        {
            if !self.has(self.needed[i]) {
                return Err(Error::MissingPermissions);
            }
            proof {
                assert(self.needed@.take(i + 1) =~= self.needed@.take(i as int).push(
                    self.needed@[i as int],
                ));
            }
            i = i + 1;
        }
        proof {
            assert(self.needed@.take(self.needed@.len() as int) =~= self.needed@);
        }
        Ok(())
    }
}

/// The outcome of a check depends only on which permissions are needed,
/// not on the order or the number of times they were recorded: a check
/// passes exactly when every needed permission is held.
pub proof fn law_check_is_subset(granted: Seq<Permission>, needed: Seq<Permission>)
    ensures
        all_held(granted, needed) <==> needed.to_set().subset_of(granted.to_set()),
{
    if all_held(granted, needed) {
        assert forall|p: Permission| needed.to_set().contains(p) implies granted.to_set().contains(
            p,
        ) by {
            let i = choose|i: int| 0 <= i < needed.len() && needed[i] == p;
            assert(granted.contains(needed[i]));
        }
    }
    if needed.to_set().subset_of(granted.to_set()) {
        assert forall|i: int| 0 <= i < needed.len() implies granted.contains(
            #[trigger] needed[i],
        ) by {
            assert(needed.to_set().contains(needed[i]));
        }
    }
}

/// Recording one more needed permission can only turn a passing check into
/// a failing one, never the reverse.
pub proof fn law_needs_monotone(granted: Seq<Permission>, needed: Seq<Permission>, p: Permission)
    ensures
        all_held(granted, needed.push(p)) <==> all_held(granted, needed) && granted.contains(p),
{
    if all_held(granted, needed.push(p)) {
        assert forall|i: int| 0 <= i < needed.len() implies granted.contains(
            #[trigger] needed[i],
        ) by {
            assert(needed.push(p)[i] == needed[i]);
        }
        assert(needed.push(p)[needed.len() as int] == p);
    }
}

} // verus!
