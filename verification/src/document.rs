use vstd::prelude::*;

use crate::error::{Error, ErrorCode, Rejection};
use crate::perms::{all_held, Permission, PermissionCheck};

verus! {

/// What the checks on a document branch read of it.
#[derive(Clone, Copy, PartialEq, Eq, Structural, Debug)]
pub struct BranchInfo {
    pub creator_id: u128,
    pub private: bool,
    pub default: bool,
    /// The branch it was forked from.
    pub parent_branch_id: Option<u128>,
}

/// A private branch is seen by its creator only.
pub open spec fn visible_to(b: BranchInfo, user_id: u128) -> bool {
    !b.private || b.creator_id == user_id
}

pub open spec fn spec_visible_gate(b: BranchInfo, user_id: u128) -> Result<(), Rejection> {
    if visible_to(b, user_id) {
        Ok(())
    } else {
        Err(Rejection::Api(ErrorCode::UnknownDocumentBranch))
    }
}

/// Reading a branch (or its content, history or tags): one the user may
/// not see is unknown.
pub fn visible_gate(b: BranchInfo, user_id: u128) -> (res: Result<(), Rejection>)
    ensures
        res == spec_visible_gate(b, user_id),
{
    if !b.private || b.creator_id == user_id {
        Ok(())
    } else {
        Err(Rejection::Api(ErrorCode::UnknownDocumentBranch))
    }
}

/// The permissions that changing a branch needs: editing documents, and
/// managing threads when it is someone else's branch.
pub open spec fn spec_branch_needs(b: BranchInfo, user_id: u128) -> Seq<Permission> {
    if b.creator_id != user_id {
        seq![Permission::DocumentEdit, Permission::ThreadManage]
    } else {
        seq![Permission::DocumentEdit]
    }
}

/// Changing (`closing == false`) or closing a branch: the default branch
/// cannot be closed; someone else's private branch is unknown; otherwise
/// the needed permissions are checked.
pub open spec fn spec_branch_change_gate(
    b: BranchInfo,
    user_id: u128,
    granted: Seq<Permission>,
    closing: bool,
) -> Result<(), Rejection> {
    if closing && b.default {
        Err(Rejection::Api(ErrorCode::CannotCloseDefaultBranch))
    } else if !visible_to(b, user_id) {
        Err(Rejection::Api(ErrorCode::UnknownDocumentBranch))
    } else if !all_held(granted, spec_branch_needs(b, user_id)) {
        Err(Rejection::Server(Error::MissingPermissions))
    } else {
        Ok(())
    }
}

fn check_all(granted: &Vec<Permission>, needed: Vec<Permission>) -> (res: bool)
    ensures
        res == all_held(granted@, needed@),
{
    let mut perms = PermissionCheck::new(granted.clone());
    let mut i: usize = 0;
    while i < needed.len()
        invariant
            i <= needed@.len(),
            perms.granted@ == granted@,
            perms.needed@ == needed@.take(i as int),
        decreases needed.len() - i,
    {
        perms.needs(needed[i]);
        assert(needed@.take(i + 1) =~= needed@.take(i as int).push(needed@[i as int]));
        i = i + 1;
    }
    assert(needed@.take(needed@.len() as int) =~= needed@);
    perms.check().is_ok()
}

pub fn branch_change_gate(b: BranchInfo, user_id: u128, granted: &Vec<Permission>, closing: bool) -> (res:
    Result<(), Rejection>)
    ensures
        res == spec_branch_change_gate(b, user_id, granted@, closing),
{
    if closing && b.default {
        return Err(Rejection::Api(ErrorCode::CannotCloseDefaultBranch));
    }
    let needed = if b.creator_id != user_id {
        if b.private {
            return Err(Rejection::Api(ErrorCode::UnknownDocumentBranch));
        }
        vec![Permission::DocumentEdit, Permission::ThreadManage]
    } else {
        vec![Permission::DocumentEdit]
    };
    assert(needed@ =~= spec_branch_needs(b, user_id));
    if !check_all(granted, needed) {
        return Err(Rejection::Server(Error::MissingPermissions));
    }
    Ok(())
}

pub open spec fn spec_merge_gate(b: BranchInfo, user_id: u128) -> Result<u128, Rejection> {
    if !visible_to(b, user_id) {
        Err(Rejection::Api(ErrorCode::UnknownDocumentBranch))
    } else if b.default {
        Err(Rejection::Api(ErrorCode::CannotMergeDefaultBranch))
    } else {
        match b.parent_branch_id {
            Some(p) => Ok(p),
            None => Err(Rejection::Api(ErrorCode::BranchHasNoParent)),
        }
    }
}

/// Merging a branch into the branch it was forked from, which is returned:
/// someone else's private branch is unknown, the default branch cannot be
/// merged, and a branch with no parent has nowhere to go. (The permissions
/// that merging records are not checked.)
pub fn merge_gate(b: BranchInfo, user_id: u128) -> (res: Result<u128, Rejection>)
    ensures
        res == spec_merge_gate(b, user_id),
{
    if b.private && b.creator_id != user_id {
        return Err(Rejection::Api(ErrorCode::UnknownDocumentBranch));
    }
    if b.default {
        return Err(Rejection::Api(ErrorCode::CannotMergeDefaultBranch));
    }
    match b.parent_branch_id {
        Some(p) => Ok(p),
        None => Err(Rejection::Api(ErrorCode::BranchHasNoParent)),
    }
}

/// A revision of a document, as requests name it.
#[derive(Clone, Copy, PartialEq, Eq, Structural, Debug)]
pub enum RevisionId {
    /// The head of a branch.
    Branch { branch_id: u128 },
    /// A numbered revision of a branch.
    Revision { branch_id: u128, seq: u64 },
    /// A tagged revision.
    Tag { tag_id: u128 },
}

/// The revision that a new tag marks: a numbered revision; tagging the
/// head of a branch is not supported yet, and a tag cannot be tagged.
pub fn tag_target(rev: RevisionId) -> (res: Result<(u128, u64), Rejection>)
    ensures
        rev matches RevisionId::Revision { branch_id, seq } ==> res == Ok::<
            (u128, u64),
            Rejection,
        >((branch_id, seq)),
        rev is Branch ==> res matches Err(Rejection::Server(Error::Unimplemented)),
        rev is Tag ==> res matches Err(Rejection::Api(ErrorCode::CannotTagAnotherTag)),
{
    match rev {
        RevisionId::Branch { .. } => Err(Rejection::Server(Error::Unimplemented)),
        RevisionId::Revision { branch_id, seq } => Ok((branch_id, seq)),
        RevisionId::Tag { .. } => Err(Rejection::Api(ErrorCode::CannotTagAnotherTag)),
    }
}

/// Which content a read of a revision returns: the branch and, unless it
/// is the head, the revision number. `None` for a tag, which is looked up
/// first (see `tagged_content`).
pub fn content_target(rev: RevisionId) -> (res: Option<(u128, Option<u64>)>)
    ensures
        rev matches RevisionId::Branch { branch_id } ==> res == Some((branch_id, None::<u64>)),
        rev matches RevisionId::Revision { branch_id, seq } ==> res == Some(
            (branch_id, Some(seq)),
        ),
        rev is Tag ==> res is None,
{
    match rev {
        RevisionId::Branch { branch_id } => Some((branch_id, None)),
        RevisionId::Revision { branch_id, seq } => Some((branch_id, Some(seq))),
        RevisionId::Tag { .. } => None,
    }
}

/// The content a tag points at: its branch at its revision. The stored
/// revision number is signed and is read as unsigned (a negative one wraps).
pub fn tagged_content(tag_branch_id: u128, tag_revision_seq: i64) -> (res: (u128, Option<u64>))
    ensures
        res.0 == tag_branch_id,
        tag_revision_seq >= 0 ==> res.1 == Some(tag_revision_seq as u64),
        tag_revision_seq < 0 ==> res.1 == Some((tag_revision_seq + 18446744073709551616) as u64),
{
    let seq: u64 = if tag_revision_seq >= 0 {
        tag_revision_seq as u64
    } else {
        let magnitude: u64 = (-(tag_revision_seq + 1)) as u64;
        u64::MAX - magnitude
    };
    (tag_branch_id, Some(seq))
}

pub open spec fn spec_tag_change_gate(
    b: BranchInfo,
    tag_creator_id: Option<u128>,
    user_id: u128,
    granted: Seq<Permission>,
) -> Result<(), Rejection> {
    let needed = if tag_creator_id != Some(user_id) {
        seq![Permission::DocumentEdit, Permission::ThreadManage]
    } else {
        seq![Permission::DocumentEdit]
    };
    if !visible_to(b, user_id) {
        Err(Rejection::Api(ErrorCode::UnknownDocumentBranch))
    } else if !all_held(granted, needed) {
        Err(Rejection::Server(Error::MissingPermissions))
    } else {
        Ok(())
    }
}

/// Editing or deleting a tag: one on a branch the user may not see is
/// unknown; it needs the right to edit documents, and to manage threads
/// when it is someone else's tag.
pub fn tag_change_gate(
    b: BranchInfo,
    tag_creator_id: Option<u128>,
    user_id: u128,
    granted: &Vec<Permission>,
) -> (res: Result<(), Rejection>)
    ensures
        res == spec_tag_change_gate(b, tag_creator_id, user_id, granted@),
{
    if b.private && b.creator_id != user_id {
        return Err(Rejection::Api(ErrorCode::UnknownDocumentBranch));
    }
    let needed = if tag_creator_id != Some(user_id) {
        vec![Permission::DocumentEdit, Permission::ThreadManage]
    } else {
        vec![Permission::DocumentEdit]
    };
    assert(needed@ =~= (if tag_creator_id != Some(user_id) {
        seq![Permission::DocumentEdit, Permission::ThreadManage]
    } else {
        seq![Permission::DocumentEdit]
    }));
    if !check_all(granted, needed) {
        return Err(Rejection::Server(Error::MissingPermissions));
    }
    Ok(())
}

/// Someone else's private branch is hidden from every request on it: it is
/// "unknown" whether it is read, changed, merged or tagged, whatever
/// permissions the user holds, unless the request is to close the default
/// branch, which is refused as such first.
pub proof fn law_private_branches_are_hidden(
    b: BranchInfo,
    user_id: u128,
    granted: Seq<Permission>,
    tag_creator_id: Option<u128>,
)
    requires
        b.private,
        b.creator_id != user_id,
    ensures
        spec_visible_gate(b, user_id) == Err::<(), Rejection>(
            Rejection::Api(ErrorCode::UnknownDocumentBranch),
        ),
        spec_branch_change_gate(b, user_id, granted, false) == Err::<(), Rejection>(
            Rejection::Api(ErrorCode::UnknownDocumentBranch),
        ),
        !b.default ==> spec_branch_change_gate(b, user_id, granted, true) == Err::<(), Rejection>(
            Rejection::Api(ErrorCode::UnknownDocumentBranch),
        ),
        spec_merge_gate(b, user_id) == Err::<u128, Rejection>(
            Rejection::Api(ErrorCode::UnknownDocumentBranch),
        ),
        spec_tag_change_gate(b, tag_creator_id, user_id, granted) == Err::<(), Rejection>(
            Rejection::Api(ErrorCode::UnknownDocumentBranch),
        ),
{
}

/// What changing a branch or a tag needs, stated plainly: a visible branch
/// (public, or the user's own), the right to edit documents, and the right
/// to manage threads when the branch (or tag) is someone else's; the default
/// branch is never closed. A public branch is open to reading by anyone.
pub proof fn law_branch_and_tag_changes(
    b: BranchInfo,
    user_id: u128,
    granted: Seq<Permission>,
    closing: bool,
    tag_creator_id: Option<u128>,
)
    ensures
        spec_visible_gate(b, user_id) is Ok <==> !b.private || b.creator_id == user_id,
        spec_branch_change_gate(b, user_id, granted, closing) is Ok <==> !(closing && b.default)
            && (!b.private || b.creator_id == user_id) && granted.contains(Permission::DocumentEdit)
            && (b.creator_id != user_id ==> granted.contains(Permission::ThreadManage)),
        spec_tag_change_gate(b, tag_creator_id, user_id, granted) is Ok <==> (!b.private
            || b.creator_id == user_id) && granted.contains(Permission::DocumentEdit) && (
        tag_creator_id != Some(user_id) ==> granted.contains(Permission::ThreadManage)),
        spec_merge_gate(b, user_id) is Ok ==> (!b.private || b.creator_id == user_id) && !b.default
            && spec_merge_gate(b, user_id) == Ok::<u128, Rejection>(b.parent_branch_id.unwrap()),
{
    let two = seq![Permission::DocumentEdit, Permission::ThreadManage];
    let one = seq![Permission::DocumentEdit];
    assert(two[0] == Permission::DocumentEdit && two[1] == Permission::ThreadManage);
    assert(one[0] == Permission::DocumentEdit);
    if granted.contains(Permission::DocumentEdit) && granted.contains(Permission::ThreadManage) {
        assert(all_held(granted, two));
    }
    if granted.contains(Permission::DocumentEdit) {
        assert(all_held(granted, one));
    }
}

} // verus!
