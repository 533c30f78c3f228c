use vstd::prelude::*;

use crate::error::{Error, ErrorCode, Rejection};
use crate::perms::{Permission, PermissionCheck};

verus! {

/// What a reaction request does.
#[derive(Clone, Copy, PartialEq, Eq, Structural, Debug)]
pub enum ReactionAction {
    /// React to a message.
    Add,
    /// Take back one user's reaction.
    Remove,
    /// Remove every reaction with one key.
    RemoveKey,
    /// Remove every reaction from a message.
    RemoveAll,
}

/// The permission a reaction request needs (beyond seeing the channel and
/// its not being locked): reacting, or taking back one's own reaction,
/// needs the right to react; anything done to others' reactions needs the
/// right to manage reactions.
pub open spec fn spec_reaction_need(action: ReactionAction, is_self: bool) -> Permission {
    match action {
        ReactionAction::Add => Permission::ReactionAdd,
        ReactionAction::Remove => if is_self {
            Permission::ReactionAdd
        } else {
            Permission::ReactionManage
        },
        _ => Permission::ReactionManage,
    }
}

pub open spec fn spec_reaction_gate(
    action: ReactionAction,
    auth_id: u128,
    target: u128,
    granted: Seq<Permission>,
) -> Result<(), Rejection> {
    if !granted.contains(spec_reaction_need(action, target == auth_id)) {
        Err(Rejection::Server(Error::MissingPermissions))
    } else if action == ReactionAction::Add && target != auth_id {
        Err(Rejection::Api(ErrorCode::CannotActOnBehalfOfOthers))
    } else {
        Ok(())
    }
}

/// The permission checks of a reaction request, `target` being the user
/// whose reaction it is (the caller when it names none); a reaction can
/// only be added for oneself.
pub fn reaction_gate(action: ReactionAction, auth_id: u128, target: u128, granted: &Vec<Permission>) -> (res:
    Result<(), Rejection>)
    ensures
        res == spec_reaction_gate(action, auth_id, target, granted@),
{
    let perms = PermissionCheck::new(granted.clone());
    let need = match action {
        ReactionAction::Add => Permission::ReactionAdd,
        ReactionAction::Remove => if target == auth_id {
            Permission::ReactionAdd
        } else {
            Permission::ReactionManage
        },
        _ => Permission::ReactionManage,
    };
    if perms.ensure(need).is_err() {
        return Err(Rejection::Server(Error::MissingPermissions));
    }
    if action == ReactionAction::Add && target != auth_id {
        return Err(Rejection::Api(ErrorCode::CannotActOnBehalfOfOthers));
    }
    Ok(())
}

/// Nobody can react for someone else, and taking away someone else's
/// reaction needs the right to manage reactions, whoever asks.
pub proof fn law_others_reactions(auth_id: u128, target: u128, granted: Seq<Permission>)
    requires
        auth_id != target,
    ensures
        spec_reaction_gate(ReactionAction::Add, auth_id, target, granted) is Err,
        spec_reaction_gate(ReactionAction::Remove, auth_id, target, granted) is Ok
            <==> granted.contains(Permission::ReactionManage),
{
}

/// Who may do what with reactions: react only as oneself, with the right
/// to react; take back one's own reaction with the right to react; and
/// anything done to others' reactions (one user's, one key's, or all) only
/// with the right to manage reactions.
pub proof fn law_reaction_rights(auth_id: u128, target: u128, granted: Seq<Permission>)
    ensures
        spec_reaction_gate(ReactionAction::Add, auth_id, target, granted) is Ok <==> target == auth_id
            && granted.contains(Permission::ReactionAdd),
        spec_reaction_gate(ReactionAction::Remove, auth_id, auth_id, granted) is Ok <==> granted.contains(
            Permission::ReactionAdd,
        ),
        target != auth_id ==> (spec_reaction_gate(ReactionAction::Remove, auth_id, target, granted) is Ok
            <==> granted.contains(Permission::ReactionManage)),
        spec_reaction_gate(ReactionAction::RemoveKey, auth_id, target, granted) is Ok <==> granted.contains(
            Permission::ReactionManage,
        ),
        spec_reaction_gate(ReactionAction::RemoveAll, auth_id, target, granted) is Ok <==> granted.contains(
            Permission::ReactionManage,
        ),
{
}

} // verus!
