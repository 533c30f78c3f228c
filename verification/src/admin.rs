use vstd::prelude::*;

verus! {

/// How many users a broadcast to every user reads at a time; it goes on
/// after the last user of each page (`page_cursor`) until a page is empty.
pub const BROADCAST_PAGE_SIZE: u16 = 1024;

/// What garbage collection can clean up.
#[derive(Clone, Copy, PartialEq, Eq, Structural, Debug)]
pub enum GcTarget {
    Media,
    Messages,
    Session,
    AuditLog,
    RoomAnalytics,
}

/// The garbage collection commands of the command line.
#[derive(Clone, Copy, PartialEq, Eq, Structural, Debug)]
pub enum GcCommand {
    Media,
    Messages,
    Session,
    AuditLog,
    RoomAnalytics,
    All,
}

/// What a garbage collection command cleans up: its one target, or every
/// target, in a fixed order.
pub fn gc_targets(cmd: GcCommand) -> (res: Vec<GcTarget>)
    ensures
        cmd == GcCommand::Media ==> res@ == seq![GcTarget::Media],
        cmd == GcCommand::Messages ==> res@ == seq![GcTarget::Messages],
        cmd == GcCommand::Session ==> res@ == seq![GcTarget::Session],
        cmd == GcCommand::AuditLog ==> res@ == seq![GcTarget::AuditLog],
        cmd == GcCommand::RoomAnalytics ==> res@ == seq![GcTarget::RoomAnalytics],
        cmd == GcCommand::All ==> res@ == seq![
            GcTarget::Media,
            GcTarget::Messages,
            GcTarget::Session,
            GcTarget::AuditLog,
            GcTarget::RoomAnalytics,
        ],
{
    let v = match cmd {
        GcCommand::Media => vec![GcTarget::Media],
        GcCommand::Messages => vec![GcTarget::Messages],
        GcCommand::Session => vec![GcTarget::Session],
        GcCommand::AuditLog => vec![GcTarget::AuditLog],
        GcCommand::RoomAnalytics => vec![GcTarget::RoomAnalytics],
        GcCommand::All => vec![
            GcTarget::Media,
            GcTarget::Messages,
            GcTarget::Session,
            GcTarget::AuditLog,
            GcTarget::RoomAnalytics,
        ],
    };
    proof {
        if cmd == GcCommand::All {
            assert(v@ =~= seq![
                GcTarget::Media,
                GcTarget::Messages,
                GcTarget::Session,
                GcTarget::AuditLog,
                GcTarget::RoomAnalytics,
            ]);
        } else {
            assert(v@.len() == 1);
        }
    }
    v
}

/// The role that makes a user an administrator: the server room's second
/// role, in the order the roles are listed (the first is the default role).
pub fn admin_role(server_roles: &Vec<u128>) -> (res: u128)
    requires
        server_roles@.len() >= 2,
    ensures
        res == server_roles@[1],
{
    server_roles[1]
}

} // verus!
