use vstd::prelude::*;

use crate::codec::{parse_url, spec_parse_url};
use crate::oauth::UserEmail;

verus! {

/// A membership as the store keeps it.
#[derive(Clone, Copy, PartialEq, Eq, Structural, Debug)]
pub enum DbMembership {
    Join,
    Leave,
    Ban,
}

/// A thread membership as clients see it.
#[derive(Clone, Copy, PartialEq, Eq, Structural, Debug)]
pub enum ThreadMembership {
    Join,
    Leave,
}

/// A thread member row. Times are nanoseconds since the epoch (UTC).
#[derive(Clone, Copy, PartialEq, Eq, Structural, Debug)]
pub struct DbThreadMember {
    pub user_id: u128,
    pub channel_id: u128,
    pub membership: DbMembership,
    pub joined_at: i128,
}

/// A thread member as clients see it.
#[derive(Clone, Copy, PartialEq, Eq, Structural, Debug)]
pub struct ThreadMember {
    pub user_id: u128,
    pub thread_id: u128,
    pub membership: ThreadMembership,
    pub joined_at: i128,
}

impl DbThreadMember {
    /// The member a row describes: a ban shows as having left.
    pub fn into_member(self) -> (res: ThreadMember)
        ensures
            res.user_id == self.user_id,
            res.thread_id == self.channel_id,
            res.joined_at == self.joined_at,
            res.membership == (if self.membership == DbMembership::Join {
                ThreadMembership::Join
            } else {
                ThreadMembership::Leave
            }),
    {
        ThreadMember {
            user_id: self.user_id,
            thread_id: self.channel_id,
            membership: match self.membership {
                DbMembership::Join => ThreadMembership::Join,
                DbMembership::Leave => ThreadMembership::Leave,
                DbMembership::Ban => ThreadMembership::Leave,
            },
            joined_at: self.joined_at,
        }
    }
}

/// A user row, joined with the webhook and puppet the user may be.
pub struct DbUser {
    pub id: u128,
    pub version_id: u128,
    pub parent_id: Option<u128>,
    pub name: String,
    pub description: Option<String>,
    pub avatar: Option<u128>,
    pub banner: Option<u128>,
    pub bot: bool,
    pub system: bool,
    /// The suspension, as JSON text.
    pub suspended: Option<String>,
    pub registered_at: Option<i128>,
    pub deleted_at: Option<i128>,
    pub webhook_channel_id: Option<u128>,
    pub webhook_creator_id: Option<u128>,
    pub webhook_room_id: Option<u128>,
    pub puppet_application_id: Option<u128>,
    pub puppet_external_id: Option<String>,
    pub puppet_external_url: Option<String>,
    pub puppet_alias_id: Option<u128>,
}

/// Which users a user listing shows.
#[derive(Clone, Copy, PartialEq, Eq, Structural, Debug)]
pub enum UserListFilter {
    Guest,
    Registered,
    Bot,
    Puppet,
}

/// Whether a listing with the given filter (or none) shows a user: a
/// guest is a person (not a bot, a puppet or a system user) who has not
/// registered, a registered user is a person who has; without a filter,
/// every person is shown.
pub open spec fn spec_listed(filter: Option<UserListFilter>, u: DbUser) -> bool {
    let person = !u.bot && u.puppet_application_id is None && !u.system;
    match filter {
        Some(UserListFilter::Guest) => person && u.registered_at is None,
        Some(UserListFilter::Registered) => person && u.registered_at is Some,
        Some(UserListFilter::Bot) => u.bot,
        Some(UserListFilter::Puppet) => u.puppet_application_id is Some,
        None => person,
    }
}

impl DbUser {
    /// Whether a listing with the given filter shows this user.
    pub fn listed(&self, filter: Option<UserListFilter>) -> (res: bool)
        ensures
            res == spec_listed(filter, *self),
    {
        let person = !self.bot && self.puppet_application_id.is_none() && !self.system;
        match filter {
            Some(UserListFilter::Guest) => person && self.registered_at.is_none(),
            Some(UserListFilter::Registered) => person && self.registered_at.is_some(),
            Some(UserListFilter::Bot) => self.bot,
            Some(UserListFilter::Puppet) => self.puppet_application_id.is_some(),
            None => person,
        }
    }
}

/// The unfiltered listing shows exactly the guests and the registered
/// users, and no user is both.
pub proof fn law_guests_and_registered_partition_people(u: DbUser)
    ensures
        spec_listed(None, u) <==> (spec_listed(Some(UserListFilter::Guest), u) || spec_listed(
            Some(UserListFilter::Registered),
            u,
        )),
        !(spec_listed(Some(UserListFilter::Guest), u) && spec_listed(
            Some(UserListFilter::Registered),
            u,
        )),
{
}

/// The webhook a user is.
#[derive(Clone, Copy, PartialEq, Eq, Structural, Debug)]
pub struct UserWebhook {
    pub room_id: Option<u128>,
    pub channel_id: u128,
    pub creator_id: u128,
}

/// The puppet a user is: a user that an application acts for.
pub struct Puppet {
    pub owner_id: u128,
    pub external_id: String,
    /// The external URL, when it parses as one.
    pub external_url: Option<String>,
    pub alias_id: Option<u128>,
}

/// How present a user is.
#[derive(Clone, Copy, PartialEq, Eq, Structural, Debug)]
pub enum PresenceStatus {
    Online,
    Away,
    Busy,
    Offline,
}

/// A user's presence.
#[derive(Clone, Copy, PartialEq, Eq, Structural, Debug)]
pub struct Presence {
    pub status: PresenceStatus,
}

/// A user as clients see it. Read from a row, the user is offline and
/// carries no e-mail addresses and no multi-factor state; those are filled
/// in where the request is allowed to see them.
pub struct UserRecord {
    pub id: u128,
    pub version_id: u128,
    pub name: String,
    pub description: Option<String>,
    pub avatar: Option<u128>,
    pub banner: Option<u128>,
    pub bot: bool,
    pub system: bool,
    pub puppet: Option<Puppet>,
    pub webhook: Option<UserWebhook>,
    pub suspended: Option<String>,
    pub registered_at: Option<i128>,
    pub deleted_at: Option<i128>,
    pub presence: Presence,
    pub emails: Option<Vec<UserEmail>>,
    pub has_mfa: Option<bool>,
}

impl DbUser {
    /// The user a row describes. The user is a webhook exactly when the row
    /// has both a webhook channel and a webhook creator; a puppet exactly
    /// when it has both a puppet application and an external id, and the
    /// puppet's external URL is kept only when it parses as a URL.
    pub fn into_record(self) -> (res: UserRecord)
        ensures
            res.id == self.id,
            res.version_id == self.version_id,
            res.name == self.name,
            res.description == self.description,
            res.avatar == self.avatar,
            res.banner == self.banner,
            res.bot == self.bot,
            res.system == self.system,
            res.suspended == self.suspended,
            res.registered_at == self.registered_at,
            res.deleted_at == self.deleted_at,
            res.presence == (Presence { status: PresenceStatus::Offline }),
            res.emails is None,
            res.has_mfa is None,
            res.webhook is Some <==> self.webhook_channel_id is Some
                && self.webhook_creator_id is Some,
            res.webhook matches Some(w) ==> w == (UserWebhook {
                room_id: self.webhook_room_id,
                channel_id: self.webhook_channel_id.unwrap(),
                creator_id: self.webhook_creator_id.unwrap(),
            }),
            res.puppet is Some <==> self.puppet_application_id is Some
                && self.puppet_external_id is Some,
            res.puppet matches Some(p) ==> p.owner_id == self.puppet_application_id.unwrap()
                && p.external_id == self.puppet_external_id.unwrap() && p.alias_id
                == self.puppet_alias_id && match self.puppet_external_url {
                None => p.external_url is None,
                Some(u) => match spec_parse_url(u@) {
                    Ok(s) => p.external_url matches Some(x) && x@ == s,
                    Err(_) => p.external_url is None,
                },
            },
    {
        let webhook = match (self.webhook_channel_id, self.webhook_creator_id) {
            (Some(channel_id), Some(creator_id)) => Some(
                UserWebhook { room_id: self.webhook_room_id, channel_id, creator_id },
            ),
            _ => None,
        };
        let puppet = match (self.puppet_application_id, self.puppet_external_id) {
            (Some(owner_id), Some(external_id)) => {
                let external_url = match self.puppet_external_url {
                    Some(u) => match parse_url(u.as_str()) {
                        Ok(s) => Some(s),
                        Err(_) => None,
                    },
                    None => None,
                };
                Some(Puppet { owner_id, external_id, external_url, alias_id: self.puppet_alias_id })
            },
            _ => None,
        };
        UserRecord {
            id: self.id,
            version_id: self.version_id,
            name: self.name,
            description: self.description,
            avatar: self.avatar,
            banner: self.banner,
            bot: self.bot,
            system: self.system,
            puppet,
            webhook,
            suspended: self.suspended,
            registered_at: self.registered_at,
            deleted_at: self.deleted_at,
            presence: Presence { status: PresenceStatus::Offline },
            emails: None,
            has_mfa: None,
        }
    }
}

} // verus!
