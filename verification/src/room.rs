use vstd::prelude::*;
use vstd::string::*;

use crate::codec::{
    lemma_uuid_text_injective, http_date, spec_http_date, spec_uuid_text, spec_uuid_unix_time, uuid_text, uuid_unix_time,
};
use crate::error::{Error, ErrorCode, Rejection};
use crate::perms::Permission;
use crate::text::{opt_view, str_eq};

verus! {

/// The weak entity tag of a version: `W/"<version>"`.
pub open spec fn spec_etag(version: Seq<char>) -> Seq<char> {
    "W/\""@ + version + "\""@
}

/// The weak entity tag of a version, given as text.
pub fn etag_of(version: &str) -> (res: String)
    ensures
        res@ == spec_etag(version@),
{
    let mut r = String::from_str("W/\"");
    r.append(version);
    r.append("\"");
    r
}

/// A cached copy is still good when the client's `If-None-Match` header
/// (if it sent one) is the tag of the current version, given as text:
/// the answer is then "not modified".
pub fn check_cache_text(if_none_match: Option<&str>, version: &str) -> (res: Result<(), Error>)
    ensures
        (if_none_match matches Some(v) && v@ == spec_etag(version@)) ==> res == Err::<(), Error>(
            Error::NotModified,
        ),
        !(if_none_match matches Some(v) && v@ == spec_etag(version@)) ==> res is Ok,
{
    match if_none_match {
        Some(v) => {
            let tag = etag_of(version);
            if str_eq(v, tag.as_str()) {
                Err(Error::NotModified)
            } else {
                Ok(())
            }
        },
        None => Ok(()),
    }
}

/// The cache check for a room, whose version is a UUID.
pub fn check_cache(if_none_match: Option<&str>, version_id: u128) -> (res: Result<(), Error>)
    ensures
        (if_none_match matches Some(v) && v@ == spec_etag(spec_uuid_text(version_id)))
            ==> res == Err::<(), Error>(Error::NotModified),
        !(if_none_match matches Some(v) && v@ == spec_etag(spec_uuid_text(version_id)))
            ==> res is Ok,
{
    let version = uuid_text(version_id);
    check_cache_text(if_none_match, version.as_str())
}

/// A room's entity tag names its version: the tag of one version matches
/// the tag of another exactly when they are the same version. So a client
/// that sends the tag it was given is answered "not modified" by
/// `check_cache` for that version and served afresh for any other.
pub proof fn law_etag_identifies_version(v: u128, w: u128)
    ensures
        spec_etag(spec_uuid_text(v)) == spec_etag(spec_uuid_text(w)) <==> v == w,
{
    if spec_etag(spec_uuid_text(v)) == spec_etag(spec_uuid_text(w)) {
        reveal_strlit("W/\"");
        reveal_strlit("\"");
        let tv = spec_etag(spec_uuid_text(v));
        let tw = spec_etag(spec_uuid_text(w));
        assert(tv.subrange(3, 39) =~= spec_uuid_text(v));
        assert(tw.subrange(3, 39) =~= spec_uuid_text(w));
        lemma_uuid_text_injective(v, w);
    }
}

/// A time, in nanoseconds since the epoch, for the `Last-Modified` header:
/// a time too late for a `u64` count of nanoseconds reads as the epoch.
pub open spec fn spec_modified_nanos(secs: u64, nanos: u32) -> u64 {
    if secs * 1_000_000_000 + nanos <= u64::MAX {
        (secs * 1_000_000_000 + nanos) as u64
    } else {
        0
    }
}

pub fn modified_nanos(secs: u64, nanos: u32) -> (res: u64)
    ensures
        res == spec_modified_nanos(secs, nanos),
{
    if secs > (u64::MAX - nanos as u64) / 1_000_000_000 {
        assert(secs * 1_000_000_000 + nanos > u64::MAX) by (nonlinear_arith)
            requires
                secs > (u64::MAX - nanos as u64) / 1_000_000_000,
        ;
        0
    } else {
        assert(secs * 1_000_000_000 + nanos <= u64::MAX) by (nonlinear_arith)
            requires
                secs <= (u64::MAX - nanos as u64) / 1_000_000_000,
        ;
        secs * 1_000_000_000 + nanos as u64
    }
}

/// The cache headers of a room, given the time its version id holds: the
/// `Last-Modified` date of that time, and the weak tag of the version.
pub fn cache_headers_at(version_id: u128, secs: u64, nanos: u32) -> (res: (String, String))
    ensures
        res.0@ == spec_http_date(spec_modified_nanos(secs, nanos)),
        res.1@ == spec_etag(spec_uuid_text(version_id)),
{
    let date = http_date(modified_nanos(secs, nanos));
    let version = uuid_text(version_id);
    (date, etag_of(version.as_str()))
}

/// The cache headers of a room (`Last-Modified`, then `ETag`), read from
/// its version id, whose time they carry. A version id that holds no time
/// (one of another UUID version than 1, 6 or 7) gives none.
pub fn cache_headers(version_id: u128) -> (res: Option<(String, String)>)
    ensures
        match spec_uuid_unix_time(version_id) {
            None => res is None,
            Some((secs, nanos)) => res matches Some(h) && h.0@ == spec_http_date(
                spec_modified_nanos(secs, nanos),
            ) && h.1@ == spec_etag(spec_uuid_text(version_id)),
        },
{
    match uuid_unix_time(version_id) {
        None => None,
        Some((secs, nanos)) => Some(cache_headers_at(version_id, secs, nanos)),
    }
}

fn index_of(list: &Vec<String>, s: &str) -> (res: Option<usize>)
    ensures
        match res {
            Some(i) => i < list@.len() && list@[i as int]@ == s@ && forall|j: int|
                0 <= j < i ==> list@[j]@ != s@,
            None => forall|j: int| 0 <= j < list@.len() ==> list@[j]@ != s@,
        },
{
    let mut i: usize = 0;
    while i < list.len()
        invariant
            i <= list.len(),
            forall|j: int| 0 <= j < i ==> list@[j]@ != s@,
        decreases list.len() - i,
    {
        if str_eq(list[i].as_str(), s) {
            return Some(i);
        }
        i = i + 1;
    }
    None
}

/// The names of a list of features.
pub open spec fn names(list: Seq<String>) -> Seq<Seq<char>> {
    list.map_values(|s: String| s@)
}

/// A room's features after enabling one: unchanged (`None`) when already
/// enabled, else with the feature appended.
pub fn feature_enable(features: &Vec<String>, feature: &str) -> (res: Option<Vec<String>>)
    ensures
        names(features@).contains(feature@) ==> res is None,
        !names(features@).contains(feature@) ==> (res matches Some(v) && names(v@) == names(
            features@,
        ).push(feature@)),
{
    match index_of(features, feature) {
        Some(i) => {
            proof {
                assert(names(features@)[i as int] == feature@);
            }
            None
        },
        None => {
            proof {
                assert forall|j: int| 0 <= j < names(features@).len() implies names(features@)[j]
                    != feature@ by {
                    assert(features@[j]@ != feature@);
                }
            }
            let mut v = features.clone();
            proof {
                assert forall|j: int| 0 <= j < v@.len() implies v@[j]@ == features@[j]@ by {
                    assert(cloned::<String>(features@[j], v@[j]));
                }
                assert(names(v@) =~= names(features@));
            }
            v.push(String::from_str(feature));
            proof {
                assert(names(v@) =~= names(features@).push(feature@));
            }
            Some(v)
        },
    }
}

/// A room's features after disabling one: unchanged (`None`) when not
/// enabled, else without its first occurrence.
pub fn feature_disable(features: &Vec<String>, feature: &str) -> (res: Option<Vec<String>>)
    ensures
        !names(features@).contains(feature@) ==> res is None,
        names(features@).contains(feature@) ==> (res matches Some(v) && exists|i: int|
            0 <= i < features@.len() && names(features@)[i] == feature@ && (forall|j: int|
                0 <= j < i ==> names(features@)[j] != feature@) && names(v@) == names(
                features@,
            ).remove(i)),
{
    match index_of(features, feature) {
        None => {
            proof {
                assert forall|j: int| 0 <= j < names(features@).len() implies names(features@)[j]
                    != feature@ by {
                    assert(features@[j]@ != feature@);
                }
            }
            None
        },
        Some(i) => {
            let mut v = features.clone();
            proof {
                assert forall|j: int| 0 <= j < v@.len() implies v@[j]@ == features@[j]@ by {
                    assert(cloned::<String>(features@[j], v@[j]));
                }
                assert(names(v@) =~= names(features@));
            }
            v.remove(i);
            proof {
                assert(names(v@) =~= names(features@).remove(i as int));
                assert(names(features@)[i as int] == feature@);
            }
            Some(v)
        },
    }
}

/// Enabling a feature twice is the same as enabling it once, and disabling
/// a feature that was just enabled (and was not enabled before) gives back
/// the features as they were.
pub proof fn law_feature_toggles(features: Seq<Seq<char>>, f: Seq<char>)
    requires
        !features.contains(f),
    ensures
        features.push(f).contains(f),
        features.push(f).remove(features.len() as int) == features,
        forall|i: int| 0 <= i < features.len() ==> features.push(f)[i] != f,
{
    assert(features.push(f)[features.len() as int] == f);
    assert(features.push(f).remove(features.len() as int) =~= features);
}

/// What a feature's kind allows.
#[derive(Clone, Copy, PartialEq, Eq, Structural, Debug)]
pub struct FeatureKind {
    pub server_operators: bool,
    pub room_editors: bool,
    pub room_admins: bool,
}

/// The room permission that toggling a feature needs, if a room member may
/// toggle it at all; `None` when the server operator may toggle it without
/// any room permission.
pub open spec fn spec_feature_gate(kind: FeatureKind, is_operator: bool) -> Result<
    Option<Permission>,
    (),
> {
    if is_operator && kind.server_operators {
        Ok(None)
    } else if kind.room_editors {
        Ok(Some(Permission::RoomEdit))
    } else if kind.room_admins {
        Ok(Some(Permission::Admin))
    } else {
        Err(())
    }
}

/// Decides who may toggle a room feature: a server operator, for features
/// that operators may toggle, needs nothing more; otherwise a room member
/// needs `RoomEdit` or `Admin` by the feature's kind (and the room's
/// multi-factor requirement applies); features of no such kind cannot be
/// toggled by hand.
pub fn feature_gate(kind: FeatureKind, is_operator: bool) -> (res: Result<Option<Permission>, Error>)
    ensures
        spec_feature_gate(kind, is_operator) matches Ok(p) ==> res == Ok::<
            Option<Permission>,
            Error,
        >(p),
        spec_feature_gate(kind, is_operator) is Err ==> (res matches Err(Error::BadStatic(m)) && m@
            == "feature cannot be manually enabled/disabled"@),
{
    if is_operator && kind.server_operators {
        Ok(None)
    } else if kind.room_editors {
        Ok(Some(Permission::RoomEdit))
    } else if kind.room_admins {
        Ok(Some(Permission::Admin))
    } else {
        Err(Error::BadStatic(String::from_str("feature cannot be manually enabled/disabled")))
    }
}

/// What a room edit changes, field by field: a field counts as changed
/// when the edit sets it to something else than it is.
pub struct RoomEditChanges {
    pub metadata: bool,
    pub invites_paused: bool,
}

/// The permissions a room edit needs: `RoomEdit` for its metadata,
/// `InviteManage` for pausing invites.
pub fn room_edit_needs(c: &RoomEditChanges) -> (res: Vec<Permission>)
    ensures
        res@ == (if c.metadata {
            seq![Permission::RoomEdit]
        } else {
            Seq::empty()
        }) + (if c.invites_paused {
            seq![Permission::InviteManage]
        } else {
            Seq::empty()
        }),
{
    let mut v: Vec<Permission> = Vec::new();
    if c.metadata {
        v.push(Permission::RoomEdit);
    }
    if c.invites_paused {
        v.push(Permission::InviteManage);
    }
    proof {
        assert(v@ =~= (if c.metadata {
            seq![Permission::RoomEdit]
        } else {
            Seq::empty()
        }) + (if c.invites_paused {
            seq![Permission::InviteManage]
        } else {
            Seq::empty()
        }));
    }
    v
}

/// Whether a field edit changes a text field: it is set, to another value.
pub fn text_field_changes(edit: &Option<Option<String>>, cur: &Option<String>) -> (res: bool)
    ensures
        res == (*edit matches Some(e) && opt_view(e) != opt_view(*cur)),
{
    match edit {
        Some(e) => !crate::text::opt_string_eq(e, cur),
        None => false,
    }
}

/// Only the room's owner, or a server operator, may delete a room.
pub fn room_delete_gate(owner_id: Option<u128>, auth_id: u128, is_operator: bool) -> (res: Result<
    (),
    Rejection,
>)
    ensures
        res is Ok <==> (owner_id == Some(auth_id) || is_operator),
        res is Err ==> res == Err::<(), Rejection>(Rejection::Api(ErrorCode::NotRoomOwner)),
{
    if owner_id != Some(auth_id) && !is_operator {
        Err(Rejection::Api(ErrorCode::NotRoomOwner))
    } else {
        Ok(())
    }
}

/// Only the room's owner may hand over its ownership.
pub fn room_transfer_gate(owner_id: Option<u128>, auth_id: u128) -> (res: Result<(), Rejection>)
    ensures
        res is Ok <==> owner_id == Some(auth_id),
        res is Err ==> res == Err::<(), Rejection>(Rejection::Api(ErrorCode::NotRoomOwner)),
{
    if owner_id != Some(auth_id) {
        Err(Rejection::Api(ErrorCode::NotRoomOwner))
    } else {
        Ok(())
    }
}

/// What setting a room's security does.
#[derive(Clone, Copy, PartialEq, Eq, Structural, Debug)]
pub enum SecurityStep {
    /// Nothing is asked: the room is returned as it is.
    Unchanged,
    /// The settings are written.
    Update,
}

/// Setting a room's security: only its owner may; a request that sets
/// nothing changes nothing; and requiring multi-factor authentication needs
/// the owner to have it enabled (`owner_totp` holds whether it is, `None`
/// without a secret).
pub fn security_gate(
    owner_id: Option<u128>,
    auth_id: u128,
    require_mfa: Option<bool>,
    require_sudo: Option<bool>,
    owner_totp: Option<bool>,
) -> (res: Result<SecurityStep, Rejection>)
    ensures
        owner_id != Some(auth_id) ==> res == Err::<SecurityStep, Rejection>(
            Rejection::Server(Error::MissingPermissions),
        ),
        owner_id == Some(auth_id) && require_mfa is None && require_sudo is None ==> res == Ok::<
            SecurityStep,
            Rejection,
        >(SecurityStep::Unchanged),
        owner_id == Some(auth_id) && (require_mfa is Some || require_sudo is Some) && require_mfa
            == Some(true) && owner_totp != Some(true) ==> res == Err::<SecurityStep, Rejection>(
            Rejection::Api(ErrorCode::RoomOwnerMustHaveMfa),
        ),
        owner_id == Some(auth_id) && (require_mfa is Some || require_sudo is Some) && !(
        require_mfa == Some(true) && owner_totp != Some(true)) ==> res == Ok::<
            SecurityStep,
            Rejection,
        >(SecurityStep::Update),
{
    if owner_id != Some(auth_id) {
        return Err(Rejection::Server(Error::MissingPermissions));
    }
    if require_mfa.is_none() && require_sudo.is_none() {
        return Ok(SecurityStep::Unchanged);
    }
    if require_mfa == Some(true) && owner_totp != Some(true) {
        return Err(Rejection::Api(ErrorCode::RoomOwnerMustHaveMfa));
    }
    Ok(SecurityStep::Update)
}

/// Only the creator of a room template may edit or delete it.
pub fn template_owner_gate(creator_id: u128, auth_id: u128) -> (res: Result<(), Error>)
    ensures
        creator_id == auth_id ==> res is Ok,
        creator_id != auth_id ==> res matches Err(Error::MissingPermissions),
{
    if creator_id != auth_id {
        Err(Error::MissingPermissions)
    } else {
        Ok(())
    }
}


/// The checks of a request on one automod rule of a room: editing the room
/// is needed, and a rule that belongs to another room (`rule_room` is the
/// room the stored rule belongs to) is unknown here.
pub fn automod_rule_gate(granted: &Vec<Permission>, rule_room: u128, room: u128) -> (res: Result<
    (),
    Rejection,
>)
    ensures
        !granted@.contains(Permission::RoomEdit) ==> res == Err::<(), Rejection>(
            Rejection::Server(Error::MissingPermissions),
        ),
        granted@.contains(Permission::RoomEdit) && rule_room != room ==> res == Err::<
            (),
            Rejection,
        >(Rejection::Api(ErrorCode::UnknownAutomodRule)),
        granted@.contains(Permission::RoomEdit) && rule_room == room ==> res is Ok,
{
    if !crate::perms::contains_permission(granted, Permission::RoomEdit) {
        return Err(Rejection::Server(Error::MissingPermissions));
    }
    if rule_room != room {
        return Err(Rejection::Api(ErrorCode::UnknownAutomodRule));
    }
    Ok(())
}

/// Whether a request to put a room into quarantine (`quarantine`) or take
/// it out changes anything: a room already in the state asked for is
/// returned as it is, with no write, broadcast or audit entry.
pub fn quarantine_changes(quarantined: bool, quarantine: bool) -> (res: bool)
    ensures
        res == (quarantined != quarantine),
{
    quarantined != quarantine
}

/// The security settings of a room.
#[derive(Clone, Copy, PartialEq, Eq, Structural, Debug)]
pub struct RoomSecurity {
    pub require_sudo: bool,
    pub require_mfa: bool,
}

pub open spec fn spec_room_security_checks(
    security: RoomSecurity,
    sudo: Result<(), Rejection>,
    totp_enabled: Option<bool>,
) -> Result<(), Rejection> {
    if security.require_sudo && sudo is Err {
        sudo
    } else if security.require_mfa && totp_enabled != Some(true) {
        Err(Rejection::Api(ErrorCode::MfaRequired))
    } else {
        Ok(())
    }
}

/// The checks that a room's security settings put on sensitive requests: a
/// room that requires sudo mode fails with the outcome of the session's
/// sudo check (`sudo`); a room that requires multi-factor authentication
/// refuses users without an enabled TOTP (`totp_enabled`, `None` without
/// one).
pub fn room_security_checks(
    security: RoomSecurity,
    sudo: Result<(), Rejection>,
    totp_enabled: Option<bool>,
) -> (res: Result<(), Rejection>)
    ensures
        res == spec_room_security_checks(security, sudo, totp_enabled),
{
    if security.require_sudo {
        if let Err(e) = sudo {
            return Err(e);
        }
    }
    if security.require_mfa {
        let enabled = match totp_enabled {
            Some(t) => t,
            None => false,
        };
        if !enabled {
            return Err(Rejection::Api(ErrorCode::MfaRequired));
        }
    }
    Ok(())
}

/// A room's security settings refuse a request exactly when the room
/// requires sudo mode and the session's sudo check failed (with that
/// failure), or requires multi-factor authentication and the user's TOTP
/// is not enabled.
pub proof fn law_room_security(security: RoomSecurity, sudo: Result<(), Rejection>, totp_enabled: Option<bool>)
    ensures
        spec_room_security_checks(security, sudo, totp_enabled) is Ok <==> (!security.require_sudo
            || sudo is Ok) && (!security.require_mfa || totp_enabled == Some(true)),
        security.require_sudo && sudo is Err ==> spec_room_security_checks(security, sudo, totp_enabled)
            == sudo,
{
}

} // verus!
