use vstd::prelude::*;
use vstd::string::*;

verus! {

/// Codes of the API errors that the server answers with.
#[derive(Clone, Copy, PartialEq, Eq, Structural, Debug)]
pub enum ErrorCode {
    BadRedirectUri,
    BitrateTooHigh,
    BotIsNotABridge,
    BranchHasNoParent,
    CannotActOnBehalfOfOthers,
    CannotAddRoleAboveYourRole,
    CannotAddRolesToYourself,
    CannotBanRoomOwner,
    CannotCloseDefaultBranch,
    CannotDeleteLatestMessageVersion,
    CannotDmThisUser,
    CannotFriendThisUser,
    CannotKickFromServerRoom,
    CannotMergeDefaultBranch,
    CannotModifyDefaultRole,
    CannotRemoveRoleAboveYourRole,
    CannotRsvpOtherPeople,
    CannotSetBitrateForNonVoiceThread,
    CannotSetPermissionsOnThisChannelType,
    CannotSetUserLimitForNonVoiceThread,
    CannotTagAnotherTag,
    CantAddThatUser,
    CantCreateThatUser,
    CantDeleteThatMessage,
    CantDeleteThatMessageType,
    ChannelIsNotACalendar,
    ChannelNotInRoom,
    DmGdmOnlyOutsideRoom,
    DmThreadMissingRecipients,
    DmThreadSinglePersonOnly,
    DmsNotAllowedFromThisUser,
    FriendRequestsPaused,
    GdmRequiresFriend,
    GdmTooManyMembers,
    GuestsCannotJoinPublicRooms,
    InsufficientRank,
    InsufficientRankToManageUser,
    InvalidClientId,
    InvalidData,
    InvalidParentChannelType,
    InvalidScope,
    InvalidTotpCode,
    MediaNotAnImage,
    MfaRequired,
    MissingCode,
    MissingCodeVerifier,
    MissingPermissions,
    MissingRedirectUri,
    MissingRefreshToken,
    NoRedirectUriConfigured,
    NotAnOauthToken,
    NotPuppetOwner,
    NotRoomOwner,
    NotThreadOwner,
    OnlyBotsCanUseThis,
    OnlyGdmCanUpgrade,
    OwnerIdCannotBeChanged,
    PermissionConflict,
    PlatformNameRequiredForBridge,
    RoomOwnerCannotLeave,
    RoomOwnerMustHaveMfa,
    ThreadAlreadyInRoom,
    TotpAlreadyEnabled,
    TotpNotEnabled,
    TotpNotInitialized,
    UnblockUserFirst,
    UnknownApplication,
    UnknownAutomodRule,
    UnknownCalendarEvent,
    UnknownDm,
    UnknownDocumentBranch,
    UnknownMedia,
    UnknownResponseType,
    UnknownRoom,
    UnknownRoomTemplate,
    UnknownSession,
    UnknownTag,
    UnknownUser,
    UnsupportedCodeChallengeMethod,
    UnsupportedGrantType,
    YouAreBanned,
}

/// The server's own errors. Errors that come from a library are carried
/// by their message.
#[derive(Debug)]
pub enum Error {
    Sqlx(String),
    Blocked,
    MissingAuth,
    BadHeader,
    UnauthSession,
    NotFound,
    MissingPermissions,
    BadStatic(String),
    BadRequest(String),
    TooBig,
    Internal(String),
    IoError(String),
    CantOverwrite,
    Tempfile(String),
    Serde(String),
    Axum,
    SushiSend(String),
    ParseInt(String),
    ParseFloat(String),
    Opendal(String),
    SqlxMigrate(String),
    TracingSubscriber(String),
    LogFormatParse(String),
    Reqwest(String),
    Figment(String),
    UrlParseError(String),
    NotModified,
    Ffmpeg,
    Media(String),
    Unimplemented,
    ImageError(String),
    UnknownImageFormat,
    UrlEmbed(String),
    UrlEmbedOther(String),
    Validation(String),
    Lettre(String),
    InvalidCredentials,
    EmailAlreadyExists,
    GenericError(String),
    OtelExporterBuildError(String),
}

/// Why a request was refused: an API error code or a server error.
#[derive(Debug)]
pub enum Rejection {
    Api(ErrorCode),
    Server(Error),
}

/// The HTTP status that answers an error.
pub open spec fn spec_status(e: Error) -> u16 {
    match e {
        Error::Blocked => 403,
        Error::NotFound => 404,
        Error::BadHeader => 400,
        Error::BadStatic(_) => 400,
        Error::BadRequest(_) => 400,
        Error::Serde(_) => 400,
        Error::MissingAuth => 401,
        Error::UnauthSession => 401,
        Error::TooBig => 413,
        Error::MissingPermissions => 403,
        Error::CantOverwrite => 409,
        Error::ParseInt(_) => 400,
        Error::ParseFloat(_) => 400,
        Error::Unimplemented => 501,
        Error::NotModified => 304,
        Error::Validation(_) => 400,
        _ => 500,
    }
}

/// The prefix of an error's message, written before the carried detail (if any).
pub open spec fn spec_message_prefix(e: Error) -> Seq<char> {
    match e {
        Error::Sqlx(_) => "sqlx error: "@,
        Error::Blocked => "blocked by other user"@,
        Error::MissingAuth => "missing authentication (not provided or invalid/expired session)"@,
        Error::BadHeader => "bad header"@,
        Error::UnauthSession => "session not yet authenticated"@,
        Error::NotFound => "not found"@,
        Error::MissingPermissions => "forbidden"@,
        Error::BadStatic(_) => "bad request: "@,
        Error::BadRequest(_) => "bad request: "@,
        Error::TooBig => "too big :("@,
        Error::Internal(_) => "internal error: "@,
        Error::IoError(_) => "internal error: "@,
        Error::CantOverwrite => "can't overwrite already uploaded data!"@,
        Error::Tempfile(_) => "internal error: "@,
        Error::Serde(_) => "serde error: "@,
        Error::Axum => "axum error"@,
        Error::SushiSend(_) => "sushi send error: "@,
        Error::ParseInt(_) => "parse int error: "@,
        Error::ParseFloat(_) => "parse float error: "@,
        Error::Opendal(_) => "opendal error: "@,
        Error::SqlxMigrate(_) => "migrate error: "@,
        Error::TracingSubscriber(_) => "tracing subscriber error: "@,
        Error::LogFormatParse(_) => "log format parse error: "@,
        Error::Reqwest(_) => "reqwest error: "@,
        Error::Figment(_) => "figment error: "@,
        Error::UrlParseError(_) => "url parse error: "@,
        Error::NotModified => "unmodified"@,
        Error::Ffmpeg => "ffmpeg or ffprobe didn't like seem to like that very much"@,
        Error::Media(_) => "media type error: "@,
        Error::Unimplemented => "not yet implemented..."@,
        Error::ImageError(_) => "image error: "@,
        Error::UnknownImageFormat => "unknown image format"@,
        Error::UrlEmbed(_) => "url embed io error: "@,
        Error::UrlEmbedOther(_) => "url embed error: "@,
        Error::Validation(_) => "validation error: "@,
        Error::Lettre(_) => "lettre error: "@,
        Error::InvalidCredentials => "invalid credentials"@,
        Error::EmailAlreadyExists => "email address already exists for this user"@,
        Error::GenericError(_) => "generic error: "@,
        Error::OtelExporterBuildError(_) => "OtelExporterBuildError: "@,
    }
}

/// The detail an error carries, empty where it carries none.
pub open spec fn spec_detail(e: Error) -> Seq<char> {
    match e {
        Error::Sqlx(s) => s@,
        Error::BadStatic(s) => s@,
        Error::BadRequest(s) => s@,
        Error::Internal(s) => s@,
        Error::IoError(s) => s@,
        Error::Tempfile(s) => s@,
        Error::Serde(s) => s@,
        Error::SushiSend(s) => s@,
        Error::ParseInt(s) => s@,
        Error::ParseFloat(s) => s@,
        Error::Opendal(s) => s@,
        Error::SqlxMigrate(s) => s@,
        Error::TracingSubscriber(s) => s@,
        Error::LogFormatParse(s) => s@,
        Error::Reqwest(s) => s@,
        Error::Figment(s) => s@,
        Error::UrlParseError(s) => s@,
        Error::Media(s) => s@,
        Error::ImageError(s) => s@,
        Error::UrlEmbed(s) => s@,
        Error::UrlEmbedOther(s) => s@,
        Error::Validation(s) => s@,
        Error::Lettre(s) => s@,
        Error::GenericError(s) => s@,
        Error::OtelExporterBuildError(s) => s@,
        _ => Seq::empty(),
    }
}

/// The message an error is shown with.
pub open spec fn spec_message(e: Error) -> Seq<char> {
    spec_message_prefix(e) + spec_detail(e)
}

/// Whether `fake_clone` copies the error as it is (the other errors become
/// a generic error that carries their message).
pub open spec fn spec_clones_exactly(e: Error) -> bool {
    match e {
        Error::Blocked | Error::MissingAuth | Error::BadHeader | Error::UnauthSession
        | Error::NotFound | Error::MissingPermissions | Error::BadStatic(_)
        | Error::BadRequest(_) | Error::TooBig | Error::Internal(_) | Error::CantOverwrite
        | Error::ParseInt(_) | Error::ParseFloat(_) | Error::Figment(_)
        | Error::UrlParseError(_) | Error::NotModified | Error::Ffmpeg | Error::Media(_)
        | Error::Unimplemented | Error::UnknownImageFormat | Error::UrlEmbedOther(_)
        | Error::Validation(_) => true,
        _ => false,
    }
}

fn text(s: &str) -> (res: String)
    ensures
        res@ == s@,
{
    String::from_str(s)
}

fn prefixed(prefix: &str, detail: &String) -> (res: String)
    ensures
        res@ == prefix@ + detail@,
{
    let mut r = String::from_str(prefix);
    r.append(detail.as_str());
    r
}

impl Error {
    /// The HTTP status code that answers this error.
    pub fn get_status(&self) -> (res: u16)
        ensures
            res == spec_status(*self),
    {
        match self {
            Error::Blocked => 403,
            Error::NotFound => 404,
            Error::BadHeader => 400,
            Error::BadStatic(_) => 400,
            Error::BadRequest(_) => 400,
            Error::Serde(_) => 400,
            Error::MissingAuth => 401,
            Error::UnauthSession => 401,
            Error::TooBig => 413,
            Error::MissingPermissions => 403,
            Error::CantOverwrite => 409,
            Error::ParseInt(_) => 400,
            Error::ParseFloat(_) => 400,
            Error::Unimplemented => 501,
            Error::NotModified => 304,
            Error::Validation(_) => 400,
            _ => 500,
        }
    }

    /// The message this error is shown with.
    pub fn message(&self) -> (res: String)
        ensures
            res@ == spec_message(*self),
    {
        match self {
            Error::Sqlx(s) => prefixed("sqlx error: ", s),
            Error::Blocked => text("blocked by other user"),
            Error::MissingAuth => text(
                "missing authentication (not provided or invalid/expired session)",
            ),
            Error::BadHeader => text("bad header"),
            Error::UnauthSession => text("session not yet authenticated"),
            Error::NotFound => text("not found"),
            Error::MissingPermissions => text("forbidden"),
            Error::BadStatic(s) => prefixed("bad request: ", s),
            Error::BadRequest(s) => prefixed("bad request: ", s),
            Error::TooBig => text("too big :("),
            Error::Internal(s) => prefixed("internal error: ", s),
            Error::IoError(s) => prefixed("internal error: ", s),
            Error::CantOverwrite => text("can't overwrite already uploaded data!"),
            Error::Tempfile(s) => prefixed("internal error: ", s),
            Error::Serde(s) => prefixed("serde error: ", s),
            Error::Axum => text("axum error"),
            Error::SushiSend(s) => prefixed("sushi send error: ", s),
            Error::ParseInt(s) => prefixed("parse int error: ", s),
            Error::ParseFloat(s) => prefixed("parse float error: ", s),
            Error::Opendal(s) => prefixed("opendal error: ", s),
            Error::SqlxMigrate(s) => prefixed("migrate error: ", s),
            Error::TracingSubscriber(s) => prefixed("tracing subscriber error: ", s),
            Error::LogFormatParse(s) => prefixed("log format parse error: ", s),
            Error::Reqwest(s) => prefixed("reqwest error: ", s),
            Error::Figment(s) => prefixed("figment error: ", s),
            Error::UrlParseError(s) => prefixed("url parse error: ", s),
            Error::NotModified => text("unmodified"),
            Error::Ffmpeg => text("ffmpeg or ffprobe didn't like seem to like that very much"),
            Error::Media(s) => prefixed("media type error: ", s),
            Error::Unimplemented => text("not yet implemented..."),
            Error::ImageError(s) => prefixed("image error: ", s),
            Error::UnknownImageFormat => text("unknown image format"),
            Error::UrlEmbed(s) => prefixed("url embed io error: ", s),
            Error::UrlEmbedOther(s) => prefixed("url embed error: ", s),
            Error::Validation(s) => prefixed("validation error: ", s),
            Error::Lettre(s) => prefixed("lettre error: ", s),
            Error::InvalidCredentials => text("invalid credentials"),
            Error::EmailAlreadyExists => text("email address already exists for this user"),
            Error::GenericError(s) => prefixed("generic error: ", s),
            Error::OtelExporterBuildError(s) => prefixed("OtelExporterBuildError: ", s),
        }
    }

    /// A copy of this error: the same error where it can be copied,
    /// else a generic error that carries its message.
    pub fn fake_clone(&self) -> (res: Error)
        ensures
            spec_clones_exactly(*self) ==> res == *self,
            !spec_clones_exactly(*self) ==> (res matches Error::GenericError(m) && m@
                == spec_message(*self)),
    {
        match self {
            Error::Blocked => Error::Blocked,
            Error::MissingAuth => Error::MissingAuth,
            Error::BadHeader => Error::BadHeader,
            Error::UnauthSession => Error::UnauthSession,
            Error::NotFound => Error::NotFound,
            Error::MissingPermissions => Error::MissingPermissions,
            Error::BadStatic(s) => Error::BadStatic(s.clone()),
            Error::BadRequest(s) => Error::BadRequest(s.clone()),
            Error::TooBig => Error::TooBig,
            Error::Internal(s) => Error::Internal(s.clone()),
            Error::CantOverwrite => Error::CantOverwrite,
            Error::ParseInt(s) => Error::ParseInt(s.clone()),
            Error::ParseFloat(s) => Error::ParseFloat(s.clone()),
            Error::Figment(s) => Error::Figment(s.clone()),
            Error::UrlParseError(s) => Error::UrlParseError(s.clone()),
            Error::NotModified => Error::NotModified,
            Error::Ffmpeg => Error::Ffmpeg,
            Error::Media(s) => Error::Media(s.clone()),
            Error::Unimplemented => Error::Unimplemented,
            Error::UnknownImageFormat => Error::UnknownImageFormat,
            Error::UrlEmbedOther(s) => Error::UrlEmbedOther(s.clone()),
            Error::Validation(s) => Error::Validation(s.clone()),
            _ => Error::GenericError(self.message()),
        }
    }
}

} // verus!
