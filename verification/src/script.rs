use vstd::prelude::*;
use vstd::string::*;

use crate::error::Error;

verus! {

/// The language a script is written in.
#[derive(Clone, Copy, PartialEq, Eq, Structural, Debug)]
pub enum ScriptFormat {
    Javascript,
    Webassembly,
}

/// Where a script's source comes from.
#[derive(Clone, Copy, PartialEq, Eq, Structural, Debug)]
pub enum ScriptSource {
    /// A file on the server's disk.
    Local,
    /// A remote repository.
    Remote,
    /// Hosted: an attachment of a message.
    Attachment,
    /// Hosted: a URL to fetch.
    Url,
    /// Hosted: uploaded media.
    Media { media_id: u128 },
}

/// Scripts are refused as not implemented when the server has them off.
pub fn scripts_enabled_gate(enabled: bool) -> (res: Result<(), Error>)
    ensures
        enabled ==> res is Ok,
        !enabled ==> res matches Err(Error::Unimplemented),
{
    if enabled {
        Ok(())
    } else {
        Err(Error::Unimplemented)
    }
}

/// The room of a channel that holds scripts; a channel outside any room
/// cannot.
pub fn script_room(room_id: Option<u128>) -> (res: Result<u128, Error>)
    ensures
        room_id matches Some(r) ==> res == Ok::<u128, Error>(r),
        room_id is None ==> (res matches Err(Error::BadStatic(m)) && m@
            == "channel is not in a room"@),
{
    match room_id {
        Some(r) => Ok(r),
        None => Err(Error::BadStatic(String::from_str("channel is not in a room"))),
    }
}

/// The uploaded media that a script's source is in: only uploaded media is
/// supported so far.
pub fn hosted_media(source: ScriptSource) -> (res: Result<u128, Error>)
    ensures
        source matches ScriptSource::Media { media_id } ==> res == Ok::<u128, Error>(media_id),
        !(source is Media) ==> res matches Err(Error::Unimplemented),
{
    match source {
        ScriptSource::Media { media_id } => Ok(media_id),
        _ => Err(Error::Unimplemented),
    }
}

/// A new script (of the first kind) must be Javascript, in uploaded media.
pub fn script_create_source(format: ScriptFormat, source: ScriptSource) -> (res: Result<
    u128,
    Error,
>)
    ensures
        format == ScriptFormat::Javascript ==> (source matches ScriptSource::Media { media_id }
            ==> res == Ok::<u128, Error>(media_id)),
        !(format == ScriptFormat::Javascript && source is Media) ==> res matches Err(
            Error::Unimplemented,
        ),
{
    match format {
        ScriptFormat::Webassembly => Err(Error::Unimplemented),
        ScriptFormat::Javascript => hosted_media(source),
    }
}

/// A script's source may not be larger than the server's limit.
pub fn script_size_gate(size: u64, max_size: u64) -> (res: Result<(), Error>)
    ensures
        size <= max_size ==> res is Ok,
        size > max_size ==> (res matches Err(Error::BadStatic(m)) && m@ == "file too large"@),
{
    if size > max_size {
        Err(Error::BadStatic(String::from_str("file too large")))
    } else {
        Ok(())
    }
}

/// A script is found through a channel only when it belongs to that
/// channel: one that does not exist, or lives in another channel, is "not
/// found".
pub fn script_in_channel(script_channel: Option<u128>, channel_id: u128) -> (res: Result<
    (),
    Error,
>)
    ensures
        script_channel == Some(channel_id) ==> res is Ok,
        script_channel != Some(channel_id) ==> res matches Err(Error::NotFound),
{
    match script_channel {
        Some(c) => {
            if c == channel_id {
                Ok(())
            } else {
                Err(Error::NotFound)
            }
        },
        None => Err(Error::NotFound),
    }
}

/// Scripts are run by hand only in a scripts channel.
pub fn trigger_channel_gate(is_scripts_channel: bool) -> (res: Result<(), Error>)
    ensures
        is_scripts_channel ==> res is Ok,
        !is_scripts_channel ==> (res matches Err(Error::BadStatic(m)) && m@
            == "channel is not a scripts channel"@),
{
    if is_scripts_channel {
        Ok(())
    } else {
        Err(Error::BadStatic(String::from_str("channel is not a scripts channel")))
    }
}

/// The name of a format, as the audit log records it.
pub open spec fn spec_format_name(format: ScriptFormat) -> Seq<char> {
    match format {
        ScriptFormat::Javascript => "Javascript"@,
        ScriptFormat::Webassembly => "Webassembly"@,
    }
}

pub fn format_name(format: ScriptFormat) -> (res: &'static str)
    ensures
        res@ == spec_format_name(format),
{
    match format {
        ScriptFormat::Javascript => "Javascript",
        ScriptFormat::Webassembly => "Webassembly",
    }
}

} // verus!
