use vstd::prelude::*;
use vstd::string::*;

use crate::error::{Error, ErrorCode, Rejection};
use crate::text::{chars_of, str_eq};

verus! {

/// A declared size is within the server's limit; a missing size always is.
pub open spec fn size_allowed(size: Option<u64>, max_size: u64) -> bool {
    size matches Some(s) ==> s <= max_size
}

/// Creating media, by upload or by download, is refused with `TooBig` when
/// the declared size is over the server's limit.
pub fn create_size_gate(size: Option<u64>, max_size: u64) -> (res: Result<(), Error>)
    ensures
        size_allowed(size, max_size) ==> res is Ok,
        !size_allowed(size, max_size) ==> res matches Err(Error::TooBig),
{
    match size {
        Some(s) => {
            if s > max_size {
                Err(Error::TooBig)
            } else {
                Ok(())
            }
        },
        None => Ok(()),
    }
}

/// Why a text is not an unsigned 64-bit decimal number.
#[derive(Clone, Copy, PartialEq, Eq, Structural, Debug)]
pub enum IntFault {
    Empty,
    InvalidDigit,
    PosOverflow,
}

pub open spec fn is_digit(c: char) -> bool {
    '0' <= c && c <= '9'
}

pub open spec fn digit_value(c: char) -> int {
    (c as int) - ('0' as int)
}

/// Reads decimal digits left to right: the first character that is not a
/// digit, or the first digit that takes the value past `u64::MAX`, decides
/// the fault.
pub open spec fn scan_digits(d: Seq<char>) -> Result<int, IntFault>
    decreases d.len(),
{
    if d.len() == 0 {
        Ok(0)
    } else {
        match scan_digits(d.drop_last()) {
            Err(e) => Err(e),
            Ok(v) => if !is_digit(d.last()) {
                Err(IntFault::InvalidDigit)
            } else if v * 10 + digit_value(d.last()) > u64::MAX {
                Err(IntFault::PosOverflow)
            } else {
                Ok(v * 10 + digit_value(d.last()))
            },
        }
    }
}

/// The value of a text read as an unsigned 64-bit decimal number, as
/// `str::parse::<u64>` reads it: an empty text is refused, and one leading
/// `+` is allowed before the digits.
pub open spec fn spec_parse_u64(s: Seq<char>) -> Result<int, IntFault> {
    if s.len() == 0 {
        Err(IntFault::Empty)
    } else if s.len() >= 2 && s[0] == '+' {
        scan_digits(s.drop_first())
    } else {
        scan_digits(s)
    }
}

proof fn lemma_scan_bounded(d: Seq<char>)
    ensures
        scan_digits(d) matches Ok(v) ==> 0 <= v <= u64::MAX,
    decreases d.len(),
{
    if d.len() > 0 {
        lemma_scan_bounded(d.drop_last());
    }
}

fn scan_from(cs: &Vec<char>, start: usize) -> (res: Result<u64, IntFault>)
    requires
        start <= cs@.len(),
    ensures
        match res {
            Ok(v) => scan_digits(cs@.skip(start as int)) == Ok::<int, IntFault>(v as int),
            Err(e) => scan_digits(cs@.skip(start as int)) == Err::<int, IntFault>(e),
        },
{
    let mut acc: u64 = 0;
    let mut i: usize = start;
    while i < cs.len()
        invariant
            start <= i <= cs@.len(),
            scan_digits(cs@.subrange(start as int, i as int)) == Ok::<int, IntFault>(acc as int),
        decreases cs.len() - i,
    {
        let c = cs[i];
        assert(cs@.subrange(start as int, i + 1).drop_last() =~= cs@.subrange(
            start as int,
            i as int,
        ));
        assert(cs@.subrange(start as int, i + 1).last() == c);
        if !('0' <= c && c <= '9') {
            assert(cs@.skip(start as int).subrange(0, i + 1 - start) =~= cs@.subrange(
                start as int,
                i + 1,
            ));
            proof {
                lemma_scan_prefix_fault(cs@.skip(start as int), (i + 1 - start) as nat);
            }
            return Err(IntFault::InvalidDigit);
        }
        let dv: u64 = (c as u32 - '0' as u32) as u64;
        assert(dv == digit_value(c));
        if acc > 1844674407370955161 || (acc == 1844674407370955161 && dv > 5) {
            assert(acc * 10 + dv > u64::MAX) by (nonlinear_arith)
                requires
                    acc > 1844674407370955161 || (acc == 1844674407370955161 && dv > 5),
            ;
            assert(cs@.skip(start as int).subrange(0, i + 1 - start) =~= cs@.subrange(
                start as int,
                i + 1,
            ));
            proof {
                lemma_scan_prefix_fault(cs@.skip(start as int), (i + 1 - start) as nat);
            }
            return Err(IntFault::PosOverflow);
        }
        assert(acc * 10 + dv <= u64::MAX) by (nonlinear_arith)
            requires
                !(acc > 1844674407370955161 || (acc == 1844674407370955161 && dv > 5)),
                dv <= 9,
        ;
        acc = acc * 10 + dv;
        i = i + 1;
    }
    assert(cs@.subrange(start as int, cs@.len() as int) =~= cs@.skip(start as int));
    Ok(acc)
}

/// A fault in a prefix is the fault of the whole text.
proof fn lemma_scan_prefix_fault(d: Seq<char>, n: nat)
    requires
        n <= d.len(),
        scan_digits(d.take(n as int)) is Err,
    ensures
        scan_digits(d) == scan_digits(d.take(n as int)),
    decreases d.len() - n,
{
    if n < d.len() {
        assert(d.take(n as int + 1).drop_last() =~= d.take(n as int));
        lemma_scan_prefix_fault(d, (n + 1) as nat);
    } else {
        assert(d.take(n as int) =~= d);
    }
}

/// Reads a text as an unsigned 64-bit decimal number, as `str::parse::<u64>`
/// does.
pub fn parse_u64(s: &str) -> (res: Result<u64, IntFault>)
    ensures
        match res {
            Ok(v) => spec_parse_u64(s@) == Ok::<int, IntFault>(v as int),
            Err(e) => spec_parse_u64(s@) == Err::<int, IntFault>(e),
        },
{
    let cs = chars_of(s);
    if cs.len() == 0 {
        return Err(IntFault::Empty);
    }
    if cs.len() >= 2 && cs[0] == '+' {
        assert(cs@.skip(1) =~= cs@.drop_first());
        scan_from(&cs, 1)
    } else {
        assert(cs@.skip(0) =~= cs@);
        scan_from(&cs, 0)
    }
}

/// The message that a parse fault is reported with.
pub open spec fn spec_fault_message(f: IntFault) -> Seq<char> {
    match f {
        IntFault::Empty => "cannot parse integer from empty string"@,
        IntFault::InvalidDigit => "invalid digit found in string"@,
        IntFault::PosOverflow => "number too large to fit in target type"@,
    }
}

pub fn fault_message(f: IntFault) -> (res: String)
    ensures
        res@ == spec_fault_message(f),
{
    match f {
        IntFault::Empty => String::from_str("cannot parse integer from empty string"),
        IntFault::InvalidDigit => String::from_str("invalid digit found in string"),
        IntFault::PosOverflow => String::from_str("number too large to fit in target type"),
    }
}

/// The text of a header, if the request has it.
pub open spec fn header_view(value: Option<&str>) -> Option<Seq<char>> {
    match value {
        Some(v) => Some(v@),
        None => None,
    }
}

/// The number in a header, or why there is none: `Err(None)` when the
/// header is missing, `Err(Some(f))` when its text is not a number.
pub open spec fn spec_header(value: Option<Seq<char>>) -> Result<int, Option<IntFault>> {
    match value {
        None => Err(None),
        Some(v) => match spec_parse_u64(v) {
            Ok(n) => Ok(n),
            Err(f) => Err(Some(f)),
        },
    }
}

/// The error that a header fault is answered with.
pub open spec fn is_header_error(e: Error, f: Option<IntFault>) -> bool {
    match f {
        None => e is BadHeader,
        Some(f) => e matches Error::ParseInt(m) && m@ == spec_fault_message(f),
    }
}

/// The number in an upload header: `BadHeader` when the header is missing
/// (or is not visible text, which the caller passes as missing), and a
/// parse error when it is not a number.
pub fn header_u64(value: Option<&str>) -> (res: Result<u64, Error>)
    ensures
        match spec_header(header_view(value)) {
            Ok(n) => res matches Ok(m) && m == n,
            Err(f) => res matches Err(e) && is_header_error(e, f),
        },
{
    match value {
        None => Err(Error::BadHeader),
        Some(v) => match parse_u64(v) {
            Ok(n) => Ok(n),
            Err(f) => Err(Error::ParseInt(fault_message(f))),
        },
    }
}

/// Where an upload stands once its data is written.
#[derive(Clone, Copy, PartialEq, Eq, Structural, Debug)]
pub enum UploadProgress {
    /// More was written than was declared: the upload is dropped.
    Overflowed,
    /// Exactly the declared size is there: the upload can be processed.
    Complete,
    /// Some data is missing; the client resumes at `offset` of `length`.
    Partial { offset: u64, length: u64 },
}

pub open spec fn spec_progress(current: u64, expected: u64) -> UploadProgress {
    if current > expected {
        UploadProgress::Overflowed
    } else if current == expected {
        UploadProgress::Complete
    } else {
        UploadProgress::Partial { offset: current, length: expected }
    }
}

/// Compares what was written with what was declared.
pub fn upload_progress(current: u64, expected: u64) -> (res: UploadProgress)
    ensures
        res == spec_progress(current, expected),
{
    if current > expected {
        UploadProgress::Overflowed
    } else if current == expected {
        UploadProgress::Complete
    } else {
        UploadProgress::Partial { offset: current, length: expected }
    }
}

/// An upload in progress: who started it, and the size it declared.
#[derive(Clone, Copy, PartialEq, Eq, Structural, Debug)]
pub struct UploadState {
    pub user_id: u128,
    pub current_size: u64,
    pub expected_size: u64,
}

/// Whether a chunk may be written: the upload is the caller's, the chunk
/// starts where the data ends, and it does not take the data past the
/// declared size.
pub open spec fn spec_chunk_gate(
    owner: u128,
    auth_id: u128,
    file_size: u64,
    offset: u64,
    part_length: u64,
    expected: u64,
) -> Result<(), Error> {
    if owner != auth_id {
        Err(Error::NotFound)
    } else if file_size != offset {
        Err(Error::CantOverwrite)
    } else if file_size + part_length > expected {
        Err(Error::TooBig)
    } else {
        Ok(())
    }
}

/// Checks a chunk of an upload before it is written.
pub fn chunk_gate(
    owner: u128,
    auth_id: u128,
    file_size: u64,
    offset: u64,
    part_length: u64,
    expected: u64,
) -> (res: Result<(), Error>)
    ensures
        match spec_chunk_gate(owner, auth_id, file_size, offset, part_length, expected) {
            Ok(()) => res is Ok,
            Err(Error::NotFound) => res matches Err(Error::NotFound),
            Err(Error::CantOverwrite) => res matches Err(Error::CantOverwrite),
            Err(_) => res matches Err(Error::TooBig),
        },
{
    if owner != auth_id {
        Err(Error::NotFound)
    } else if file_size != offset {
        Err(Error::CantOverwrite)
    } else if file_size > expected || part_length > expected - file_size {
        Err(Error::TooBig)
    } else {
        Ok(())
    }
}

/// The whole check before a chunk of an upload is written: the upload must
/// exist (`UnknownMedia`), be the caller's (`NotFound`), and carry its
/// offset and length headers, in that order; then the chunk must fit.
pub fn upload_chunk_decision(
    upload: Option<UploadState>,
    auth_id: u128,
    file_size: u64,
    offset_header: Option<&str>,
    length_header: Option<&str>,
) -> (res: Result<u64, Rejection>)
    ensures
        match upload {
            None => res matches Err(Rejection::Api(ErrorCode::UnknownMedia)),
            Some(u) => if u.user_id != auth_id {
                res matches Err(Rejection::Server(Error::NotFound))
            } else {
                match spec_header(header_view(offset_header)) {
                    Err(f) => res matches Err(Rejection::Server(e)) && is_header_error(e, f),
                    Ok(off) => match spec_header(header_view(length_header)) {
                        Err(f) => res matches Err(Rejection::Server(e)) && is_header_error(e, f),
                        Ok(len) => match spec_chunk_gate(
                            u.user_id,
                            auth_id,
                            file_size,
                            off as u64,
                            len as u64,
                            u.expected_size,
                        ) {
                            Ok(()) => res == Ok::<u64, Rejection>(len as u64),
                            Err(Error::CantOverwrite) => res matches Err(
                                Rejection::Server(Error::CantOverwrite),
                            ),
                            Err(_) => res matches Err(Rejection::Server(Error::TooBig)),
                        },
                    },
                }
            },
        },
{
    let u = match upload {
        None => {
            return Err(Rejection::Api(ErrorCode::UnknownMedia));
        },
        Some(u) => u,
    };
    if u.user_id != auth_id {
        return Err(Rejection::Server(Error::NotFound));
    }
    let off = match header_u64(offset_header) {
        Ok(n) => n,
        Err(e) => {
            return Err(Rejection::Server(e));
        },
    };
    let len = match header_u64(length_header) {
        Ok(n) => n,
        Err(e) => {
            return Err(Rejection::Server(e));
        },
    };
    match chunk_gate(u.user_id, auth_id, file_size, off, len, u.expected_size) {
        Ok(()) => Ok(len),
        Err(e) => Err(Rejection::Server(e)),
    }
}

/// A piece of an upload that passes `chunk_gate`, once stored in full, never takes the
/// upload past its declared size; it completes the upload exactly when it
/// reaches that size.
pub proof fn law_accepted_chunk_fits(
    owner: u128,
    auth_id: u128,
    file_size: u64,
    offset: u64,
    part_length: u64,
    expected: u64,
)
    requires
        spec_chunk_gate(owner, auth_id, file_size, offset, part_length, expected) is Ok,
    ensures
        file_size + part_length <= u64::MAX,
        !(spec_progress((file_size + part_length) as u64, expected) is Overflowed),
        (spec_progress((file_size + part_length) as u64, expected) is Complete) <==> file_size
            + part_length == expected,
{
}

/// What finishing an upload does.
#[derive(Clone, Copy, PartialEq, Eq, Structural, Debug)]
pub enum DoneStep {
    /// Process the upload now and answer with the media.
    ProcessNow,
    /// Start processing in the background and answer at once.
    ProcessLater,
    /// Data is still missing; the client resumes at `offset` of `length`.
    Incomplete { offset: u64, length: u64 },
}

/// Finishing an upload: it must exist (`UnknownMedia`) and be the caller's
/// (`NotFound`); an upload with more data than declared is dropped with
/// `TooBig`; a complete one is processed, in the background when asked.
pub fn done_decision(upload: Option<UploadState>, auth_id: u128, process_async: bool) -> (res:
    Result<DoneStep, Rejection>)
    ensures
        upload is None ==> res matches Err(Rejection::Api(ErrorCode::UnknownMedia)),
        upload matches Some(u) ==> {
            if u.user_id != auth_id {
                res matches Err(Rejection::Server(Error::NotFound))
            } else {
                match spec_progress(u.current_size, u.expected_size) {
                    UploadProgress::Overflowed => res matches Err(
                        Rejection::Server(Error::TooBig),
                    ),
                    UploadProgress::Complete => res == Ok::<DoneStep, Rejection>(
                        if process_async {
                            DoneStep::ProcessLater
                        } else {
                            DoneStep::ProcessNow
                        },
                    ),
                    UploadProgress::Partial { offset, length } => res == Ok::<
                        DoneStep,
                        Rejection,
                    >(DoneStep::Incomplete { offset, length }),
                }
            }
        },
{
    let u = match upload {
        None => {
            return Err(Rejection::Api(ErrorCode::UnknownMedia));
        },
        Some(u) => u,
    };
    if u.user_id != auth_id {
        return Err(Rejection::Server(Error::NotFound));
    }
    match upload_progress(u.current_size, u.expected_size) {
        UploadProgress::Overflowed => Err(Rejection::Server(Error::TooBig)),
        UploadProgress::Complete => {
            if process_async {
                Ok(DoneStep::ProcessLater)
            } else {
                Ok(DoneStep::ProcessNow)
            }
        },
        UploadProgress::Partial { offset, length } => Ok(DoneStep::Incomplete { offset, length }),
    }
}

/// Editing stored media: deleted media is unknown, and only its uploader
/// may edit it.
pub fn patch_gate(deleted: bool, uploader: Option<u128>, auth_id: u128) -> (res: Result<
    (),
    Rejection,
>)
    ensures
        deleted ==> res matches Err(Rejection::Api(ErrorCode::UnknownMedia)),
        !deleted && uploader != Some(auth_id) ==> res matches Err(
            Rejection::Server(Error::MissingPermissions),
        ),
        !deleted && uploader == Some(auth_id) ==> res is Ok,
{
    if deleted {
        Err(Rejection::Api(ErrorCode::UnknownMedia))
    } else if uploader != Some(auth_id) {
        Err(Rejection::Server(Error::MissingPermissions))
    } else {
        Ok(())
    }
}

/// Reading media: deleted media is shown to server admins only.
pub fn get_gate(deleted: bool, is_server_admin: bool) -> (res: Result<(), Rejection>)
    ensures
        res is Ok <==> (!deleted || is_server_admin),
        res is Err ==> res matches Err(Rejection::Api(ErrorCode::UnknownMedia)),
{
    if deleted && !is_server_admin {
        Err(Rejection::Api(ErrorCode::UnknownMedia))
    } else {
        Ok(())
    }
}

/// The resume headers of an upload (its offset and declared length), shown
/// to its uploader only.
pub fn check_headers(upload: Option<UploadState>, auth_id: u128) -> (res: Result<
    (u64, u64),
    Rejection,
>)
    ensures
        (upload matches Some(u) && u.user_id == auth_id) ==> res == Ok::<(u64, u64), Rejection>(
            (upload->0.current_size, upload->0.expected_size),
        ),
        !(upload matches Some(u) && u.user_id == auth_id) ==> res matches Err(
            Rejection::Api(ErrorCode::UnknownMedia),
        ),
{
    match upload {
        Some(u) => {
            if u.user_id == auth_id {
                Ok((u.current_size, u.expected_size))
            } else {
                Err(Rejection::Api(ErrorCode::UnknownMedia))
            }
        },
        None => Err(Rejection::Api(ErrorCode::UnknownMedia)),
    }
}

/// What deleting media does with an upload in progress.
#[derive(Clone, Copy, PartialEq, Eq, Structural, Debug)]
pub enum DeleteStep {
    /// The caller's upload is dropped.
    DropUpload,
    /// Someone else's upload is left alone (the answer is still "no content").
    KeepUpload,
    /// No upload: the stored media is deleted if nothing links to it.
    CheckLinks,
}

pub fn delete_step(upload_owner: Option<u128>, auth_id: u128) -> (res: DeleteStep)
    ensures
        upload_owner == Some(auth_id) ==> res == DeleteStep::DropUpload,
        upload_owner is Some && upload_owner != Some(auth_id) ==> res == DeleteStep::KeepUpload,
        upload_owner is None ==> res == DeleteStep::CheckLinks,
{
    match upload_owner {
        Some(o) => {
            if o == auth_id {
                DeleteStep::DropUpload
            } else {
                DeleteStep::KeepUpload
            }
        },
        None => DeleteStep::CheckLinks,
    }
}

/// Stored media is deleted only when nothing links to it; otherwise the
/// answer is "conflict".
pub fn may_delete_stored(link_count: usize) -> (res: bool)
    ensures
        res == (link_count == 0),
{
    link_count == 0
}

/// Accepts one field of a direct upload: the `file` field carries the data;
/// a `json` field is not supported yet; any other field, or one without a
/// name, is refused.
pub fn direct_field(name: Option<&str>) -> (res: Result<(), Error>)
    ensures
        name is None ==> (res matches Err(Error::BadStatic(m)) && m@ == "field is missing name"@),
        name matches Some(n) && n@ == "json"@ ==> res matches Err(Error::Unimplemented),
        name matches Some(n) && n@ == "file"@ ==> res is Ok,
        name matches Some(n) && n@ != "json"@ && n@ != "file"@ ==> (res matches Err(
            Error::BadStatic(m),
        ) && m@ == "unknown field"@),
{
    proof {
        reveal_strlit("json");
        reveal_strlit("file");
        assert("json"@[0] != "file"@[0]);
    }
    match name {
        None => Err(Error::BadStatic(String::from_str("field is missing name"))),
        Some(n) => {
            if str_eq(n, "json") {
                Err(Error::Unimplemented)
            } else if str_eq(n, "file") {
                Ok(())
            } else {
                Err(Error::BadStatic(String::from_str("unknown field")))
            }
        },
    }
}

/// A direct upload needs a `file` field; its size is the declared size.
pub fn direct_upload_size(data_len: Option<usize>) -> (res: Result<u64, Error>)
    requires
        data_len matches Some(n) ==> n <= u64::MAX,
    ensures
        data_len matches Some(n) ==> res == Ok::<u64, Error>(n as u64),
        data_len is None ==> (res matches Err(Error::BadStatic(m)) && m@ == "no data"@),
{
    match data_len {
        Some(n) => Ok(n as u64),
        None => Err(Error::BadStatic(String::from_str("no data"))),
    }
}

/// Whose media a search covers.
#[derive(Clone, Copy, PartialEq, Eq, Structural, Debug)]
pub enum MediaSearchScope {
    /// All media.
    Everything,
    /// The media this user uploaded.
    UploadedBy(u128),
}

/// What a media search covers: admins search all media, everyone else only
/// their own.
pub fn media_search_scope(is_server_admin: bool, auth_id: u128) -> (res: MediaSearchScope)
    ensures
        is_server_admin ==> res == MediaSearchScope::Everything,
        !is_server_admin ==> res == MediaSearchScope::UploadedBy(auth_id),
{
    if is_server_admin {
        MediaSearchScope::Everything
    } else {
        MediaSearchScope::UploadedBy(auth_id)
    }
}

/// What an upload's progress says: complete exactly when all the declared
/// bytes were written, overflowed exactly when more were, and otherwise
/// partial at the written offset of the declared length.
pub proof fn law_upload_progress(current: u64, expected: u64)
    ensures
        spec_progress(current, expected) == UploadProgress::Complete <==> current == expected,
        spec_progress(current, expected) == UploadProgress::Overflowed <==> current > expected,
        current < expected ==> spec_progress(current, expected) == (UploadProgress::Partial {
            offset: current,
            length: expected,
        }),
{
}

} // verus!
