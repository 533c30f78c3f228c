use lamprey_backend::error::{Error, ErrorCode, Rejection};
use lamprey_backend::media::{
    check_headers, chunk_gate, create_size_gate, delete_step, direct_field, direct_upload_size,
    done_decision, get_gate, header_u64, may_delete_stored, parse_u64, patch_gate,
    upload_chunk_decision, upload_progress, DeleteStep, DoneStep, IntFault, UploadProgress,
    UploadState,
};

fn upload(user_id: u128, current: u64, expected: u64) -> UploadState {
    UploadState { user_id, current_size: current, expected_size: expected }
}

#[test]
fn declared_sizes_against_the_limit() {
    assert!(create_size_gate(None, 100).is_ok());
    assert!(create_size_gate(Some(100), 100).is_ok());
    assert!(matches!(create_size_gate(Some(101), 100), Err(Error::TooBig)));
}

#[test]
fn decimal_parsing_follows_std() {
    for text in ["0", "42", "+42", "007", "18446744073709551615", "", "+", "-", "-1", "1a", " 1", "18446744073709551616", "99999999999999999999x", "4x2"] {
        let ours = parse_u64(text);
        let std = text.parse::<u64>();
        match (ours, std) {
            (Ok(a), Ok(b)) => assert_eq!(a, b, "{text:?}"),
            (Err(f), Err(e)) => {
                let kind = match f {
                    IntFault::Empty => "cannot parse integer from empty string",
                    IntFault::InvalidDigit => "invalid digit found in string",
                    IntFault::PosOverflow => "number too large to fit in target type",
                };
                assert_eq!(kind, e.to_string(), "{text:?}");
            }
            (a, b) => panic!("{text:?}: {a:?} against {b:?}"),
        }
    }
}

#[test]
fn decimal_parsing_exact_values() {
    assert_eq!(parse_u64("1234"), Ok(1234));
    assert_eq!(parse_u64("+0"), Ok(0));
    assert_eq!(parse_u64(""), Err(IntFault::Empty));
    assert_eq!(parse_u64("+"), Err(IntFault::InvalidDigit));
    assert_eq!(parse_u64("18446744073709551616"), Err(IntFault::PosOverflow));
    assert_eq!(parse_u64("99999999999999999999x"), Err(IntFault::PosOverflow));
}

#[test]
fn upload_headers() {
    assert!(matches!(header_u64(Some("512")), Ok(512)));
    assert!(matches!(header_u64(None), Err(Error::BadHeader)));
    match header_u64(Some("12k")) {
        Err(Error::ParseInt(m)) => assert_eq!(m, "invalid digit found in string"),
        _ => panic!("expected a parse error"),
    }
}

#[test]
fn progress_of_an_upload() {
    assert_eq!(upload_progress(10, 10), UploadProgress::Complete);
    assert_eq!(upload_progress(11, 10), UploadProgress::Overflowed);
    assert_eq!(upload_progress(4, 10), UploadProgress::Partial { offset: 4, length: 10 });
}

#[test]
fn chunk_checks() {
    assert!(chunk_gate(1, 1, 4, 4, 6, 10).is_ok());
    assert!(matches!(chunk_gate(1, 2, 4, 4, 6, 10), Err(Error::NotFound)));
    assert!(matches!(chunk_gate(1, 1, 4, 3, 6, 10), Err(Error::CantOverwrite)));
    assert!(matches!(chunk_gate(1, 1, 4, 4, 7, 10), Err(Error::TooBig)));
    assert!(matches!(chunk_gate(1, 1, 4, 4, u64::MAX, 10), Err(Error::TooBig)));
}

#[test]
fn an_accepted_chunk_fits_the_declared_size() {
    // A piece that passes chunk_gate, once stored, never overflows the upload,
    // and it completes the upload exactly when it reaches the declared size.
    for (file_size, part, expected) in [(0u64, 10u64, 10u64), (4, 3, 10), (9, 1, 10), (0, 0, 0)] {
        assert!(chunk_gate(7, 7, file_size, file_size, part, expected).is_ok());
        let after = upload_progress(file_size + part, expected);
        assert_ne!(after, UploadProgress::Overflowed);
        assert_eq!(after == UploadProgress::Complete, file_size + part == expected);
    }
}

#[test]
fn whole_chunk_decision() {
    let up = Some(upload(5, 4, 10));
    assert!(matches!(upload_chunk_decision(up, 5, 4, Some("4"), Some("6")), Ok(6)));
    assert!(matches!(
        upload_chunk_decision(None, 5, 4, Some("4"), Some("6")),
        Err(Rejection::Api(ErrorCode::UnknownMedia))
    ));
    assert!(matches!(
        upload_chunk_decision(up, 6, 4, Some("4"), Some("6")),
        Err(Rejection::Server(Error::NotFound))
    ));
    assert!(matches!(
        upload_chunk_decision(up, 5, 4, None, Some("6")),
        Err(Rejection::Server(Error::BadHeader))
    ));
    assert!(matches!(
        upload_chunk_decision(up, 5, 4, Some("4"), None),
        Err(Rejection::Server(Error::BadHeader))
    ));
    assert!(matches!(
        upload_chunk_decision(up, 5, 4, Some("four"), Some("6")),
        Err(Rejection::Server(Error::ParseInt(_)))
    ));
    assert!(matches!(
        upload_chunk_decision(up, 5, 4, Some("3"), Some("6")),
        Err(Rejection::Server(Error::CantOverwrite))
    ));
    assert!(matches!(
        upload_chunk_decision(up, 5, 4, Some("4"), Some("7")),
        Err(Rejection::Server(Error::TooBig))
    ));
}

#[test]
fn finishing_an_upload() {
    assert!(matches!(
        done_decision(None, 1, false),
        Err(Rejection::Api(ErrorCode::UnknownMedia))
    ));
    assert!(matches!(
        done_decision(Some(upload(1, 10, 10)), 2, false),
        Err(Rejection::Server(Error::NotFound))
    ));
    assert!(matches!(
        done_decision(Some(upload(1, 11, 10)), 1, false),
        Err(Rejection::Server(Error::TooBig))
    ));
    assert!(matches!(done_decision(Some(upload(1, 10, 10)), 1, false), Ok(DoneStep::ProcessNow)));
    assert!(matches!(done_decision(Some(upload(1, 10, 10)), 1, true), Ok(DoneStep::ProcessLater)));
    assert!(matches!(
        done_decision(Some(upload(1, 3, 10)), 1, true),
        Ok(DoneStep::Incomplete { offset: 3, length: 10 })
    ));
}

#[test]
fn stored_media_access() {
    assert!(matches!(patch_gate(true, Some(1), 1), Err(Rejection::Api(ErrorCode::UnknownMedia))));
    assert!(matches!(
        patch_gate(false, Some(2), 1),
        Err(Rejection::Server(Error::MissingPermissions))
    ));
    assert!(matches!(
        patch_gate(false, None, 1),
        Err(Rejection::Server(Error::MissingPermissions))
    ));
    assert!(patch_gate(false, Some(1), 1).is_ok());
    assert!(get_gate(false, false).is_ok());
    assert!(get_gate(true, true).is_ok());
    assert!(matches!(get_gate(true, false), Err(Rejection::Api(ErrorCode::UnknownMedia))));
}

#[test]
fn resume_headers() {
    assert!(matches!(check_headers(Some(upload(1, 3, 9)), 1), Ok((3, 9))));
    assert!(matches!(
        check_headers(Some(upload(1, 3, 9)), 2),
        Err(Rejection::Api(ErrorCode::UnknownMedia))
    ));
    assert!(matches!(check_headers(None, 2), Err(Rejection::Api(ErrorCode::UnknownMedia))));
}

#[test]
fn deleting_media() {
    assert_eq!(delete_step(Some(1), 1), DeleteStep::DropUpload);
    assert_eq!(delete_step(Some(1), 2), DeleteStep::KeepUpload);
    assert_eq!(delete_step(None, 2), DeleteStep::CheckLinks);
    assert!(may_delete_stored(0));
    assert!(!may_delete_stored(1));
}

#[test]
fn direct_upload_fields() {
    assert!(direct_field(Some("file")).is_ok());
    assert!(matches!(direct_field(Some("json")), Err(Error::Unimplemented)));
    match direct_field(Some("other")) {
        Err(Error::BadStatic(m)) => assert_eq!(m, "unknown field"),
        _ => panic!("expected an unknown field"),
    }
    match direct_field(None) {
        Err(Error::BadStatic(m)) => assert_eq!(m, "field is missing name"),
        _ => panic!("expected a missing name"),
    }
    assert!(matches!(direct_upload_size(Some(12)), Ok(12)));
    match direct_upload_size(None) {
        Err(Error::BadStatic(m)) => assert_eq!(m, "no data"),
        _ => panic!("expected no data"),
    }
}
