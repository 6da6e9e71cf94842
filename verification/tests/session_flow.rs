use drive_uploader::error::Error;
use drive_uploader::session::apply_chunk_response;
use drive_uploader::session::classify_chunk_status;
use drive_uploader::session::finish_direct_upload;
use drive_uploader::session::next_chunk;
use drive_uploader::session::open_session;
use drive_uploader::session::parse_range;
use drive_uploader::session::ChunkOutcome;
use drive_uploader::session::ChunkStatusClass;
use drive_uploader::session::SessionGrant;
use drive_uploader::session::SessionProgress;
use drive_uploader::session::SessionRequestOutcome;
use drive_uploader::session::SessionState;
use drive_uploader::CHUNK_SIZE;

const SIZE: u64 = 25 * 1024 * 1024;

fn grant(expiration: u64) -> SessionGrant {
    SessionGrant { upload_url: "https://upload.example/session".to_string(), expiration }
}

fn live_session() -> SessionState {
    open_session(SessionRequestOutcome::Granted(grant(1_000)), SIZE, 100).unwrap()
}

#[test]
fn expired_grant_is_refused_before_any_chunk() {
    let r = open_session(SessionRequestOutcome::Granted(grant(50)), SIZE, 100);
    match r {
        Err(Error::UploadFileSession { message }) => assert_eq!(message, "Upload session expired"),
        other => panic!("expected a session-expired error, got {:?}", other),
    }
}

#[test]
fn failed_session_request_is_surfaced() {
    let r = open_session(
        SessionRequestOutcome::Failed { message: "boom".to_string() },
        SIZE,
        100,
    );
    match r {
        Err(Error::CreateUploadSessionRequest { message }) => assert_eq!(message, "boom"),
        other => panic!("expected a session-request error, got {:?}", other),
    }
}

#[test]
fn first_chunk_covers_the_first_window() {
    let s = live_session();
    let plan = next_chunk(&s, 200).unwrap();
    assert_eq!(plan.start, 0);
    assert_eq!(plan.length, CHUNK_SIZE);
    assert_eq!(plan.content_range, "bytes 0-10485759/26214400");
}

#[test]
fn server_report_redirects_the_next_chunk() {
    let s = live_session();
    let outcome = ChunkOutcome::Accepted {
        next_expected_ranges: vec!["5242880-".to_string()],
        expiration: 2_000,
    };
    match apply_chunk_response(&s, &outcome).unwrap() {
        SessionProgress::Continue(next) => {
            assert_eq!(next.cursor, 5_242_880);
            assert_eq!(next.expiration, 2_000);
            let plan = next_chunk(&next, 200).unwrap();
            assert_eq!(plan.start, 5_242_880);
            assert!(plan.content_range.starts_with("bytes 5242880-"));
            assert_eq!(plan.content_range, "bytes 5242880-15728639/26214400");
        }
        SessionProgress::Done => panic!("the transfer is not complete yet"),
    }
}

#[test]
fn bounded_range_report_is_honoured_too() {
    let s = live_session();
    let outcome = ChunkOutcome::Accepted {
        next_expected_ranges: vec!["10485760-26214399".to_string()],
        expiration: 2_000,
    };
    match apply_chunk_response(&s, &outcome).unwrap() {
        SessionProgress::Continue(next) => assert_eq!(next.cursor, 10_485_760),
        SessionProgress::Done => panic!("the transfer is not complete yet"),
    }
}

#[test]
fn final_chunk_is_shorter() {
    let s = live_session();
    let outcome = ChunkOutcome::Accepted {
        next_expected_ranges: vec!["20971520-".to_string()],
        expiration: 2_000,
    };
    match apply_chunk_response(&s, &outcome).unwrap() {
        SessionProgress::Continue(next) => {
            let plan = next_chunk(&next, 200).unwrap();
            assert_eq!(plan.start, 20_971_520);
            assert_eq!(plan.length, SIZE - 20_971_520);
            assert_eq!(plan.content_range, "bytes 20971520-26214399/26214400");
        }
        SessionProgress::Done => panic!("the transfer is not complete yet"),
    }
}

#[test]
fn empty_outstanding_ranges_finish_the_session() {
    let s = live_session();
    let outcome = ChunkOutcome::Accepted { next_expected_ranges: vec![], expiration: 2_000 };
    assert!(matches!(
        apply_chunk_response(&s, &outcome).unwrap(),
        SessionProgress::Done
    ));
}

#[test]
fn completion_status_finishes_the_session() {
    let s = live_session();
    assert!(matches!(
        apply_chunk_response(&s, &ChunkOutcome::Completed).unwrap(),
        SessionProgress::Done
    ));
}

#[test]
fn expired_session_sends_no_further_chunk() {
    let mut s = live_session();
    s.expiration = 150;
    let r = next_chunk(&s, 151);
    match r {
        Err(Error::UploadFileSession { message }) => assert_eq!(message, "Upload session expired"),
        other => panic!("expected a session-expired error, got {:?}", other),
    }
    assert!(next_chunk(&s, 150).is_ok());
}

#[test]
fn transport_failure_aborts_the_session() {
    let s = live_session();
    let outcome = ChunkOutcome::Failed { message: "connection reset".to_string() };
    match apply_chunk_response(&s, &outcome) {
        Err(Error::UploadFileSessionRequest { message }) => {
            assert_eq!(message, "connection reset")
        }
        other => panic!("expected a chunk-request error, got {:?}", other),
    }
}

#[test]
fn malformed_range_report_is_a_parse_error() {
    let s = live_session();
    let outcome = ChunkOutcome::Accepted {
        next_expected_ranges: vec!["garbage".to_string()],
        expiration: 2_000,
    };
    match apply_chunk_response(&s, &outcome) {
        Err(Error::Parsing { context }) => assert_eq!(context, "garbage"),
        other => panic!("expected a parse error, got {:?}", other),
    }
}

#[test]
fn range_past_the_payload_is_a_parse_error() {
    let s = live_session();
    let outcome = ChunkOutcome::Accepted {
        next_expected_ranges: vec!["26214400-".to_string()],
        expiration: 2_000,
    };
    assert!(matches!(
        apply_chunk_response(&s, &outcome),
        Err(Error::Parsing { .. })
    ));
}

#[test]
fn range_reports_parse_exactly() {
    let r = parse_range("100-200").unwrap();
    assert_eq!(r.start, 100);
    assert_eq!(r.end, Some(200));

    let r = parse_range("26214400-").unwrap();
    assert_eq!(r.start, 26_214_400);
    assert_eq!(r.end, None);

    let r = parse_range("18446744073709551615-").unwrap();
    assert_eq!(r.start, u64::MAX);

    assert!(parse_range("").is_none());
    assert!(parse_range("-5").is_none());
    assert!(parse_range("100").is_none());
    assert!(parse_range("abc-5").is_none());
    assert!(parse_range("5-abc").is_none());
    assert!(parse_range("1-2-3").is_none());
    assert!(parse_range("18446744073709551616-").is_none());
}

#[test]
fn chunk_statuses_classify_as_the_protocol_says() {
    assert_eq!(classify_chunk_status(202), ChunkStatusClass::NeedsBody);
    assert_eq!(classify_chunk_status(200), ChunkStatusClass::Complete);
    assert_eq!(classify_chunk_status(201), ChunkStatusClass::Complete);
    assert_eq!(classify_chunk_status(404), ChunkStatusClass::Unexpected);
    assert_eq!(classify_chunk_status(500), ChunkStatusClass::Unexpected);
}

#[test]
fn direct_upload_succeeds_only_on_ok_or_created() {
    assert!(finish_direct_upload(200, String::new()).is_ok());
    assert!(finish_direct_upload(201, String::new()).is_ok());
    match finish_direct_upload(409, "conflict".to_string()) {
        Err(Error::UploadFile { message }) => assert_eq!(message, "conflict"),
        other => panic!("expected an upload error, got {:?}", other),
    }
}
