use drive_uploader::api::ApiType;
use drive_uploader::credentials::Credentials;
use drive_uploader::error::Error;
use drive_uploader::onedrive::Onedrive;
use drive_uploader::onedrive::UploadStart;
use drive_uploader::paths::DrivePath;
use drive_uploader::session::plan_upload;
use drive_uploader::session::UploadKind;
use drive_uploader::CHUNK_SIZE;
use drive_uploader::MAX_FILE_LIMIT;

fn path(absolute: bool, segments: &[&str]) -> DrivePath {
    let mut p = DrivePath::new(absolute);
    for s in segments {
        assert!(p.push_segment(s.to_string()));
    }
    p
}

fn snapshot() -> Credentials {
    Credentials {
        access_token: "access".to_string(),
        refresh_token: "refresh".to_string(),
        expires_at: 10_000,
    }
}

fn drive() -> Onedrive {
    Onedrive::new(ApiType::Common, path(true, &["backup"]), snapshot()).unwrap()
}

#[test]
fn oversized_upload_fails_without_any_request() {
    let r = drive().begin_upload(MAX_FILE_LIMIT + 1, &path(false, &["docs", "big.bin"]));
    match r {
        Err(Error::FileTooLarge { file, size }) => {
            assert_eq!(file, "docs/big.bin");
            assert_eq!(size, "250.00 GB");
        }
        other => panic!("expected FileTooLarge, got {:?}", other),
    }
}

#[test]
fn size_at_limit_is_accepted() {
    let r = drive().begin_upload(MAX_FILE_LIMIT, &path(false, &["big.bin"]));
    assert!(matches!(r, Ok(UploadStart::Chunked { .. })));
}

#[test]
fn small_upload_goes_direct() {
    let r = drive().begin_upload(CHUNK_SIZE - 1, &path(false, &["docs", "note.txt"]));
    match r {
        Ok(UploadStart::Direct { parent, file_name }) => {
            assert_eq!(parent.render(), "/backup/docs");
            assert_eq!(file_name, "note.txt");
        }
        other => panic!("expected a direct upload, got {:?}", other),
    }
}

#[test]
fn threshold_size_opens_a_session() {
    let r = drive().begin_upload(CHUNK_SIZE, &path(false, &["movie.mkv"]));
    match r {
        Ok(UploadStart::Chunked { parent, file_name }) => {
            assert_eq!(parent.render(), "/backup");
            assert_eq!(file_name, "movie.mkv");
        }
        other => panic!("expected a chunked upload, got {:?}", other),
    }
}

#[test]
fn absolute_destination_rejected_before_any_request() {
    let r = drive().begin_upload(100, &path(true, &["etc", "x.txt"]));
    assert!(matches!(r, Err(Error::InvalidPath { .. })));
}

#[test]
fn destination_without_leaf_rejected() {
    let bare = Onedrive::new(ApiType::Common, path(true, &[]), snapshot()).unwrap();
    let r = bare.begin_upload(100, &path(false, &[]));
    assert!(matches!(r, Err(Error::InvalidPath { .. })));
}

#[test]
fn relative_root_folder_is_refused() {
    let r = Onedrive::new(ApiType::Common, path(false, &["backup"]), snapshot());
    match r {
        Err(Error::InvalidPath { path }) => assert_eq!(path, "backup"),
        other => panic!("expected InvalidPath, got {:?}", other.map(|_| ())),
    }
}

#[test]
fn plan_upload_boundaries() {
    assert_eq!(plan_upload(0), UploadKind::Direct);
    assert_eq!(plan_upload(CHUNK_SIZE - 1), UploadKind::Direct);
    assert_eq!(plan_upload(CHUNK_SIZE), UploadKind::Chunked);
    assert_eq!(plan_upload(MAX_FILE_LIMIT), UploadKind::Chunked);
    assert_eq!(plan_upload(MAX_FILE_LIMIT + 1), UploadKind::TooLarge);
    assert_eq!(plan_upload(u64::MAX), UploadKind::TooLarge);
}
