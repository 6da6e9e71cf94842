use drive_uploader::api::ApiType;
use drive_uploader::credentials::Credentials;
use drive_uploader::decimal::parse_u64;
use drive_uploader::decimal::u64_to_string;
use drive_uploader::onedrive::bearer_header;
use drive_uploader::onedrive::Onedrive;
use drive_uploader::paths::DrivePath;
use drive_uploader::session::content_range_value;

fn path(absolute: bool, segments: &[&str]) -> DrivePath {
    let mut p = DrivePath::new(absolute);
    for s in segments {
        assert!(p.push_segment(s.to_string()));
    }
    p
}

fn drive(api: ApiType) -> Onedrive {
    let snapshot = Credentials {
        access_token: "access".to_string(),
        refresh_token: "refresh".to_string(),
        expires_at: 10_000,
    };
    Onedrive::new(api, path(true, &["backup"]), snapshot).unwrap()
}

#[test]
fn endpoints_differ_only_for_the_china_cloud() {
    assert_eq!(
        ApiType::Common.get_auth_url(),
        "https://login.microsoftonline.com/common/oauth2/v2.0/authorize"
    );
    assert_eq!(
        ApiType::Consumers.get_token_url(),
        "https://login.microsoftonline.com/consumers/oauth2/v2.0/token"
    );
    assert_eq!(
        ApiType::Organizations.get_auth_url(),
        "https://login.microsoftonline.com/organizations/oauth2/v2.0/authorize"
    );
    assert_eq!(ApiType::Common.get_graph_url(), "https://graph.microsoft.com/v1.0");
    assert_eq!(
        ApiType::ChinaApi.get_graph_url(),
        "https://microsoftgraph.chinacloudapi.cn/v1.0"
    );
    assert_eq!(
        ApiType::ChinaApi.get_token_url(),
        "https://login.chinacloudapi.cn/common/oauth2/v2.0/token"
    );
}

#[test]
fn upload_urls_address_the_leaf_beneath_its_parent() {
    let d = drive(ApiType::Common);
    assert_eq!(
        d.direct_upload_url("ID123", "note.txt"),
        "https://graph.microsoft.com/v1.0/me/drive/items/ID123:/note.txt:/content"
    );
    assert_eq!(
        d.create_session_url("ID123", "movie.mkv"),
        "https://graph.microsoft.com/v1.0/me/drive/items/ID123:/movie.mkv:/createUploadSession"
    );
    assert_eq!(
        d.create_folder_url("ID123"),
        "https://graph.microsoft.com/v1.0/me/drive/items/ID123/children"
    );
}

#[test]
fn lookup_urls_take_the_root_or_the_path_form() {
    let d = drive(ApiType::Common);
    assert_eq!(
        d.lookup_url(&path(true, &[])),
        "https://graph.microsoft.com/v1.0/me/drive/root"
    );
    assert_eq!(
        d.lookup_url(&path(true, &["backup", "docs"])),
        "https://graph.microsoft.com/v1.0/me/drive/root://backup/docs/"
    );
}

#[test]
fn bearer_header_carries_the_token() {
    assert_eq!(bearer_header("tok-123"), "Bearer tok-123");
}

#[test]
fn content_range_names_start_end_and_total() {
    assert_eq!(content_range_value(0, 9, 10), "bytes 0-9/10");
    assert_eq!(
        content_range_value(10_485_760, 20_971_519, 26_214_400),
        "bytes 10485760-20971519/26214400"
    );
}

#[test]
fn decimal_rendering_and_parsing_agree() {
    assert_eq!(u64_to_string(0), "0");
    assert_eq!(u64_to_string(7), "7");
    assert_eq!(u64_to_string(10), "10");
    assert_eq!(u64_to_string(26_214_400), "26214400");
    assert_eq!(u64_to_string(u64::MAX), "18446744073709551615");

    assert_eq!(parse_u64("0"), Some(0));
    assert_eq!(parse_u64("26214400"), Some(26_214_400));
    assert_eq!(parse_u64("18446744073709551615"), Some(u64::MAX));
    assert_eq!(parse_u64("18446744073709551616"), None);
    assert_eq!(parse_u64(""), None);
    assert_eq!(parse_u64("12a"), None);
    assert_eq!(parse_u64(&u64_to_string(123_456_789)), Some(123_456_789));
}
