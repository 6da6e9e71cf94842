use drive_uploader::credentials::apply_refresh;
use drive_uploader::credentials::calu_expires_at;
use drive_uploader::credentials::check_csrf_state;
use drive_uploader::credentials::install_refresh_outcome;
use drive_uploader::credentials::now_timestamp;
use drive_uploader::credentials::Credentials;
use drive_uploader::credentials::TokenCell;
use drive_uploader::credentials::TokenGrant;
use drive_uploader::error::Error;

fn snapshot(tag: &str, expires_at: u64) -> Credentials {
    Credentials {
        access_token: format!("access-{}", tag),
        refresh_token: format!("refresh-{}", tag),
        expires_at,
    }
}

fn grant(tag: &str, expires_in: u64) -> TokenGrant {
    TokenGrant {
        access_token: format!("access-{}", tag),
        refresh_token: format!("refresh-{}", tag),
        expires_in,
    }
}

#[test]
fn token_cell_returns_what_was_stored() {
    let cell = TokenCell::new(snapshot("old", 1_000));
    let seen = cell.load();
    assert_eq!(seen.access_token, "access-old");
    assert_eq!(seen.refresh_token, "refresh-old");
    assert_eq!(seen.expires_at, 1_000);

    cell.store(snapshot("new", 2_000));
    let seen = cell.load();
    assert_eq!(seen.access_token, "access-new");
    assert_eq!(seen.refresh_token, "refresh-new");
    assert_eq!(seen.expires_at, 2_000);
}

#[test]
fn snapshot_is_replaced_whole_or_not_at_all() {
    let old = snapshot("old", 1_000);

    let refreshed = apply_refresh(&old, &Ok(grant("new", 3_600)), 5_000);
    assert_eq!(refreshed.access_token, "access-new");
    assert_eq!(refreshed.refresh_token, "refresh-new");
    assert_eq!(refreshed.expires_at, 8_600);

    let kept = apply_refresh(&old, &Err("endpoint unreachable".to_string()), 5_000);
    assert_eq!(kept.access_token, "access-old");
    assert_eq!(kept.refresh_token, "refresh-old");
    assert_eq!(kept.expires_at, 1_000);
}

#[test]
fn failed_refresh_keeps_the_previous_snapshot_serving() {
    let cell = TokenCell::new(snapshot("old", 1_000));
    let r = install_refresh_outcome(&cell, Err("rejected".to_string()), 5_000);
    match r {
        Err(Error::RefreshToken { message }) => assert_eq!(message, "rejected"),
        other => panic!("expected RefreshToken, got {:?}", other),
    }
    let seen = cell.load();
    assert_eq!(seen.access_token, "access-old");
    assert_eq!(seen.refresh_token, "refresh-old");
}

#[test]
fn successful_refresh_installs_the_new_pair() {
    let cell = TokenCell::new(snapshot("old", 1_000));
    install_refresh_outcome(&cell, Ok(grant("new", 3_600)), 5_000).unwrap();
    let seen = cell.load();
    assert_eq!(seen.access_token, "access-new");
    assert_eq!(seen.refresh_token, "refresh-new");
    assert_eq!(seen.expires_at, 8_600);
}

#[test]
fn refresh_is_due_only_inside_the_margin() {
    let snap = snapshot("x", 1_000);
    assert!(!snap.needs_refresh(879));
    assert!(!snap.needs_refresh(880));
    assert!(snap.needs_refresh(881));
    assert!(snap.needs_refresh(5_000));
}

#[test]
fn expiry_time_is_the_grant_time_plus_its_life() {
    assert_eq!(calu_expires_at(100, 50), 150);
    assert_eq!(calu_expires_at(0, 0), 0);
}

#[test]
fn csrf_state_must_match_exactly() {
    assert!(check_csrf_state(&"abc".to_string(), &"abc".to_string()).is_ok());
    match check_csrf_state(&"abc".to_string(), &"abd".to_string()) {
        Err(Error::CsrfToken) => {}
        other => panic!("expected CsrfToken, got {:?}", other),
    }
}

#[test]
fn the_clock_reads_as_a_recent_time() {
    // Seconds since the epoch: anything after mid-2020 is plausible here.
    assert!(now_timestamp() > 1_600_000_000);
}
