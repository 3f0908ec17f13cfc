use dsek_link::discord::{DiscordOAuthCredentials, DiscordUserData};
use dsek_link::dsek::DsekUserData;
use dsek_link::error::LinkError;
use dsek_link::session::PendingLinkSession;
use dsek_link::storage::Store;

fn cred(n: i64) -> DiscordOAuthCredentials {
    DiscordOAuthCredentials {
        access_token: format!("access{}", n),
        expires_at: n,
        refresh_token: format!("refresh{}", n),
    }
}

#[test]
fn empty_store_has_nothing() {
    let store = Store::new();
    assert_eq!(store.get_token("D1").unwrap_err(), LinkError::NotFoundError);
    assert_eq!(store.fetch_discord_username("D1").unwrap_err(), LinkError::NotFoundError);
    assert_eq!(store.fetch_dsek_username("D1").unwrap_err(), LinkError::NotFoundError);
}

#[test]
fn token_round_trip() {
    let mut store = Store::new();
    store.store_discord_token("D1", cred(7));
    let got = store.get_token("D1").unwrap();
    assert_eq!(got.access_token, "access7");
    assert_eq!(got.refresh_token, "refresh7");
    assert_eq!(got.expires_at, 7);
}

#[test]
fn token_upsert_replaces_the_whole_credential() {
    let mut store = Store::new();
    store.store_discord_token("D1", cred(1));
    store.store_discord_token("D1", cred(2));
    let got = store.get_token("D1").unwrap();
    assert_eq!(got.access_token, "access2");
    assert_eq!(got.refresh_token, "refresh2");
    assert_eq!(got.expires_at, 2);
}

#[test]
fn tokens_are_kept_per_user() {
    let mut store = Store::new();
    store.store_discord_token("D1", cred(1));
    store.store_discord_token("D2", cred(2));
    assert_eq!(store.get_token("D1").unwrap().expires_at, 1);
    assert_eq!(store.get_token("D2").unwrap().expires_at, 2);
}

#[test]
fn discord_user_round_trip_and_upsert() {
    let mut store = Store::new();
    store.store_discord_user(&DiscordUserData {
        user_id: "D1".to_string(),
        username: "first".to_string(),
    });
    assert_eq!(store.fetch_discord_username("D1").unwrap(), "first");
    store.store_discord_user(&DiscordUserData {
        user_id: "D1".to_string(),
        username: "second".to_string(),
    });
    assert_eq!(store.fetch_discord_username("D1").unwrap(), "second");
}

#[test]
fn dsek_user_upsert_is_accepted() {
    let mut store = Store::new();
    store.store_dsek_user(&DsekUserData {
        name: "User One".to_string(),
        groups: vec!["members".to_string()],
        stil_id: "U1".to_string(),
    });
    store.store_dsek_user(&DsekUserData {
        name: "User One Renamed".to_string(),
        groups: vec![],
        stil_id: "U1".to_string(),
    });
}

#[test]
fn linking_twice_keeps_only_the_last_handle() {
    let mut store = Store::new();
    store.connect_users("D1", "U1");
    assert_eq!(store.fetch_dsek_username("D1").unwrap(), "U1");
    store.connect_users("D1", "U2");
    assert_eq!(store.fetch_dsek_username("D1").unwrap(), "U2");
}

#[test]
fn links_are_kept_per_discord_user() {
    let mut store = Store::new();
    store.connect_users("D1", "U1");
    store.connect_users("D2", "U2");
    assert_eq!(store.fetch_dsek_username("D1").unwrap(), "U1");
    assert_eq!(store.fetch_dsek_username("D2").unwrap(), "U2");
}

#[test]
fn duplicate_copies_every_field() {
    let c = cred(5);
    let d = c.duplicate();
    assert_eq!(d.access_token, c.access_token);
    assert_eq!(d.refresh_token, c.refresh_token);
    assert_eq!(d.expires_at, c.expires_at);
}

#[test]
fn new_session_is_empty() {
    let s = PendingLinkSession::new();
    assert!(s.discord_uuid_state.is_none());
    assert!(s.dsek_uuid_state.is_none());
    assert!(s.discord_user_id.is_none());
}

#[test]
fn error_descriptions_are_stable() {
    assert_eq!(
        LinkError::Forbidden.describe(),
        "OAuth state not same as cached state.\nWho are you...?"
    );
    assert_eq!(LinkError::UpstreamError.describe(), "A provider call failed.");
    assert_eq!(
        LinkError::MalformedResponseError.describe(),
        "A provider response could not be decoded."
    );
    assert_eq!(LinkError::NotFoundError.describe(), "A required record was not found.");
    assert_eq!(LinkError::SessionError.describe(), "The session state is inconsistent.");
}
