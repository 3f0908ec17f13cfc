use dsek_link::discord::{
    build_metadata_update, plan_publish, prepare_publish, AuthMethod, DiscordOAuthCredentials,
    PublishPlan,
};
use dsek_link::dsek::{decode_id_token_payload, extract_payload_segment};
use dsek_link::error::LinkError;
use dsek_link::oauth::{bearer_header, build_authorization_url, OAuthConfig};
use dsek_link::storage::Store;

fn config() -> OAuthConfig {
    OAuthConfig {
        client_id: "cid".to_string(),
        client_secret: "sec".to_string(),
        redirect_uri: "https://app.example/cb".to_string(),
    }
}

#[test]
fn authorization_url_is_exact() {
    let url = build_authorization_url("https://h.example/auth", "cid", "https://r", "st", "sc");
    assert_eq!(
        url,
        "https://h.example/auth?client_id=cid&redirect_uri=https://r&response_type=code&state=st&scope=sc&prompt=consent"
    );
}

#[test]
fn bearer_header_is_exact() {
    assert_eq!(bearer_header("tok"), "Bearer tok");
}

#[test]
fn code_exchange_form_lists_the_exact_fields() {
    let form = dsek_link::discord::token_request_form(AuthMethod::Code("c1".to_string()), &config());
    let expected = vec![
        ("grant_type".to_string(), "authorization_code".to_string()),
        ("code".to_string(), "c1".to_string()),
        ("redirect_uri".to_string(), "https://app.example/cb".to_string()),
        ("client_id".to_string(), "cid".to_string()),
        ("client_secret".to_string(), "sec".to_string()),
    ];
    assert_eq!(form, expected);
}

#[test]
fn refresh_form_carries_the_stored_refresh_token() {
    let cred = DiscordOAuthCredentials {
        access_token: "at".to_string(),
        expires_at: 0,
        refresh_token: "rt".to_string(),
    };
    let form = dsek_link::discord::token_request_form(AuthMethod::Refresh(cred), &config());
    let expected = vec![
        ("grant_type".to_string(), "refresh_token".to_string()),
        ("refresh_token".to_string(), "rt".to_string()),
        ("client_id".to_string(), "cid".to_string()),
        ("client_secret".to_string(), "sec".to_string()),
    ];
    assert_eq!(form, expected);
}

#[test]
fn dsek_form_lists_the_exact_fields() {
    let form = dsek_link::dsek::token_request_form("c2".to_string(), &config());
    let expected = vec![
        ("grant_type".to_string(), "authorization_code".to_string()),
        ("code".to_string(), "c2".to_string()),
        ("redirect_uri".to_string(), "https://app.example/cb".to_string()),
        ("client_id".to_string(), "cid".to_string()),
        ("client_secret".to_string(), "sec".to_string()),
    ];
    assert_eq!(form, expected);
}

#[test]
fn token_response_expiry_is_issue_time_plus_lifetime() {
    let c = DiscordOAuthCredentials::from_token_response(
        "at".to_string(),
        "rt".to_string(),
        604800,
        1700000000,
    )
    .unwrap();
    assert_eq!(c.access_token, "at");
    assert_eq!(c.refresh_token, "rt");
    assert_eq!(c.expires_at, 1700604800);
}

#[test]
fn token_response_with_overflowing_lifetime_is_malformed() {
    let r = DiscordOAuthCredentials::from_token_response(
        "at".to_string(),
        "rt".to_string(),
        i64::MAX,
        2,
    );
    assert_eq!(r.unwrap_err(), LinkError::MalformedResponseError);
}

#[test]
fn credential_expiry_boundary() {
    let c = DiscordOAuthCredentials {
        access_token: "at".to_string(),
        expires_at: 100,
        refresh_token: "rt".to_string(),
    };
    assert!(c.is_expired(100));
    assert!(c.is_expired(101));
    assert!(!c.is_expired(99));
}

#[test]
fn expired_credential_is_planned_for_refresh() {
    let c = DiscordOAuthCredentials {
        access_token: "at".to_string(),
        expires_at: 99,
        refresh_token: "rt".to_string(),
    };
    match plan_publish(c, 100) {
        PublishPlan::RefreshFirst(inner) => assert_eq!(inner.refresh_token, "rt"),
        PublishPlan::UseCurrent(_) => panic!("an expired credential must be refreshed"),
    }
}

#[test]
fn fresh_credential_is_used_without_refresh() {
    let c = DiscordOAuthCredentials {
        access_token: "at".to_string(),
        expires_at: 101,
        refresh_token: "rt".to_string(),
    };
    match plan_publish(c, 100) {
        PublishPlan::UseCurrent(inner) => assert_eq!(inner.access_token, "at"),
        PublishPlan::RefreshFirst(_) => panic!("an unexpired credential must be used as-is"),
    }
}

#[test]
fn metadata_update_uses_the_dsek_handle() {
    let m = build_metadata_update("U1");
    assert_eq!(m.platform_name, "D-sektionen inom TLTH");
    assert_eq!(m.platform_username, "U1");
    assert!(m.metadata.dsek_member);
}

// A credential stored with an expiry one second in the past is planned for
// exactly one refresh before the metadata record is sent; the record carries
// the linked handle, not the Discord id.
#[test]
fn publish_refreshes_a_just_expired_credential_once() {
    let now: i64 = 1700000000;
    let mut store = Store::new();
    store.store_discord_token(
        "D1",
        DiscordOAuthCredentials {
            access_token: "at".to_string(),
            expires_at: now - 1,
            refresh_token: "rt".to_string(),
        },
    );
    store.connect_users("D1", "U1");

    let (plan, payload) = prepare_publish(&store, "D1", now).unwrap();
    match plan {
        PublishPlan::RefreshFirst(c) => assert_eq!(c.refresh_token, "rt"),
        PublishPlan::UseCurrent(_) => panic!("a stale credential must be refreshed first"),
    }
    assert_eq!(payload.platform_username, "U1");
}

#[test]
fn publish_uses_a_fresh_credential_as_is() {
    let now: i64 = 1700000000;
    let mut store = Store::new();
    store.store_discord_token(
        "D1",
        DiscordOAuthCredentials {
            access_token: "at".to_string(),
            expires_at: now + 3600,
            refresh_token: "rt".to_string(),
        },
    );
    store.connect_users("D1", "U1");

    let (plan, _) = prepare_publish(&store, "D1", now).unwrap();
    match plan {
        PublishPlan::UseCurrent(c) => assert_eq!(c.access_token, "at"),
        PublishPlan::RefreshFirst(_) => panic!("an unexpired credential must not be refreshed"),
    }
}

#[test]
fn publish_for_unknown_user_reports_not_found() {
    let store = Store::new();
    assert_eq!(prepare_publish(&store, "D1", 0).unwrap_err(), LinkError::NotFoundError);
}

#[test]
fn publish_without_a_link_reports_not_found() {
    let mut store = Store::new();
    store.store_discord_token(
        "D1",
        DiscordOAuthCredentials {
            access_token: "at".to_string(),
            expires_at: 10,
            refresh_token: "rt".to_string(),
        },
    );
    assert_eq!(prepare_publish(&store, "D1", 0).unwrap_err(), LinkError::NotFoundError);
}

#[test]
fn payload_segment_sits_between_the_dots() {
    assert_eq!(extract_payload_segment(b"head.payload.sig").unwrap(), b"payload".to_vec());
}

#[test]
fn payload_segment_runs_to_the_end_without_a_second_dot() {
    assert_eq!(extract_payload_segment(b"head.payload").unwrap(), b"payload".to_vec());
}

#[test]
fn token_without_dots_is_malformed() {
    assert_eq!(
        extract_payload_segment(b"nodotsatall").unwrap_err(),
        LinkError::MalformedResponseError
    );
}

#[test]
fn id_token_payload_decodes_through_base64() {
    // "eyJhIjoxfQ" is the unpadded standard-alphabet encoding of {"a":1}.
    let r = decode_id_token_payload(b"head.eyJhIjoxfQ.sig").unwrap();
    assert_eq!(r, "{\"a\":1}");
}

#[test]
fn id_token_payload_with_padding_is_rejected_by_the_no_pad_engine() {
    let r = decode_id_token_payload(b"head.eyJhIjoxfQ==.sig");
    assert_eq!(r.unwrap_err(), LinkError::MalformedResponseError);
}

#[test]
fn id_token_payload_that_is_not_utf8_is_malformed() {
    // "/w" decodes to the single byte 0xFF, which is not valid UTF-8.
    let r = decode_id_token_payload(b"head./w.sig");
    assert_eq!(r.unwrap_err(), LinkError::MalformedResponseError);
}
