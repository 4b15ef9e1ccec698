use base64::Engine;
use cursor_server::account::{
    account_task, auth_keys, injection_step, is_known_synthetic_token, local_token, removal_step,
    state_db_location, AccountError, AccountTask, BaseDirectory, InjectionAction, InjectionEvent,
    RemovalAction, RemovalEvent, TabMode,
};

const EMAIL: &str = "cursor@ai.com";
const AUTH_KEYS: [&str; 6] = [
    "cursorAuth/accessToken",
    "cursorAuth/refreshToken",
    "cursorAuth/cachedEmail",
    "cursorAuth/cachedSignUpType",
    "cursorAuth/stripeMembershipType",
    "cursorAuth/stripeSubscriptionStatus",
];

fn injected_values() -> Vec<(String, String)> {
    match injection_step(InjectionEvent::AccessTokenRead(None)) {
        InjectionAction::WriteValues(values) => values,
        other => panic!("expected values to write, got {other:?}"),
    }
}

#[test]
fn modes_map_to_account_tasks() {
    assert_eq!(account_task(TabMode::Direct), AccountTask::RemoveLegacySyntheticAccount);
    assert_eq!(account_task(TabMode::Public), AccountTask::InjectIfMissing);
    assert_eq!(account_task(TabMode::Custom), AccountTask::InjectIfMissing);
}

#[test]
fn missing_account_gets_the_local_account() {
    let values = injected_values();
    let keys: Vec<&str> = values.iter().map(|(k, _)| k.as_str()).collect();
    assert_eq!(keys, AUTH_KEYS.to_vec());
    let token = &values[0].1;
    assert_eq!(values[1].1, *token);
    assert_eq!(values[2].1, EMAIL);
    assert_eq!(values[3].1, "Google");
    assert_eq!(values[4].1, "ultra");
    assert_eq!(values[5].1, "active");
    let payload = token.split('.').nth(1).unwrap();
    let payload: serde_json::Value = serde_json::from_slice(
        &base64::engine::general_purpose::URL_SAFE_NO_PAD.decode(payload).unwrap(),
    )
    .unwrap();
    assert_eq!(payload["sub"], "cursor-local-user");
    assert_eq!(payload["email"], EMAIL);
    assert_eq!(payload["exp"], 4070908800_u64);
    assert_eq!(payload["iss"], "cursor-client");
    assert_eq!(payload["type"], "session");
    assert_eq!(payload["scope"], "openid profile email");
}

#[test]
fn existing_account_is_left_alone() {
    assert!(matches!(
        injection_step(InjectionEvent::AccessTokenRead(Some("existing-token".into()))),
        InjectionAction::Finish { injected: false }
    ));
    assert!(matches!(
        injection_step(InjectionEvent::AccessTokenRead(Some(" \t\n".into()))),
        InjectionAction::WriteValues(_)
    ));
    assert!(matches!(
        injection_step(InjectionEvent::ValuesWritten),
        InjectionAction::Finish { injected: true }
    ));
}

#[test]
fn local_token_has_three_parts_and_is_recognised() {
    let token = local_token();
    let parts: Vec<&str> = token.split('.').collect();
    assert_eq!(parts.len(), 3);
    assert_eq!(parts[0], "eyJhbGciOiJIUzI1NiIsInR5cCI6IkpXVCJ9");
    assert_eq!(parts[2], "cursor-local-user");
    assert!(is_known_synthetic_token(&token));
}

#[test]
fn other_tokens_are_not_synthetic() {
    assert!(!is_known_synthetic_token("opaque-token"));
    assert!(!is_known_synthetic_token("real-or-opaque-token"));
    assert!(!is_known_synthetic_token("a.b"));
    let token = local_token();
    assert!(!is_known_synthetic_token(&format!("{token}.extra")));
    let other = base64::engine::general_purpose::URL_SAFE_NO_PAD
        .encode(br#"{"email":"person@example.com","iss":"cursor-client","type":"session"}"#);
    assert!(!is_known_synthetic_token(&format!("h.{other}.s")));
    let same = base64::engine::general_purpose::URL_SAFE_NO_PAD
        .encode(br#"{"email":"cursor@ai.com","iss":"cursor-client","type":"session"}"#);
    assert!(is_known_synthetic_token(&format!("h.{same}.s")));
    assert!(!is_known_synthetic_token("h.!!!.s"));
}

#[test]
fn known_legacy_account_is_removed() {
    let token = local_token();
    match removal_step(RemovalEvent::AccountRead {
        access_token: Some(token),
        cached_email: Some(EMAIL.into()),
    }) {
        RemovalAction::DeleteKeys(keys) => assert_eq!(keys, AUTH_KEYS.to_vec()),
        other => panic!("expected keys to delete, got {other:?}"),
    }
    assert_eq!(auth_keys(), AUTH_KEYS.to_vec());
    assert!(matches!(removal_step(RemovalEvent::KeysDeleted), RemovalAction::Finish { removed: true }));
}

#[test]
fn ambiguous_or_real_account_is_preserved() {
    assert!(matches!(
        removal_step(RemovalEvent::AccountRead {
            access_token: Some("real-or-opaque-token".into()),
            cached_email: Some("person@example.com".into()),
        }),
        RemovalAction::Finish { removed: false }
    ));
    assert!(matches!(
        removal_step(RemovalEvent::AccountRead {
            access_token: Some(local_token()),
            cached_email: Some("person@example.com".into()),
        }),
        RemovalAction::Finish { removed: false }
    ));
}

#[test]
fn unparseable_token_with_the_legacy_email_is_preserved() {
    assert!(matches!(
        removal_step(RemovalEvent::AccountRead {
            access_token: Some("opaque-token".into()),
            cached_email: Some(EMAIL.into()),
        }),
        RemovalAction::Finish { removed: false }
    ));
    assert!(matches!(
        removal_step(RemovalEvent::AccountRead { access_token: Some("  ".into()), cached_email: Some(EMAIL.into()) }),
        RemovalAction::Finish { removed: false }
    ));
    assert!(matches!(
        removal_step(RemovalEvent::AccountRead { access_token: None, cached_email: Some(EMAIL.into()) }),
        RemovalAction::Finish { removed: false }
    ));
}

#[test]
fn missing_database_or_table_stops_the_removal() {
    assert!(matches!(
        removal_step(RemovalEvent::DatabaseChecked { exists: false }),
        RemovalAction::Finish { removed: false }
    ));
    assert!(matches!(removal_step(RemovalEvent::DatabaseChecked { exists: true }), RemovalAction::CountItemTable));
    assert!(matches!(
        removal_step(RemovalEvent::ItemTableCounted { count: 0 }),
        RemovalAction::Finish { removed: false }
    ));
    assert!(matches!(removal_step(RemovalEvent::ItemTableCounted { count: 1 }), RemovalAction::ReadAccount));
}

#[test]
fn state_database_locations() {
    let mac = state_db_location("macos", true, false, false).unwrap();
    assert_eq!(mac.base, BaseDirectory::Home);
    assert_eq!(mac.relative, vec!["Library/Application Support/Cursor/User/globalStorage/state.vscdb".to_string()]);
    let win = state_db_location("windows", true, true, false).unwrap();
    assert_eq!(win.base, BaseDirectory::AppData);
    assert_eq!(win.relative, vec!["Cursor/User/globalStorage/state.vscdb".to_string()]);
    let win = state_db_location("windows", true, false, false).unwrap();
    assert_eq!(win.base, BaseDirectory::Home);
    assert_eq!(win.relative, vec!["AppData/Roaming".to_string(), "Cursor/User/globalStorage/state.vscdb".to_string()]);
    let linux = state_db_location("linux", true, false, true).unwrap();
    assert_eq!(linux.base, BaseDirectory::XdgConfigHome);
    let linux = state_db_location("linux", true, false, false).unwrap();
    assert_eq!(linux.relative, vec![".config".to_string(), "Cursor/User/globalStorage/state.vscdb".to_string()]);
    let err = state_db_location("freebsd", true, false, false).unwrap_err();
    assert_eq!(err, AccountError::UnsupportedPlatform("freebsd".into()));
    assert_eq!(err.message(), "Cursor account injection is unsupported on freebsd");
    let err = state_db_location("linux", false, false, false).unwrap_err();
    assert_eq!(err, AccountError::NoHomeDirectory);
    assert_eq!(err.message(), "cannot resolve user home directory");
}

#[test]
fn what_injection_writes_direct_mode_removes() {
    let values = injected_values();
    match removal_step(RemovalEvent::AccountRead {
        access_token: Some(values[0].1.clone()),
        cached_email: Some(values[2].1.clone()),
    }) {
        RemovalAction::DeleteKeys(keys) => assert_eq!(keys.len(), 6),
        other => panic!("expected keys to delete, got {other:?}"),
    }
}
