use tlsn_verifier::check::Check;
use tlsn_verifier::credential_id::{
    credential_id, credential_id_from_bytes, keccak256, random_credential_id, CredentialError,
};
use tlsn_verifier::custom_handlers::apple_subs_user_id::{handler, AppleSubsUserId};
use tlsn_verifier::custom_handlers::json_list_handlers::{device_credential, devices_verdict, rides_verdict};
use tlsn_verifier::text::keyed_value;
use tlsn_verifier::handlers::{HandlerError, HandlersManager};
use tlsn_verifier::presentation_check::PresentationCheck;
use tlsn_verifier::window::Window;

fn user_check(handler: Option<&str>) -> PresentationCheck {
    PresentationCheck {
        window: Window { id: 0, key: "userId".to_string() },
        check: Check::Any,
        custom_handler: handler.map(|h| h.to_string()),
    }
}

fn concat(parts: &[&[u8]]) -> Vec<u8> {
    let mut v = Vec::new();
    for p in parts {
        v.extend_from_slice(p);
    }
    v
}

#[test]
fn keccak_of_empty_input() {
    assert_eq!(
        tlsn_verifier::hex::encode_hex_prefixed(&keccak256(&[])),
        "0xc5d2460186f7233c927e7db2dcc703c0e500b653ca82273b7bfad8045d85a470"
    );
}

#[test]
fn credential_binds_user_app_and_key() {
    let app = [3u8; 32];
    let key = [9u8; 32];
    let expected = alloy::primitives::keccak256(concat(&[b"abc123", &app, &key])).0;
    assert_eq!(credential_id_from_bytes(b"abc123", &app, &key), expected);
    assert_ne!(credential_id_from_bytes(b"abc124", &app, &key), expected);
    assert_ne!(credential_id_from_bytes(b"abc123", &[4u8; 32], &key), expected);
}

#[test]
fn derivation_is_deterministic() {
    let app = [3u8; 32];
    let key = [9u8; 32];
    let first = credential_id_from_bytes(b"abc123", &app, &key);
    let second = credential_id_from_bytes(b"abc123", &app, &key);
    assert_eq!(first, second);
    assert_ne!(first, random_credential_id());
}

#[test]
fn declarative_path_hashes_value_text() {
    let handlers: HandlersManager<AppleSubsUserId> = HandlersManager::new();
    let fragments = vec!["\"userId\": \"abc123\"".to_string()];
    let app = [3u8; 32];
    let key = [9u8; 32];
    let r = credential_id(&fragments, &user_check(None), &app, &handlers, &key, false);
    assert_eq!(r.unwrap(), credential_id_from_bytes(b"abc123", &app, &key));
}

#[test]
fn declarative_path_errors() {
    let handlers: HandlersManager<AppleSubsUserId> = HandlersManager::new();
    let r = credential_id(&vec![], &user_check(None), &[0u8; 32], &handlers, &[1u8; 32], false);
    assert!(matches!(r, Err(CredentialError::WindowNotFound)));
    let r = credential_id(&vec!["\"id\":\"x\"".to_string()], &user_check(None), &[0u8; 32], &handlers, &[1u8; 32], false);
    assert!(matches!(r, Err(CredentialError::UserIdNotPresent)));
}

#[test]
fn development_mode_is_random() {
    let handlers: HandlersManager<AppleSubsUserId> = HandlersManager::new();
    let fragments = vec!["\"userId\":\"abc123\"".to_string()];
    let a = credential_id(&fragments, &user_check(None), &[3u8; 32], &handlers, &[9u8; 32], true).unwrap();
    let b = credential_id(&fragments, &user_check(None), &[3u8; 32], &handlers, &[9u8; 32], true).unwrap();
    assert_ne!(a, b);
}

#[test]
fn delegated_path_uses_handler_value() {
    let key = [9u8; 32];
    let app = [3u8; 32];
    let mut handlers = HandlersManager::new();
    handlers.register("subs".to_string(), AppleSubsUserId { private_key: key });
    let fragments = vec!["\"subscriptionId\": \"sub-77\"".to_string()];
    let r = credential_id(&fragments, &user_check(Some("subs")), &app, &handlers, &key, false);
    assert_eq!(r.unwrap(), credential_id_from_bytes(b"sub-77", &app, &key));
    let r = credential_id(&fragments, &user_check(Some("none")), &app, &handlers, &key, false);
    assert!(matches!(r, Err(CredentialError::Handler(HandlerError::NotSet))));
}

#[test]
fn subscription_handler() {
    let key = [9u8; 32];
    let app = [3u8; 32];
    let c = user_check(None);
    let out = handler(&c, " \"subscriptionId\" : \"sub-1\" ", &app, &key);
    assert_eq!(out, Some((true, Some(credential_id_from_bytes(b"sub-1", &app, &key)))));
    assert_eq!(handler(&c, "\"subscription\":\"sub-1\"", &app, &key), None);
    assert_eq!(handler(&c, "no colon", &app, &key), None);
}

#[test]
fn keyed_values() {
    assert_eq!(keyed_value(" \"devices\" :[1]", "\"devices\""), Some("[1]"));
    assert_eq!(keyed_value("\"other\":[1]", "\"devices\""), None);
    assert_eq!(keyed_value("\"devices\"", "\"devices\""), None);
}

#[test]
fn device_credential_is_salted_hash() {
    let expected = alloy::primitives::keccak256(concat(&[b"d1", &[0xaa, 0xbb]])).0;
    assert_eq!(device_credential("d1", &[0xaa, 0xbb]), expected);
}

#[test]
fn rides_need_five_completed() {
    let mut rides: Vec<String> = vec!["Trip".to_string(); 4];
    rides.push("Canceled trip".to_string());
    assert_eq!(rides_verdict(&rides), (false, None));
    rides.push("Trip".to_string());
    assert_eq!(rides_verdict(&rides), (true, None));
}

#[test]
fn subscription_key_trimmed_of_unicode_whitespace() {
    let key = [9u8; 32];
    let app = [3u8; 32];
    let c = user_check(None);
    let out = handler(&c, "\"subscriptionId\"\u{B}:\u{A0}\"sub-1\"\u{3000}", &app, &key);
    assert_eq!(out, Some((true, Some(credential_id_from_bytes(b"sub-1", &app, &key)))));
}

#[test]
fn quoted_user_id_keeps_inner_quotes() {
    let handlers: HandlersManager<AppleSubsUserId> = HandlersManager::new();
    let fragments = vec!["\"userId\":\"\"abc\"\"".to_string()];
    let r = credential_id(&fragments, &user_check(None), &[3u8; 32], &handlers, &[9u8; 32], false);
    assert_eq!(r.unwrap(), credential_id_from_bytes(b"\"abc\"", &[3u8; 32], &[9u8; 32]));
}

#[test]
fn first_device_decides() {
    let ids = vec!["d1".to_string(), "d2".to_string()];
    assert_eq!(devices_verdict(&ids, &[1, 2]), Some((true, Some(device_credential("d1", &[1, 2])))));
    assert_eq!(devices_verdict(&vec![], &[1, 2]), None);
}
