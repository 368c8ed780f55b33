use tlsn_verifier::check::Check;
use tlsn_verifier::custom_handlers::apple_subs_user_id::AppleSubsUserId;
use tlsn_verifier::handlers::HandlersManager;
use tlsn_verifier::oauth_verification::{OAuthVerification, PolicyError};
use tlsn_verifier::presentation_check::PresentationCheck;
use tlsn_verifier::verification::Verification;
use tlsn_verifier::verification_manager::{OAuthVerificationManager, StoreError, VerificationManager};
use tlsn_verifier::window::Window;

fn verification(id: &str, handler: Option<&str>) -> Verification {
    Verification {
        id: id.to_string(),
        host: "api.example.com".to_string(),
        user_id: PresentationCheck {
            window: Window { id: 0, key: "userId".to_string() },
            check: Check::Any,
            custom_handler: None,
        },
        checks: vec![PresentationCheck {
            window: Window { id: 1, key: "-".to_string() },
            check: Check::Custom,
            custom_handler: handler.map(|h| h.to_string()),
        }],
    }
}

fn handlers() -> HandlersManager<AppleSubsUserId> {
    let mut h = HandlersManager::new();
    h.register("apple_subs_user_id".to_string(), AppleSubsUserId { private_key: [1u8; 32] });
    h
}

#[test]
fn load_then_get() {
    let mut store = VerificationManager::new();
    assert!(store.get("1").is_none());
    let r = store.load(vec![("1".to_string(), verification("1", Some("apple_subs_user_id")))], &handlers());
    assert!(r.is_ok());
    assert_eq!(store.get("1").map(|v| v.id.clone()), Some("1".to_string()));
    assert!(store.get("2").is_none());
}

#[test]
fn second_load_is_rejected_and_store_kept() {
    let mut store = VerificationManager::new();
    store.load(vec![("1".to_string(), verification("1", None))], &handlers()).unwrap();
    let r = store.load(vec![("2".to_string(), verification("2", None))], &handlers());
    assert!(matches!(r, Err(StoreError::AlreadyInitialized)));
    assert!(store.get("1").is_some());
    assert!(store.get("2").is_none());
}

#[test]
fn unknown_handler_fails_whole_load() {
    let mut store = VerificationManager::new();
    let r = store.load(
        vec![
            ("1".to_string(), verification("1", None)),
            ("2".to_string(), verification("2", Some("missing_handler"))),
        ],
        &handlers(),
    );
    assert!(matches!(r, Err(StoreError::HandlerNotFound(ref n)) if n == "missing_handler"));
    assert!(store.get("1").is_none());
    assert!(store.load(vec![("1".to_string(), verification("1", None))], &handlers()).is_ok());
}

#[test]
fn oauth_store_single_load() {
    let mut store = OAuthVerificationManager::new();
    let policy = OAuthVerification { id: "7".to_string(), domain: "example.com".to_string(), score: 90 };
    assert!(store.load(vec![("7".to_string(), policy.clone())]).is_ok());
    assert_eq!(store.get("7").map(|p| p.score), Some(90));
    assert!(matches!(store.load(vec![]), Err(StoreError::AlreadyInitialized)));
    assert!(store.get("7").is_some());
}

#[test]
fn low_score_fails_whatever_the_domain() {
    let policy = OAuthVerification { id: "7".to_string(), domain: "example.com".to_string(), score: 90 };
    assert_eq!(policy.check("example.com".to_string(), 80), Err(PolicyError::LowScore));
    assert_eq!(policy.check("other.com".to_string(), 80), Err(PolicyError::LowScore));
}

#[test]
fn domain_must_match() {
    let policy = OAuthVerification { id: "7".to_string(), domain: "example.com".to_string(), score: 90 };
    assert_eq!(policy.check("other.com".to_string(), 95), Err(PolicyError::WrongDomain));
    assert_eq!(policy.check("example.com".to_string(), 90), Ok(()));
}
