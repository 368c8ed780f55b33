use alloy::primitives::U256;
use alloy::signers::local::PrivateKeySigner;
use alloy::signers::SignerSync;
use alloy::sol_types::SolValue;
use tlsn_verifier::check::Check;
use tlsn_verifier::config::{init, signer_address, ConfigError, KeyAlg, NotaryKey};
use tlsn_verifier::context::Context;
use tlsn_verifier::credential_id::{credential_id_from_bytes, keccak256};
use tlsn_verifier::custom_handlers::apple_subs_user_id::AppleSubsUserId;
use tlsn_verifier::handlers::HandlersManager;
use tlsn_verifier::oauth_verification::{OAuthVerification, PolicyError};
use tlsn_verifier::presentation_check::PresentationCheck;
use tlsn_verifier::tlsn::{verify_proof, PresentationOutput, ProofError};
use tlsn_verifier::transcript::Transcript;
use tlsn_verifier::verification::{CheckError, Verification};
use tlsn_verifier::verification_manager::{OAuthVerificationManager, VerificationManager};
use tlsn_verifier::verify_oauth::{
    oauth_message_digest, oauth_response, verify_oauth, OAuthError, OauthMessage, VerifyRequest,
};
use tlsn_verifier::window::Window;

const SERVICE_KEY: &str = "0x1111111111111111111111111111111111111111111111111111111111111111";
const NOTARY_KEY: &str = "0x0279be667ef9dcbbac55a06295ce870b07029bfcdb2dce28d959f2815b16f81798";

fn verification() -> Verification {
    Verification {
        id: "1".to_string(),
        host: "api.example.com".to_string(),
        user_id: PresentationCheck {
            window: Window { id: 0, key: "userId".to_string() },
            check: Check::Any,
            custom_handler: None,
        },
        checks: vec![PresentationCheck {
            window: Window { id: 1, key: "age".to_string() },
            check: Check::Gte(18),
            custom_handler: None,
        }],
    }
}

fn context(dev_mode: bool, oauth_signer: [u8; 20]) -> Context<AppleSubsUserId> {
    let config = init("K256", NOTARY_KEY, SERVICE_KEY, "8080".to_string()).unwrap();
    let handlers = HandlersManager::new();
    let mut verifications = VerificationManager::new();
    verifications.load(vec![("1".to_string(), verification())], &handlers).unwrap();
    let mut oauth_verifications = OAuthVerificationManager::new();
    oauth_verifications
        .load(vec![(
            "7".to_string(),
            OAuthVerification { id: "7".to_string(), domain: "example.com".to_string(), score: 90 },
        )])
        .unwrap();
    Context { config, handlers, verifications, oauth_verifications, oauth_signer, dev_mode }
}

fn output(notary: &NotaryKey, server: &str) -> PresentationOutput {
    let mut received: Vec<u8> = Vec::new();
    received.extend_from_slice(b"\"userId\":\"abc123\"");
    received.extend_from_slice(&[0xff, 0xfe]);
    received.extend_from_slice(b"\"age\":21");
    PresentationOutput {
        notary_key: notary.clone(),
        server_name: Some(server.to_string()),
        transcript: Some(Transcript { received, received_authed: vec![(0, 17), (17, 19), (19, 27)] }),
    }
}

#[test]
fn config_from_settings() {
    let c = init("K256", NOTARY_KEY, SERVICE_KEY, "8080".to_string()).unwrap();
    assert_eq!(c.notary_key.alg, KeyAlg::K256);
    assert_eq!(c.notary_key.data.len(), 33);
    assert_eq!(c.private_key, [0x11u8; 32]);
    assert_eq!(c.port, "8080");
    assert_eq!(init("ED25519", NOTARY_KEY, SERVICE_KEY, String::new()).err(), Some(ConfigError::UnsupportedKeyAlg));
    assert_eq!(init("P256", "0xz", SERVICE_KEY, String::new()).err(), Some(ConfigError::InvalidNotaryKeyHex));
    assert_eq!(init("P256", NOTARY_KEY, "xyz", String::new()).err(), Some(ConfigError::InvalidPrivateKeyHex));
    assert_eq!(init("P256", NOTARY_KEY, &"00".repeat(32), String::new()).err(), Some(ConfigError::InvalidPrivateKey));
}

#[test]
fn proof_yields_credential() {
    let ctx = context(false, [0u8; 20]);
    let out = output(&ctx.config.notary_key, "api.example.com");
    let app = U256::from(77u64).to_be_bytes::<32>();
    let id = verify_proof(&ctx, &out, "1", &app).unwrap();
    assert_eq!(id, credential_id_from_bytes(b"abc123", &app, &ctx.config.private_key));
}

#[test]
fn invalid_utf8_range_is_dropped() {
    let ctx = context(false, [0u8; 20]);
    let out = output(&ctx.config.notary_key, "api.example.com");
    let texts = out.transcript.as_ref().unwrap().authed_texts();
    assert_eq!(texts, vec!["\"userId\":\"abc123\"".to_string(), "\"age\":21".to_string()]);
}

#[test]
fn proof_failures() {
    let ctx = context(false, [0u8; 20]);
    let app = [0u8; 32];
    let other = NotaryKey { alg: KeyAlg::P256, data: ctx.config.notary_key.data.clone() };
    assert!(matches!(
        verify_proof(&ctx, &output(&other, "api.example.com"), "1", &app),
        Err(ProofError::InvalidNotaryKey)
    ));
    assert!(matches!(
        verify_proof(&ctx, &output(&ctx.config.notary_key, "evil.com"), "1", &app),
        Err(ProofError::Check(CheckError::WrongServerName))
    ));
    assert!(matches!(
        verify_proof(&ctx, &output(&ctx.config.notary_key, "api.example.com"), "2", &app),
        Err(ProofError::VerificationNotFound)
    ));
    let mut no_name = output(&ctx.config.notary_key, "api.example.com");
    no_name.server_name = None;
    assert!(matches!(verify_proof(&ctx, &no_name, "1", &app), Err(ProofError::ServerNameNotSet)));
}

#[test]
fn development_mode_proof_is_random() {
    let ctx = context(true, [0u8; 20]);
    let out = output(&ctx.config.notary_key, "api.example.com");
    let a = verify_proof(&ctx, &out, "1", &[0u8; 32]).unwrap();
    let b = verify_proof(&ctx, &out, "1", &[0u8; 32]).unwrap();
    assert_ne!(a, b);
}

fn message(score: u64) -> OauthMessage {
    OauthMessage {
        domain: "example.com".to_string(),
        user_id: "user-42".to_string(),
        score: U256::from(score).to_be_bytes::<32>(),
        timestamp: U256::from(1_700_000_000u64).to_be_bytes::<32>(),
    }
}

fn signed_request(signer: &PrivateKeySigner, score: u64) -> VerifyRequest {
    let m = message(score);
    let digest = oauth_message_digest(&m);
    let signature = signer.sign_message_sync(&digest).unwrap();
    VerifyRequest {
        message: m,
        signature: signature.to_string(),
        semaphore_identity_commitment: "12345".to_string(),
        credential_group_id: "7".to_string(),
        app_id: "77".to_string(),
        registry: "0x1111111111111111111111111111111111111111".to_string(),
        chain_id: "8453".to_string(),
    }
}

#[test]
fn oauth_encoding_matches_abi_params() {
    let m = message(80);
    let expected = (
        "example.com".to_string(),
        "user-42".to_string(),
        U256::from(80u64),
        U256::from(1_700_000_000u64),
    )
        .abi_encode_params();
    assert_eq!(oauth_message_digest(&m), keccak256(&expected));
}

#[test]
fn oauth_flow_issues_attestation() {
    let signer = PrivateKeySigner::from_slice(&[0x22u8; 32]).unwrap();
    let ctx = context(false, signer.address().0.0);
    let resp = verify_oauth(&ctx, &signed_request(&signer, 95), 1_700_000_001).unwrap();
    let app = U256::from(77u64).to_be_bytes::<32>();
    assert_eq!(resp.attestation.credential_id, credential_id_from_bytes(b"user-42", &app, &ctx.config.private_key));
    assert_eq!(resp.attestation.chain_id, 8453);
    assert_eq!(resp.attestation.issued_at, 1_700_000_001);
    assert!(signer_address(&ctx.config.private_key).is_some());
}

#[test]
fn oauth_low_score_is_a_policy_failure() {
    let signer = PrivateKeySigner::from_slice(&[0x22u8; 32]).unwrap();
    let ctx = context(false, signer.address().0.0);
    let r = verify_oauth(&ctx, &signed_request(&signer, 80), 1);
    assert_eq!(r.err(), Some(OAuthError::Policy(PolicyError::LowScore)));
}

#[test]
fn oauth_untrusted_signer_is_unauthorized() {
    let signer = PrivateKeySigner::from_slice(&[0x22u8; 32]).unwrap();
    let ctx = context(false, [0x99u8; 20]);
    let r = verify_oauth(&ctx, &signed_request(&signer, 95), 1);
    assert_eq!(r.err(), Some(OAuthError::Unauthorized));
    let dev = context(true, [0x99u8; 20]);
    assert!(verify_oauth(&dev, &signed_request(&signer, 95), 1).is_ok());
}

#[test]
fn oauth_bad_signature_and_lookup() {
    let signer = PrivateKeySigner::from_slice(&[0x22u8; 32]).unwrap();
    let ctx = context(false, signer.address().0.0);
    let mut req = signed_request(&signer, 95);
    req.signature = "0x12".to_string();
    assert_eq!(verify_oauth(&ctx, &req, 1).err(), Some(OAuthError::InvalidSignature));
    let mut req = signed_request(&signer, 95);
    req.credential_group_id = "8".to_string();
    assert_eq!(
        oauth_response(&ctx, &req, signer.address().0.0, 1).err(),
        Some(OAuthError::VerificationNotFound)
    );
    let mut req = signed_request(&signer, 95);
    req.app_id = "nope".to_string();
    assert_eq!(verify_oauth(&ctx, &req, 1).err(), Some(OAuthError::InvalidAppId));
}

#[test]
fn oversized_score_saturates() {
    let signer = PrivateKeySigner::from_slice(&[0x22u8; 32]).unwrap();
    let ctx = context(false, signer.address().0.0);
    let mut req = signed_request(&signer, 95);
    req.message.score = U256::MAX.to_be_bytes::<32>();
    assert!(oauth_response(&ctx, &req, signer.address().0.0, 1).is_ok());
}

#[test]
fn secret_key_lengths_and_range() {
    let short = init("K256", NOTARY_KEY, &"11".repeat(24), String::new()).unwrap();
    let mut expected = [0u8; 32];
    expected[8..].copy_from_slice(&[0x11u8; 24]);
    assert_eq!(short.private_key, expected);
    assert_eq!(
        init("K256", NOTARY_KEY, &"11".repeat(23), String::new()).err(),
        Some(ConfigError::InvalidPrivateKey)
    );
    let order = "FFFFFFFFFFFFFFFFFFFFFFFFFFFFFFFEBAAEDCE6AF48A03BBFD25E8CD0364141";
    assert_eq!(init("K256", NOTARY_KEY, order, String::new()).err(), Some(ConfigError::InvalidPrivateKey));
    let below = "FFFFFFFFFFFFFFFFFFFFFFFFFFFFFFFEBAAEDCE6AF48A03BBFD25E8CD0364140";
    assert!(init("K256", NOTARY_KEY, below, String::new()).is_ok());
}

fn tlsn_request(app_id: &str) -> tlsn_verifier::verify_tlsn::VerifyRequest {
    tlsn_verifier::verify_tlsn::VerifyRequest {
        tlsn_presentation: String::new(),
        registry: "0x1111111111111111111111111111111111111111".to_string(),
        chain_id: "8453".to_string(),
        credential_group_id: "1".to_string(),
        app_id: app_id.to_string(),
        semaphore_identity_commitment: "99".to_string(),
    }
}

#[test]
fn proof_request_issues_attestation() {
    let ctx = context(false, [0u8; 20]);
    let out = output(&ctx.config.notary_key, "api.example.com");
    let resp = tlsn_verifier::verify_tlsn::verify_tlsn(&ctx, &out, &tlsn_request("77"), 5).unwrap();
    let app = U256::from(77u64).to_be_bytes::<32>();
    assert_eq!(resp.attestation.credential_id, credential_id_from_bytes(b"abc123", &app, &ctx.config.private_key));
    assert_eq!(resp.attestation.semaphore_identity_commitment, U256::from(99u64).to_be_bytes::<32>());
    assert_eq!(resp.attestation.issued_at, 5);
}

#[test]
fn proof_request_rejects_bad_ranges_and_app_id() {
    let ctx = context(false, [0u8; 20]);
    let mut out = output(&ctx.config.notary_key, "api.example.com");
    assert!(matches!(
        tlsn_verifier::verify_tlsn::verify_tlsn(&ctx, &out, &tlsn_request("x"), 5),
        Err(tlsn_verifier::verify_tlsn::VerifyError::InvalidAppId)
    ));
    out.transcript.as_mut().unwrap().received_authed.push((20, 100));
    assert!(matches!(
        tlsn_verifier::verify_tlsn::verify_tlsn(&ctx, &out, &tlsn_request("77"), 5),
        Err(tlsn_verifier::verify_tlsn::VerifyError::InvalidTranscriptRanges)
    ));
}

#[test]
fn untrusted_signer_is_unauthorized_before_app_id_is_read() {
    let signer = PrivateKeySigner::from_slice(&[0x22u8; 32]).unwrap();
    let ctx = context(false, [0x99u8; 20]);
    let mut req = signed_request(&signer, 95);
    req.app_id = "not a number".to_string();
    assert_eq!(verify_oauth(&ctx, &req, 1).err(), Some(OAuthError::Unauthorized));
}
