use alloy::primitives::{Address, B256, U256};
use alloy::sol_types::SolValue;
use std::str::FromStr;
use tlsn_verifier::config::signer_address;
use tlsn_verifier::verifier_response::{
    attestation_digest, parse_u256, registry_from_string, verifier_response,
    Attestation, ResponseError,
};

const REGISTRY: &str = "0x1111111111111111111111111111111111111111";

fn key() -> [u8; 32] {
    [0x11u8; 32]
}

#[test]
fn encoding_matches_abi_encoding() {
    let a = Attestation {
        registry: [0x22u8; 20],
        chain_id: 8453,
        credential_group_id: U256::from(5u64).to_be_bytes::<32>(),
        credential_id: [0x33u8; 32],
        app_id: U256::from(77u64).to_be_bytes::<32>(),
        semaphore_identity_commitment: U256::from(123456u64).to_be_bytes::<32>(),
        issued_at: 1_700_000_000,
    };
    let expected = (
        Address::from([0x22u8; 20]),
        U256::from(8453u64),
        U256::from(5u64),
        B256::from([0x33u8; 32]),
        U256::from(77u64),
        U256::from(123456u64),
        U256::from(1_700_000_000u64),
    )
        .abi_encode();
    assert_eq!(attestation_digest(&a), alloy::primitives::keccak256(&expected).0);
}

#[test]
fn u256_text() {
    assert_eq!(parse_u256("77"), Some(U256::from(77u64).to_be_bytes::<32>()));
    assert_eq!(parse_u256("0x10"), Some(U256::from(16u64).to_be_bytes::<32>()));
    assert_eq!(parse_u256("x"), None);
}

#[test]
fn signed_attestation_recovers_service_address() {
    let resp = verifier_response(
        REGISTRY.to_string(),
        "84532".to_string(),
        "5".to_string(),
        "77".to_string(),
        [0u8; 32],
        [0x33u8; 32],
        &key(),
        1_700_000_000,
    )
    .unwrap();
    assert_eq!(resp.attestation.chain_id, 84532);
    assert_eq!(resp.attestation.issued_at, 1_700_000_000);
    let digest = attestation_digest(&resp.attestation);
    assert_eq!(resp.verifier_hash, format!("0x{}", alloy::hex::encode(digest)));
    let signature = alloy::primitives::Signature::from_str(&resp.signature).unwrap();
    let recovered = signature.recover_address_from_msg(digest).unwrap();
    assert_eq!(Some(recovered.0.0), signer_address(&key()));
}

#[test]
fn response_errors() {
    let call = |registry: &str, chain: &str, group: &str, app: &str| {
        verifier_response(
            registry.to_string(),
            chain.to_string(),
            group.to_string(),
            app.to_string(),
            [0u8; 32],
            [0u8; 32],
            &key(),
            1,
        )
    };
    assert_eq!(call("nope", "8453", "1", "1").err(), Some(ResponseError::InvalidRegistry));
    assert_eq!(call(REGISTRY, "x", "1", "1").err(), Some(ResponseError::InvalidChainId));
    assert_eq!(call(REGISTRY, "1", "1", "1").err(), Some(ResponseError::UnsupportedChainId(1)));
    assert_eq!(call(REGISTRY, "8453", "1", "?").err(), Some(ResponseError::InvalidAppId));
    assert_eq!(call(REGISTRY, "8453", "?", "1").err(), Some(ResponseError::InvalidCredentialGroupId));
    assert!(call(REGISTRY, "8453", "1", "1").is_ok());
}

#[test]
fn registry_address_text() {
    assert_eq!(registry_from_string(REGISTRY), Some([0x11u8; 20]));
    assert_eq!(registry_from_string(&"ab".repeat(20)), Some([0xabu8; 20]));
    assert_eq!(registry_from_string(&format!("0x{}", "AbCd".repeat(10))), Some([0xab, 0xcd].repeat(10).try_into().unwrap()));
    assert_eq!(registry_from_string(&"11".repeat(19)), None);
    assert_eq!(registry_from_string(&"11".repeat(21)), None);
}

#[test]
fn signing_is_deterministic() {
    let sign = || {
        verifier_response(
            REGISTRY.to_string(),
            "8453".to_string(),
            "5".to_string(),
            "77".to_string(),
            [0u8; 32],
            [0x33u8; 32],
            &key(),
            42,
        )
        .unwrap()
    };
    assert_eq!(sign().signature, sign().signature);
    assert_eq!(sign().signature.len(), 132);
}
