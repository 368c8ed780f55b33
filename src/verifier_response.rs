//! The attestation signer: the attestation record, its canonical encoding,
//! its digest and the service's signature over it.

use vstd::prelude::*;
use crate::bytes::{be_bytes, zeros};
use crate::credential_id::{keccak256, keccak256_of};
use crate::hex::{encode_hex_prefixed, hex_decoding, hex_prefixed};
use crate::text::is_decimal_digit;

verus! {

/// The chains that attestations may be issued for.
pub const VALID_CHAIN_IDS: [u64; 2] = [8453, 84532];

/// The attestation a successful verification yields.
#[derive(Debug, Clone, Copy)]
pub struct Attestation {
    pub registry: [u8; 20],
    pub chain_id: u64,
    /// 32 big-endian bytes.
    pub credential_group_id: [u8; 32],
    pub credential_id: [u8; 32],
    /// 32 big-endian bytes.
    pub app_id: [u8; 32],
    /// 32 big-endian bytes.
    pub semaphore_identity_commitment: [u8; 32],
    /// Seconds since the Unix epoch.
    pub issued_at: u64,
}

/// The signed attestation: the record, the hex digest of its encoding, and
/// the hex signature over that digest.
#[derive(Debug, Clone)]
pub struct VerifyResponse {
    pub attestation: Attestation,
    pub verifier_hash: String,
    pub signature: String,
}

/// Why no attestation was issued.
#[derive(Debug, Clone, Copy, PartialEq, Eq, Structural)]
pub enum ResponseError {
    InvalidRegistry,
    InvalidChainId,
    UnsupportedChainId(u64),
    InvalidAppId,
    InvalidCredentialGroupId,
    /// The service key could not sign.
    SigningFailed,
}

/// A 32-byte word holding an integer, big-endian.
pub open spec fn u64_word(v: u64) -> Seq<u8> {
    be_bytes(v as nat, 32)
}

/// The canonical encoding of an attestation: one 32-byte word per field, in order.
pub open spec fn attestation_encoding(a: Attestation) -> Seq<u8> {
    fields_encoding(
        a.registry@,
        a.chain_id,
        a.credential_group_id,
        a.credential_id,
        a.app_id,
        a.semaphore_identity_commitment,
        a.issued_at,
    )
}

/// The canonical encoding of an attestation with these fields.
pub open spec fn fields_encoding(
    registry: Seq<u8>,
    chain_id: u64,
    credential_group_id: [u8; 32],
    credential_id: [u8; 32],
    app_id: [u8; 32],
    semaphore_identity_commitment: [u8; 32],
    issued_at: u64,
) -> Seq<u8> {
    zeros(12) + registry + u64_word(chain_id) + credential_group_id@ + credential_id@ + app_id@
        + semaphore_identity_commitment@ + u64_word(issued_at)
}

/// The digest an attestation's signature covers.
pub open spec fn attestation_digest_of(a: Attestation) -> [u8; 32] {
    keccak256_of(attestation_encoding(a))
}

/// Relies on alloy's `SolValue::abi_encode` of the tuple (address, uint256,
/// uint256, bytes32, uint256, uint256, uint256): one 32-byte word per field,
/// the address left-padded and the integers big-endian.
#[verifier::external_body]
fn abi_encode_attestation(a: &Attestation) -> (r: Vec<u8>)
    ensures
        r@ == attestation_encoding(*a),
{
    alloy::sol_types::SolValue::abi_encode(
        &(
            alloy::primitives::Address::from(a.registry),
            alloy::primitives::U256::from(a.chain_id),
            alloy::primitives::U256::from_be_bytes(a.credential_group_id),
            alloy::primitives::B256::from(a.credential_id),
            alloy::primitives::U256::from_be_bytes(a.app_id),
            alloy::primitives::U256::from_be_bytes(a.semaphore_identity_commitment),
            alloy::primitives::U256::from(a.issued_at),
        ),
    )
}

/// The digest of an attestation's canonical encoding, as a verifier
/// recomputes it from the record alone.
pub fn attestation_digest(a: &Attestation) -> (r: [u8; 32])
    ensures
        r == attestation_digest_of(*a),
{
    let encoded = abi_encode_attestation(a);
    keccak256(encoded.as_slice())
}

/// The 20 bytes that an address written as text holds: hexadecimal, with an
/// optional `0x` prefix, no checksum enforced.
pub open spec fn address_from_text(text: Seq<char>) -> Option<Seq<u8>> {
    match hex_decoding(text) {
        Some(b) => if b.len() == 20 {
            Some(b)
        } else {
            None
        },
        None => None,
    }
}

/// Relies on `<Address as FromStr>::from_str`, which decodes exactly 20 bytes
/// of hexadecimal text after an optional `0x` prefix.
#[verifier::external_body]
pub fn registry_from_string(registry_address: &str) -> (r: Option<[u8; 20]>)
    ensures
        match r {
            Some(a) => address_from_text(registry_address@) == Some(a@),
            None => address_from_text(registry_address@) is None,
        },
{
    <alloy::primitives::Address as std::str::FromStr>::from_str(registry_address).ok().map(|a| a.0.0)
}

/// The 32 big-endian bytes of a 256-bit unsigned integer written as text.
pub uninterp spec fn u256_from_text(text: Seq<char>) -> Option<[u8; 32]>;

/// Relies on `<U256 as FromStr>::from_str`: parses a 256-bit unsigned integer.
#[verifier::external_body]
pub fn parse_u256(text: &str) -> (r: Option<[u8; 32]>)
    ensures
        r == u256_from_text(text@),
{
    <alloy::primitives::U256 as std::str::FromStr>::from_str(text).ok().map(|v| v.to_be_bytes::<32>())
}

/// The value of a run of decimal digits, read as a natural number.
pub open spec fn decimal_value(d: Seq<char>) -> nat
    decreases d.len(),
{
    if d.len() == 0 {
        0
    } else {
        decimal_value(d.drop_last()) * 10 + (((d.last() as u32) - ('0' as u32)) as nat)
    }
}

/// The `u64` that `s` writes in decimal: an optional `+`, then one or more
/// digits, within range.
pub open spec fn decimal_u64(s: Seq<char>) -> Option<u64> {
    let digits = if s.len() > 0 && s[0] == '+' { s.drop_first() } else { s };
    if digits.len() > 0 && (forall|i: int| 0 <= i < digits.len() ==> is_decimal_digit(#[trigger] digits[i]))
        && decimal_value(digits) <= u64::MAX {
        Some(decimal_value(digits) as u64)
    } else {
        None
    }
}

/// Relies on `<u64 as FromStr>::from_str`: an optional `+`, then one or more
/// ASCII digits, and a value within `u64`'s range.
#[verifier::external_body]
fn parse_u64(text: &str) -> (r: Option<u64>)
    ensures
        r == decimal_u64(text@),
{
    text.parse::<u64>().ok()
}

/// The EIP-191 signature, as 65 bytes (r, s, v), that the key with scalar
/// `private_key` makes over `digest`; `None` when the scalar is not a valid key.
pub uninterp spec fn eip191_signature_of(private_key: Seq<u8>, digest: Seq<u8>) -> Option<Seq<u8>>;

/// Relies on `SignerSync::sign_message_sync` of the `PrivateKeySigner` built
/// by `from_bytes`: an EIP-191 signature over `message`, as 65 bytes (r, s, v).
/// Signing is deterministic (RFC 6979 nonces), so the signature depends on the
/// key and the message alone.
#[verifier::external_body]
fn sign_message(private_key: &[u8; 32], message: &[u8; 32]) -> (r: Option<[u8; 65]>)
    ensures
        r is None <==> eip191_signature_of(private_key@, message@) is None,
        r matches Some(s) ==> eip191_signature_of(private_key@, message@) == Some(s@),
{
    let key = alloy::primitives::B256::new(*private_key);
    let signer = alloy::signers::local::PrivateKeySigner::from_bytes(&key).ok()?;
    alloy::signers::SignerSync::sign_message_sync(&signer, message).ok().map(|s| s.as_bytes())
}

/// The chain is one that attestations may be issued for.
pub open spec fn chain_supported(chain_id: u64) -> bool {
    chain_id == 8453 || chain_id == 84532
}

fn is_valid_chain(chain_id: u64) -> (r: bool)
    ensures
        r == chain_supported(chain_id),
{
    let mut i: usize = 0;
    while i < VALID_CHAIN_IDS.len()
        invariant
            i <= 2,
            VALID_CHAIN_IDS@ == seq![8453u64, 84532u64],
            forall|k: int| 0 <= k < i ==> VALID_CHAIN_IDS@[k] != chain_id,
        decreases 2 - i,
    {
        if VALID_CHAIN_IDS[i] == chain_id {
            return true;
        }
        i = i + 1;
    }
    false
}

/// The attestation that `verifier_response` builds from its textual fields,
/// or why it builds none.
pub open spec fn attestation_for(
    registry_address: Seq<char>,
    chain_id: Seq<char>,
    credential_group_id: Seq<char>,
    app_id: Seq<char>,
) -> Result<(Seq<u8>, u64, [u8; 32], [u8; 32]), ResponseError> {
    match address_from_text(registry_address) {
        None => Err(ResponseError::InvalidRegistry),
        Some(registry) => match decimal_u64(chain_id) {
            None => Err(ResponseError::InvalidChainId),
            Some(chain) => if !chain_supported(chain) {
                Err(ResponseError::UnsupportedChainId(chain))
            } else {
                match u256_from_text(app_id) {
                    None => Err(ResponseError::InvalidAppId),
                    Some(app) => match u256_from_text(credential_group_id) {
                        None => Err(ResponseError::InvalidCredentialGroupId),
                        Some(group) => Ok((registry, chain, group, app)),
                    },
                }
            },
        },
    }
}

/// Whether `verifier_response` issues an attestation for these inputs, or why not.
pub open spec fn response_result(
    registry_address: Seq<char>,
    chain_id: Seq<char>,
    credential_group_id: Seq<char>,
    app_id: Seq<char>,
    semaphore_identity_commitment: [u8; 32],
    credential_id: [u8; 32],
    private_key: [u8; 32],
    issued_at: u64,
) -> Result<(), ResponseError> {
    match attestation_for(registry_address, chain_id, credential_group_id, app_id) {
        Err(e) => Err(e),
        Ok((registry, chain, group, app)) => {
            let digest = keccak256_of(
                fields_encoding(
                    registry,
                    chain,
                    group,
                    credential_id,
                    app,
                    semaphore_identity_commitment,
                    issued_at,
                ),
            );
            if eip191_signature_of(private_key@, digest@) is None {
                Err(ResponseError::SigningFailed)
            } else {
                Ok(())
            }
        },
    }
}

/// `resp` is the signed attestation that `verifier_response` issues for
/// these inputs: the parsed fields, the hex digest of its encoding, and the
/// hex signature of that digest.
pub open spec fn response_valid(
    resp: VerifyResponse,
    registry_address: Seq<char>,
    chain_id: Seq<char>,
    credential_group_id: Seq<char>,
    app_id: Seq<char>,
    semaphore_identity_commitment: [u8; 32],
    credential_id: [u8; 32],
    private_key: [u8; 32],
    issued_at: u64,
) -> bool {
    match attestation_for(registry_address, chain_id, credential_group_id, app_id) {
        Err(_) => false,
        Ok((registry, chain, group, app)) => {
            let digest = attestation_digest_of(resp.attestation);
            &&& resp.attestation.registry@ == registry
            &&& resp.attestation.chain_id == chain
            &&& resp.attestation.credential_group_id == group
            &&& resp.attestation.app_id == app
            &&& resp.attestation.credential_id == credential_id
            &&& resp.attestation.semaphore_identity_commitment == semaphore_identity_commitment
            &&& resp.attestation.issued_at == issued_at
            &&& resp.verifier_hash@ == hex_prefixed(digest@)
            &&& eip191_signature_of(private_key@, digest@) is Some
            &&& resp.signature@ == hex_prefixed(eip191_signature_of(private_key@, digest@)->0)
        },
    }
}

/// Builds, encodes, hashes and signs the attestation for a credential that
/// has already passed verification.
pub fn verifier_response(
    registry_address: String,
    chain_id: String,
    credential_group_id: String,
    app_id: String,
    semaphore_identity_commitment: [u8; 32],
    credential_id: [u8; 32],
    private_key: &[u8; 32],
    issued_at: u64,
) -> (r: Result<VerifyResponse, ResponseError>)
    ensures
        match response_result(
            registry_address@,
            chain_id@,
            credential_group_id@,
            app_id@,
            semaphore_identity_commitment,
            credential_id,
            *private_key,
            issued_at,
        ) {
            Err(e) => r == Err::<VerifyResponse, ResponseError>(e),
            Ok(()) => r matches Ok(resp) && response_valid(
                resp,
                registry_address@,
                chain_id@,
                credential_group_id@,
                app_id@,
                semaphore_identity_commitment,
                credential_id,
                *private_key,
                issued_at,
            ),
        },
{
    let registry = match registry_from_string(registry_address.as_str()) {
        Some(a) => a,
        None => {
            return Err(ResponseError::InvalidRegistry);
        },
    };
    let chain = match parse_u64(chain_id.as_str()) {
        Some(c) => c,
        None => {
            return Err(ResponseError::InvalidChainId);
        },
    };
    if !is_valid_chain(chain) {
        return Err(ResponseError::UnsupportedChainId(chain));
    }
    let app = match parse_u256(app_id.as_str()) {
        Some(v) => v,
        None => {
            return Err(ResponseError::InvalidAppId);
        },
    };
    let group = match parse_u256(credential_group_id.as_str()) {
        Some(v) => v,
        None => {
            return Err(ResponseError::InvalidCredentialGroupId);
        },
    };
    let attestation = Attestation {
        registry,
        chain_id: chain,
        credential_group_id: group,
        credential_id,
        app_id: app,
        semaphore_identity_commitment,
        issued_at,
    };
    let message = attestation_digest(&attestation);
    let signature = match sign_message(private_key, &message) {
        Some(s) => s,
        None => {
            return Err(ResponseError::SigningFailed);
        },
    };
    let verifier_hash = encode_hex_prefixed(message.as_slice());
    let signature_text = encode_hex_prefixed(signature.as_slice());
    Ok(VerifyResponse { attestation, verifier_hash, signature: signature_text })
}

} // verus!
