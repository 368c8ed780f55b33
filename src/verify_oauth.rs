//! The OAuth verification orchestrator: a signed assertion, checked against
//! the trusted signer and the credential group's policy, becomes a signed
//! attestation.

use vstd::prelude::*;
use vstd::utf8::encode_utf8;
use crate::bytes::{be_bytes, be_value, zeros};
use crate::context::Context;
use crate::credential_id::{credential_id_from_bytes, credential_of, keccak256, keccak256_of, random_credential_id};
use crate::handlers::CustomHandler;
use crate::oauth_verification::PolicyError;
use crate::verifier_response::{
    parse_u256, response_result, response_valid, u256_from_text, verifier_response, ResponseError,
    VerifyResponse,
};

verus! {

/// The signed fields of an OAuth assertion.
#[derive(Debug, Clone)]
pub struct OauthMessage {
    pub domain: String,
    pub user_id: String,
    /// 32 big-endian bytes.
    pub score: [u8; 32],
    /// 32 big-endian bytes.
    pub timestamp: [u8; 32],
}

/// An OAuth verification request.
#[derive(Debug, Clone)]
pub struct VerifyRequest {
    pub message: OauthMessage,
    pub signature: String,
    pub semaphore_identity_commitment: String,
    pub credential_group_id: String,
    pub app_id: String,
    pub registry: String,
    pub chain_id: String,
}

/// Why an OAuth assertion yields no attestation.
#[derive(Debug, Clone, Copy, PartialEq, Eq, Structural)]
pub enum OAuthError {
    /// The signature is not a 65-byte hexadecimal signature.
    InvalidSignature,
    /// No signer can be recovered from the signature.
    RecoveryFailed,
    InvalidAppId,
    /// The assertion was not signed by the trusted signer.
    Unauthorized,
    /// No policy is defined for the credential group.
    VerificationNotFound,
    Policy(PolicyError),
    InvalidCommitment,
    Response(ResponseError),
}

/// The length of `n` bytes padded to whole 32-byte words.
pub open spec fn padded_len(n: nat) -> nat {
    ((n + 31) / 32) * 32
}

/// A 32-byte word holding a length or an offset, big-endian.
pub open spec fn len_word(n: nat) -> Seq<u8> {
    be_bytes(n, 32)
}

/// Bytes of a dynamic field: their length, then the bytes padded with zeros.
pub open spec fn dynamic_field(b: Seq<u8>) -> Seq<u8> {
    len_word(b.len()) + b + zeros((padded_len(b.len()) - b.len()) as nat)
}

/// The canonical encoding of an assertion's fields as the parameters
/// (string, string, uint256, uint256): a head of four words, where the two
/// strings stand as offsets, then the two strings.
pub open spec fn oauth_encoding(domain: Seq<u8>, user_id: Seq<u8>, score: [u8; 32], timestamp: [u8; 32]) -> Seq<u8> {
    len_word(128) + len_word(128 + 32 + padded_len(domain.len())) + score@ + timestamp@
        + dynamic_field(domain) + dynamic_field(user_id)
}

/// Relies on alloy's `SolValue::abi_encode_params` of the tuple (string,
/// string, uint256, uint256): a head of four words, where each string stands
/// as the offset of its tail, then each string as its length and its bytes
/// padded with zeros to whole words.
#[verifier::external_body]
fn abi_encode_oauth_params(message: &OauthMessage) -> (r: Vec<u8>)
    ensures
        r@ == oauth_encoding(
            encode_utf8(message.domain@),
            encode_utf8(message.user_id@),
            message.score,
            message.timestamp,
        ),
{
    alloy::sol_types::SolValue::abi_encode_params(
        &(
            message.domain.clone(),
            message.user_id.clone(),
            alloy::primitives::U256::from_be_bytes(message.score),
            alloy::primitives::U256::from_be_bytes(message.timestamp),
        ),
    )
}

/// The digest of an assertion's canonical encoding, which its signature covers.
pub fn oauth_message_digest(message: &OauthMessage) -> (r: [u8; 32])
    ensures
        r == oauth_digest(*message),
{
    let encoded = abi_encode_oauth_params(message);
    keccak256(encoded.as_slice())
}

/// The 65 bytes (r, s, v) of a signature written as text.
pub uninterp spec fn signature_from_text(text: Seq<char>) -> Option<Seq<u8>>;

/// Relies on `<Signature as FromStr>::from_str` and `Signature::as_bytes`:
/// 65 hexadecimal bytes (r, s, v), with v normalised.
#[verifier::external_body]
fn parse_signature(text: &str) -> (r: Option<[u8; 65]>)
    ensures
        r is None <==> signature_from_text(text@) is None,
        r matches Some(s) ==> signature_from_text(text@) == Some(s@),
{
    <alloy::primitives::Signature as std::str::FromStr>::from_str(text).ok().map(|s| s.as_bytes())
}

/// The address whose key made signature `sig` over the EIP-191 form of `message`.
pub uninterp spec fn recovered_signer(sig: Seq<u8>, message: Seq<u8>) -> Option<[u8; 20]>;

/// Relies on `Signature::recover_address_from_msg`, on the signature that
/// `Signature::from_raw_array` reads back from its 65 bytes: the address whose
/// key signed the EIP-191 form of `message`, if one can be recovered.
#[verifier::external_body]
fn recover_address(signature: &[u8; 65], message: &[u8]) -> (r: Option<[u8; 20]>)
    ensures
        r == recovered_signer(signature@, message@),
{
    let sig = alloy::primitives::Signature::from_raw_array(signature).ok()?;
    sig.recover_address_from_msg(message).ok().map(|a| a.0.0)
}

/// Compares two addresses byte for byte.
fn same_address(a: &[u8; 20], b: &[u8; 20]) -> (r: bool)
    ensures
        r == (a@ == b@),
{
    let mut i: usize = 0;
    while i < 20
        invariant
            i <= 20,
            forall|k: int| 0 <= k < i ==> a@[k] == b@[k],
        decreases 20 - i,
    {
        if a[i] != b[i] {
            return false;
        }
        i = i + 1;
    }
    assert(a@ =~= b@);
    true
}

/// A score as an `i32`, the largest `i32` standing for any larger score.
pub open spec fn score_i32(score: [u8; 32]) -> i32 {
    if be_value(score@) > i32::MAX {
        i32::MAX
    } else {
        be_value(score@) as i32
    }
}

fn score_value(score: &[u8; 32]) -> (r: i32)
    ensures
        r == score_i32(*score),
{
    let cap: u64 = 0x8000_0000;
    let mut acc: u64 = 0;
    let mut i: usize = 0;
    while i < 32
        invariant
            i <= 32,
            cap == 0x8000_0000,
            acc as int == if be_value(score@.subrange(0, i as int)) >= cap {
                cap as int
            } else {
                be_value(score@.subrange(0, i as int)) as int
            },
        decreases 32 - i,
    {
        let ghost pre = score@.subrange(0, i as int);
        let ghost next = score@.subrange(0, i + 1);
        assert(next.drop_last() == pre);
        assert(be_value(next) == be_value(pre) * 256 + score@[i as int]);
        assert(be_value(next) >= be_value(pre)) by (nonlinear_arith)
            requires
                be_value(next) == be_value(pre) * 256 + score@[i as int],
        ;
        if acc < cap {
            assert(acc * 256 < 0x8000_0000 * 256) by (nonlinear_arith)
                requires
                    acc < 0x8000_0000,
            ;
            let grown = acc * 256 + score[i] as u64;
            acc = if grown >= cap {
                cap
            } else {
                grown
            };
        }
        i = i + 1;
    }
    assert(score@.subrange(0, 32) == score@);
    if acc >= cap {
        i32::MAX
    } else {
        acc as i32
    }
}

/// What an assertion from signer `recovered` comes to before the attestation
/// is built: the credential identifier, or why there is none. The signer is
/// judged first, and only when `check_signer` holds: an untrusted signer is
/// unauthorized whatever the other fields hold.
pub open spec fn oauth_precheck<H: CustomHandler>(
    ctx: Context<H>,
    request: VerifyRequest,
    recovered: [u8; 20],
    check_signer: bool,
) -> Result<[u8; 32], OAuthError> {
    if check_signer && recovered@ != ctx.oauth_signer@ {
        Err(OAuthError::Unauthorized)
    } else {
        match u256_from_text(request.app_id@) {
            None => Err(OAuthError::InvalidAppId),
            Some(app) => {
                let store = ctx.oauth_verifications@;
                if !(store is Some && store->0.contains_key(request.credential_group_id@)) {
                    Err(OAuthError::VerificationNotFound)
                } else {
                    let policy = store->0[request.credential_group_id@];
                    match policy.outcome(request.message.domain@, score_i32(request.message.score)) {
                        Err(e) => Err(OAuthError::Policy(e)),
                        Ok(()) => if u256_from_text(request.semaphore_identity_commitment@) is None {
                            Err(OAuthError::InvalidCommitment)
                        } else {
                            Ok(
                                credential_of(
                                    encode_utf8(request.message.user_id@),
                                    app@,
                                    ctx.config.private_key@,
                                ),
                            )
                        },
                    }
                }
            },
        }
    }
}

/// Outside development mode an assertion whose signer is not the trusted one
/// is unauthorized, whatever its application id, policy or commitment.
pub proof fn lemma_untrusted_signer_unauthorized<H: CustomHandler>(
    ctx: Context<H>,
    request: VerifyRequest,
    recovered: [u8; 20],
    issued_at: u64,
    r: Result<VerifyResponse, OAuthError>,
)
    requires
        !ctx.dev_mode,
        recovered@ != ctx.oauth_signer@,
        oauth_response_holds(ctx, request, recovered, issued_at, r),
    ensures
        r == Err::<VerifyResponse, OAuthError>(OAuthError::Unauthorized),
{
}

/// What `oauth_response` returns for an assertion from signer `recovered`:
/// the precheck's failure, or the attestation `verifier_response` issues for
/// the credential (any credential in development mode, where it is random).
pub open spec fn oauth_response_holds<H: CustomHandler>(
    ctx: Context<H>,
    request: VerifyRequest,
    recovered: [u8; 20],
    issued_at: u64,
    r: Result<VerifyResponse, OAuthError>,
) -> bool {
    match oauth_precheck(ctx, request, recovered, !ctx.dev_mode) {
        Err(e) => r == Err::<VerifyResponse, OAuthError>(e),
        Ok(credential) => {
            let commitment = u256_from_text(request.semaphore_identity_commitment@)->0;
            if !ctx.dev_mode {
                match response_result(
                    request.registry@,
                    request.chain_id@,
                    request.credential_group_id@,
                    request.app_id@,
                    commitment,
                    credential,
                    ctx.config.private_key,
                    issued_at,
                ) {
                    Err(e) => r == Err::<VerifyResponse, OAuthError>(OAuthError::Response(e)),
                    Ok(()) => r matches Ok(resp) && response_valid(
                        resp,
                        request.registry@,
                        request.chain_id@,
                        request.credential_group_id@,
                        request.app_id@,
                        commitment,
                        credential,
                        ctx.config.private_key,
                        issued_at,
                    ),
                }
            } else {
                match r {
                    Ok(resp) => response_valid(
                        resp,
                        request.registry@,
                        request.chain_id@,
                        request.credential_group_id@,
                        request.app_id@,
                        commitment,
                        resp.attestation.credential_id,
                        ctx.config.private_key,
                        issued_at,
                    ),
                    Err(e) => match e {
                        OAuthError::Response(re) => exists|c: [u8; 32]|
                            #[trigger] response_result(
                                request.registry@,
                                request.chain_id@,
                                request.credential_group_id@,
                                request.app_id@,
                                commitment,
                                c,
                                ctx.config.private_key,
                                issued_at,
                            ) == Err::<(), ResponseError>(re),
                        _ => false,
                    },
                }
            }
        },
    }
}

/// Decides on an assertion whose signer has been recovered, and issues the
/// attestation: outside development mode the signer must be the trusted one
/// and the credential is the keyed hash of the user id; in development mode
/// the signer is not judged and the credential is random.
pub fn oauth_response<H: CustomHandler>(
    ctx: &Context<H>,
    request: &VerifyRequest,
    recovered: [u8; 20],
    issued_at: u64,
) -> (r: Result<VerifyResponse, OAuthError>)
    ensures
        oauth_response_holds(*ctx, *request, recovered, issued_at, r),
{
    if !ctx.dev_mode && !same_address(&recovered, &ctx.oauth_signer) {
        return Err(OAuthError::Unauthorized);
    }
    let app = match parse_u256(request.app_id.as_str()) {
        Some(a) => a,
        None => {
            return Err(OAuthError::InvalidAppId);
        },
    };
    let credential = if ctx.dev_mode {
        random_credential_id()
    } else {
        credential_id_from_bytes(request.message.user_id.as_str().as_bytes(), &app, &ctx.config.private_key)
    };
    let policy = match ctx.oauth_verifications.get(request.credential_group_id.as_str()) {
        Some(p) => p,
        None => {
            return Err(OAuthError::VerificationNotFound);
        },
    };
    match policy.check(request.message.domain.clone(), score_value(&request.message.score)) {
        Ok(()) => {},
        Err(e) => {
            return Err(OAuthError::Policy(e));
        },
    }
    let commitment = match parse_u256(request.semaphore_identity_commitment.as_str()) {
        Some(c) => c,
        None => {
            return Err(OAuthError::InvalidCommitment);
        },
    };
    match verifier_response(
        request.registry.clone(),
        request.chain_id.clone(),
        request.credential_group_id.clone(),
        request.app_id.clone(),
        commitment,
        credential,
        &ctx.config.private_key,
        issued_at,
    ) {
        Ok(resp) => Ok(resp),
        Err(e) => Err(OAuthError::Response(e)),
    }
}

/// The digest an assertion's signature covers.
pub open spec fn oauth_digest(message: OauthMessage) -> [u8; 32] {
    keccak256_of(
        oauth_encoding(
            encode_utf8(message.domain@),
            encode_utf8(message.user_id@),
            message.score,
            message.timestamp,
        ),
    )
}

/// Verifies a signed OAuth assertion and issues the attestation: encodes and
/// hashes the signed fields, recovers the signer, then decides as
/// `oauth_response` does.
pub fn verify_oauth<H: CustomHandler>(ctx: &Context<H>, request: &VerifyRequest, issued_at: u64) -> (r:
    Result<VerifyResponse, OAuthError>)
    ensures
        match signature_from_text(request.signature@) {
            None => r == Err::<VerifyResponse, OAuthError>(OAuthError::InvalidSignature),
            Some(sig) => match recovered_signer(sig, oauth_digest(request.message)@) {
                None => r == Err::<VerifyResponse, OAuthError>(OAuthError::RecoveryFailed),
                Some(signer) => oauth_response_holds(*ctx, *request, signer, issued_at, r),
            },
        },
{
    let message = oauth_message_digest(&request.message);
    let signature = match parse_signature(request.signature.as_str()) {
        Some(s) => s,
        None => {
            return Err(OAuthError::InvalidSignature);
        },
    };
    let recovered = match recover_address(&signature, message.as_slice()) {
        Some(a) => a,
        None => {
            return Err(OAuthError::RecoveryFailed);
        },
    };
    oauth_response(ctx, request, recovered, issued_at)
}

} // verus!
