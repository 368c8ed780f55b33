//! The proof request: a verified presentation, judged by the credential
//! group's rules, becomes a signed attestation.

use vstd::prelude::*;
use crate::context::Context;
use crate::handlers::CustomHandler;
use crate::tlsn::{proof_credential, proof_decision, verify_proof, PresentationOutput, ProofError};
use crate::transcript::{ranges_within, Transcript};
use crate::verifier_response::{
    parse_u256, response_result, response_valid, u256_from_text, verifier_response, ResponseError,
    VerifyResponse,
};

verus! {

/// A proof verification request; the presentation itself is decoded and
/// verified before the library sees what it discloses.
#[derive(Debug, Clone)]
pub struct VerifyRequest {
    /// The presentation, hexadecimal.
    pub tlsn_presentation: String,
    pub registry: String,
    pub chain_id: String,
    pub credential_group_id: String,
    pub app_id: String,
    pub semaphore_identity_commitment: String,
}

/// Why a proof request yields no attestation.
#[derive(Debug, Clone)]
pub enum VerifyError {
    /// An authenticated range lies outside the received data.
    InvalidTranscriptRanges,
    InvalidAppId,
    Proof(ProofError),
    InvalidCommitment,
    Response(ResponseError),
}

/// Every authenticated range of the transcript, if any, lies within its data.
pub open spec fn output_ranges_ok(output: PresentationOutput) -> bool {
    output.transcript matches Some(t) ==> ranges_within(t.received@, t.received_authed@)
}

fn ranges_valid(t: &Transcript) -> (r: bool)
    ensures
        r == ranges_within(t.received@, t.received_authed@),
{
    let mut i: usize = 0;
    while i < t.received_authed.len()
        invariant
            i <= t.received_authed@.len(),
            forall|k: int|
                0 <= k < i ==> #[trigger] t.received_authed@[k].0 <= t.received_authed@[k].1
                    <= t.received@.len(),
        decreases t.received_authed.len() - i,
    {
        let (start, end) = t.received_authed[i];
        if start > end || end > t.received.len() {
            return false;
        }
        i = i + 1;
    }
    true
}

/// Judges a verified presentation for a request and signs the attestation:
/// the ranges and the application id are checked first, then the proof is
/// decided, then the commitment is read and the attestation signed.
pub fn verify_tlsn<H: CustomHandler>(
    ctx: &Context<H>,
    output: &PresentationOutput,
    request: &VerifyRequest,
    issued_at: u64,
) -> (r: Result<VerifyResponse, VerifyError>)
    ensures
        !output_ranges_ok(*output) ==> r matches Err(VerifyError::InvalidTranscriptRanges),
        output_ranges_ok(*output) && u256_from_text(request.app_id@) is None ==> r matches Err(
            VerifyError::InvalidAppId,
        ),
        output_ranges_ok(*output) && !ctx.dev_mode ==> match u256_from_text(request.app_id@) {
            None => true,
            Some(app) => match proof_decision(
                *ctx,
                *output,
                request.credential_group_id@,
                app,
                proof_credential(*ctx, *output, request.credential_group_id@, app),
            ) {
                Err(e) => r == Err::<VerifyResponse, VerifyError>(VerifyError::Proof(e)),
                Ok(id) => match u256_from_text(request.semaphore_identity_commitment@) {
                    None => r matches Err(VerifyError::InvalidCommitment),
                    Some(commitment) => match response_result(
                        request.registry@,
                        request.chain_id@,
                        request.credential_group_id@,
                        request.app_id@,
                        commitment,
                        id,
                        ctx.config.private_key,
                        issued_at,
                    ) {
                        Err(e) => r == Err::<VerifyResponse, VerifyError>(VerifyError::Response(e)),
                        Ok(()) => r matches Ok(resp) && response_valid(
                            resp,
                            request.registry@,
                            request.chain_id@,
                            request.credential_group_id@,
                            request.app_id@,
                            commitment,
                            id,
                            ctx.config.private_key,
                            issued_at,
                        ),
                    },
                },
            },
        },
        output_ranges_ok(*output) && ctx.dev_mode ==> match u256_from_text(request.app_id@) {
            None => true,
            Some(app) => match r {
                Ok(resp) => {
                    &&& proof_decision(
                        *ctx,
                        *output,
                        request.credential_group_id@,
                        app,
                        Ok(resp.attestation.credential_id),
                    ) == Ok::<[u8; 32], ProofError>(resp.attestation.credential_id)
                    &&& u256_from_text(request.semaphore_identity_commitment@) is Some
                    &&& response_valid(
                        resp,
                        request.registry@,
                        request.chain_id@,
                        request.credential_group_id@,
                        request.app_id@,
                        u256_from_text(request.semaphore_identity_commitment@)->0,
                        resp.attestation.credential_id,
                        ctx.config.private_key,
                        issued_at,
                    )
                },
                Err(VerifyError::Proof(e)) => forall|c: [u8; 32]|
                    #[trigger] proof_decision(*ctx, *output, request.credential_group_id@, app, Ok(c))
                        == Err::<[u8; 32], ProofError>(e),
                Err(VerifyError::InvalidCommitment) => u256_from_text(
                    request.semaphore_identity_commitment@,
                ) is None,
                Err(VerifyError::Response(re)) => u256_from_text(
                    request.semaphore_identity_commitment@,
                ) is Some && exists|c: [u8; 32]|
                    #[trigger] response_result(
                        request.registry@,
                        request.chain_id@,
                        request.credential_group_id@,
                        request.app_id@,
                        u256_from_text(request.semaphore_identity_commitment@)->0,
                        c,
                        ctx.config.private_key,
                        issued_at,
                    ) == Err::<(), ResponseError>(re),
                Err(_) => false,
            },
        },
{
    match &output.transcript {
        Some(t) => {
            if !ranges_valid(t) {
                return Err(VerifyError::InvalidTranscriptRanges);
            }
        },
        None => {},
    }
    let app_id = match parse_u256(request.app_id.as_str()) {
        Some(a) => a,
        None => {
            return Err(VerifyError::InvalidAppId);
        },
    };
    let credential_id = match verify_proof(ctx, output, request.credential_group_id.as_str(), &app_id) {
        Ok(id) => id,
        Err(e) => {
            return Err(VerifyError::Proof(e));
        },
    };
    let commitment = match parse_u256(request.semaphore_identity_commitment.as_str()) {
        Some(c) => c,
        None => {
            return Err(VerifyError::InvalidCommitment);
        },
    };
    match verifier_response(
        request.registry.clone(),
        request.chain_id.clone(),
        request.credential_group_id.clone(),
        request.app_id.clone(),
        commitment,
        credential_id,
        &ctx.config.private_key,
        issued_at,
    ) {
        Ok(resp) => Ok(resp),
        Err(e) => Err(VerifyError::Response(e)),
    }
}

} // verus!
