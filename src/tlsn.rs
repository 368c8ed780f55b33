//! The proof verification orchestrator: from a verified presentation's output
//! to a credential identifier.

use vstd::prelude::*;
use crate::config::{keys_equal, same_key, NotaryKey};
use crate::context::Context;
use crate::credential_id::{credential_id, derived_credential, CredentialError};
use crate::handlers::CustomHandler;
use crate::transcript::{authed_fragments, ranges_within, Transcript};
use crate::verification::CheckError;

verus! {

/// What verifying a presentation yields that the decision reads.
#[derive(Debug, Clone)]
pub struct PresentationOutput {
    /// The key of the notary that signed the attestation.
    pub notary_key: NotaryKey,
    pub server_name: Option<String>,
    pub transcript: Option<Transcript>,
}

/// Why a presentation does not yield a credential.
#[derive(Debug, Clone)]
pub enum ProofError {
    /// The presentation discloses no server name.
    ServerNameNotSet,
    /// The presentation discloses no transcript.
    TranscriptNotProvided,
    /// No `Verification` is defined for the credential group.
    VerificationNotFound,
    /// The credential identifier could not be derived.
    Credential(CredentialError),
    /// The attestation was signed by a notary other than the trusted one.
    InvalidNotaryKey,
    /// The transcript does not satisfy the `Verification`.
    Check(CheckError),
}

/// The decision on a presentation, given what credential derivation gave.
pub open spec fn proof_decision<H: CustomHandler>(
    ctx: Context<H>,
    output: PresentationOutput,
    credential_group_id: Seq<char>,
    app_id: [u8; 32],
    credential: Result<[u8; 32], CredentialError>,
) -> Result<[u8; 32], ProofError> {
    match output.server_name {
        None => Err(ProofError::ServerNameNotSet),
        Some(server_name) => match output.transcript {
            None => Err(ProofError::TranscriptNotProvided),
            Some(t) => {
                let fragments = authed_fragments(t.received@, t.received_authed@);
                let store = ctx.verifications@;
                if !(store is Some && store->0.contains_key(credential_group_id)) {
                    Err(ProofError::VerificationNotFound)
                } else {
                    let v = store->0[credential_group_id];
                    match credential {
                        Err(e) => Err(ProofError::Credential(e)),
                        Ok(id) => if !same_key(output.notary_key, ctx.config.notary_key) {
                            Err(ProofError::InvalidNotaryKey)
                        } else {
                            match v.outcome(ctx.handlers@, server_name@, fragments, app_id) {
                                Err(e) => Err(ProofError::Check(e)),
                                Ok(()) => Ok(id),
                            }
                        },
                    }
                }
            },
        },
    }
}

/// What credential derivation gives outside development mode for `output`.
pub open spec fn proof_credential<H: CustomHandler>(
    ctx: Context<H>,
    output: PresentationOutput,
    credential_group_id: Seq<char>,
    app_id: [u8; 32],
) -> Result<[u8; 32], CredentialError> {
    let t = output.transcript->0;
    let v = ctx.verifications@->0[credential_group_id];
    derived_credential(
        ctx.handlers@,
        v.user_id,
        authed_fragments(t.received@, t.received_authed@),
        app_id,
        ctx.config.private_key,
    )
}

/// Decides on a verified presentation: extracts the authenticated fragments,
/// resolves the credential group's `Verification`, derives the credential
/// identifier, checks the notary key, then validates the transcript.
pub fn verify_proof<H: CustomHandler>(
    ctx: &Context<H>,
    output: &PresentationOutput,
    credential_group_id: &str,
    app_id: &[u8; 32],
) -> (r: Result<[u8; 32], ProofError>)
    requires
        output.transcript matches Some(t) ==> ranges_within(t.received@, t.received_authed@),
    ensures
        !ctx.dev_mode ==> r == proof_decision(
            *ctx,
            *output,
            credential_group_id@,
            *app_id,
            proof_credential(*ctx, *output, credential_group_id@, *app_id),
        ),
        ctx.dev_mode ==> match r {
            Ok(id) => proof_decision(*ctx, *output, credential_group_id@, *app_id, Ok(id)) == Ok::<
                [u8; 32],
                ProofError,
            >(id),
            Err(e) => forall|c: [u8; 32]|
                proof_decision(*ctx, *output, credential_group_id@, *app_id, Ok(c)) == Err::<
                    [u8; 32],
                    ProofError,
                >(e),
        },
{
    let server_name = match &output.server_name {
        Some(s) => s,
        None => {
            return Err(ProofError::ServerNameNotSet);
        },
    };
    let transcript = match &output.transcript {
        Some(t) => t,
        None => {
            return Err(ProofError::TranscriptNotProvided);
        },
    };
    let fragments = transcript.authed_texts();
    let verification = match ctx.verifications.get(credential_group_id) {
        Some(v) => v,
        None => {
            return Err(ProofError::VerificationNotFound);
        },
    };
    let id = match credential_id(
        &fragments,
        &verification.user_id,
        app_id,
        &ctx.handlers,
        &ctx.config.private_key,
        ctx.dev_mode,
    ) {
        Ok(id) => id,
        Err(e) => {
            return Err(ProofError::Credential(e));
        },
    };
    if !keys_equal(&output.notary_key, &ctx.config.notary_key) {
        return Err(ProofError::InvalidNotaryKey);
    }
    match verification.check(&ctx.handlers, server_name.clone(), &fragments, app_id) {
        Ok(()) => Ok(id),
        Err(e) => Err(ProofError::Check(e)),
    }
}

} // verus!
