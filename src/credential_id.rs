//! Credential identifiers: a keyed hash of the user's identity and the
//! application, or what a custom handler derives.

use vstd::prelude::*;
use vstd::utf8::encode_utf8;
use crate::handlers::{delegated, CustomHandler, HandlerError, HandlersManager};
use crate::presentation_check::{value_range, value_text, PresentationCheck};
use crate::text::{chars_of, texts_view};

verus! {

/// The Keccak-256 digest of `data`.
pub uninterp spec fn keccak256_of(data: Seq<u8>) -> [u8; 32];

/// Relies on `alloy_primitives::keccak256`: the 32-byte Keccak-256 digest of
/// the bytes given, a function of those bytes alone.
#[verifier::external_body]
pub fn keccak256(data: &[u8]) -> (r: [u8; 32])
    ensures
        r == keccak256_of(data@),
{
    alloy::primitives::keccak256(data).0
}

/// Relies on `rand::random`: 32 bytes from the thread-local generator.
#[verifier::external_body]
pub fn random_credential_id() -> (r: [u8; 32]) {
    rand::random::<[u8; 32]>()
}

/// The credential identifier of a user for an application: the digest of the
/// user's bytes, the application id's 32 big-endian bytes and the service key.
pub open spec fn credential_of(user_id: Seq<u8>, app_id: Seq<u8>, private_key: Seq<u8>) -> [u8; 32] {
    keccak256_of(user_id + app_id + private_key)
}

/// Hashes the user's bytes, the application id and the service key.
pub fn credential_id_from_bytes(user_id_bytes: &[u8], app_id: &[u8; 32], private_key: &[u8; 32]) -> (r:
    [u8; 32])
    ensures
        r == credential_of(user_id_bytes@, app_id@, private_key@),
{
    let mut buf: Vec<u8> = Vec::new();
    buf.extend_from_slice(user_id_bytes);
    buf.extend_from_slice(app_id.as_slice());
    buf.extend_from_slice(private_key.as_slice());
    assert(buf@ =~= user_id_bytes@ + app_id@ + private_key@);
    keccak256(buf.as_slice())
}

/// Why no credential identifier could be derived.
#[derive(Debug, Clone)]
pub enum CredentialError {
    /// The transcript has no fragment at the user-id window.
    WindowNotFound,
    /// The user-id fragment holds no value under the window's key.
    UserIdNotPresent,
    /// The handler judged the user-id fragment unsuccessful.
    UserIdCheckFailed,
    /// The handler reported success without deriving an identifier.
    NotComputed,
    /// The handler failed.
    Handler(HandlerError),
}

/// The credential identifier derived from `transcript` by the user-id check
/// `check`: from the handler's result when it names one, otherwise by hashing
/// the value text of the user-id fragment.
pub open spec fn derived_credential<H: CustomHandler>(
    handlers: Map<Seq<char>, H>,
    check: PresentationCheck,
    transcript: Seq<Seq<char>>,
    app_id: [u8; 32],
    private_key: [u8; 32],
) -> Result<[u8; 32], CredentialError> {
    if check.window.id >= transcript.len() {
        Err(CredentialError::WindowNotFound)
    } else if check.custom_handler is Some {
        match delegated(handlers, check, transcript[check.window.id as int], app_id) {
            Err(e) => Err(CredentialError::Handler(e)),
            Ok((false, _)) => Err(CredentialError::UserIdCheckFailed),
            Ok((true, None)) => Err(CredentialError::NotComputed),
            Ok((true, Some(id))) => Ok(id),
        }
    } else {
        match value_text(check.window.key@, transcript[check.window.id as int]) {
            None => Err(CredentialError::UserIdNotPresent),
            Some(v) => Ok(credential_of(encode_utf8(v), app_id@, private_key@)),
        }
    }
}

/// Derives the credential identifier for the user-id check `check`; in
/// development mode it is 32 random bytes instead.
pub fn credential_id<H: CustomHandler>(
    transcript_authed: &Vec<String>,
    check: &PresentationCheck,
    app_id: &[u8; 32],
    handlers: &HandlersManager<H>,
    private_key: &[u8; 32],
    dev_mode: bool,
) -> (r: Result<[u8; 32], CredentialError>)
    ensures
        !dev_mode ==> r == derived_credential(
            handlers@,
            *check,
            texts_view(transcript_authed@),
            *app_id,
            *private_key,
        ),
        dev_mode ==> r is Ok,
{
    if dev_mode {
        return Ok(random_credential_id());
    }
    if check.window.id >= transcript_authed.len() {
        return Err(CredentialError::WindowNotFound);
    }
    let fragment = transcript_authed[check.window.id].as_str();
    if check.custom_handler.is_some() {
        match handlers.execute(check, fragment, app_id) {
            Err(e) => Err(CredentialError::Handler(e)),
            Ok((false, _)) => Err(CredentialError::UserIdCheckFailed),
            Ok((true, None)) => Err(CredentialError::NotComputed),
            Ok((true, Some(id))) => Ok(id),
        }
    } else {
        let chars = chars_of(fragment);
        match value_range(&check.window.key, &chars) {
            None => Err(CredentialError::UserIdNotPresent),
            Some((a, b)) => {
                let value = fragment.substring_char(a, b);
                Ok(credential_id_from_bytes(value.as_bytes(), app_id, private_key))
            },
        }
    }
}

/// Outside development mode the declarative derivation depends on the user's
/// value text, the application id and the service key alone: two transcripts
/// whose user-id fragments hold the same value give the same 32-byte identifier.
pub proof fn lemma_derivation_deterministic<H: CustomHandler>(
    handlers: Map<Seq<char>, H>,
    check: PresentationCheck,
    t1: Seq<Seq<char>>,
    t2: Seq<Seq<char>>,
    app_id: [u8; 32],
    private_key: [u8; 32],
)
    requires
        check.custom_handler is None,
        check.window.id < t1.len(),
        check.window.id < t2.len(),
        value_text(check.window.key@, t1[check.window.id as int]) == value_text(
            check.window.key@,
            t2[check.window.id as int],
        ),
    ensures
        derived_credential(handlers, check, t1, app_id, private_key) == derived_credential(
            handlers,
            check,
            t2,
            app_id,
            private_key,
        ),
{
}

} // verus!
