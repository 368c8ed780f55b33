//! Verifier-side trust decisions for attested TLS transcripts and signed
//! OAuth assertions: the rule engine, the credential derivation and the
//! attestation message.

pub mod bytes;
pub mod hex;
pub mod named;
pub mod text;
pub mod transcript;
pub mod check;
pub mod window;
pub mod presentation_check;
pub mod handlers;
pub mod verification;
pub mod oauth_verification;
pub mod credential_id;
pub mod verification_manager;
pub mod config;
pub mod context;
pub mod tlsn;
pub mod verifier_response;
pub mod verify_oauth;
pub mod verify_tlsn;
pub mod custom_handlers;
