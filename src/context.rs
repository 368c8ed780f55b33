//! Everything a request handler reads, built once at startup.

use vstd::prelude::*;
use crate::config::Config;
use crate::handlers::HandlersManager;
use crate::verification_manager::{OAuthVerificationManager, VerificationManager};

verus! {

/// The service's state, shared read-only by all requests once built.
pub struct Context<H> {
    pub config: Config,
    pub handlers: HandlersManager<H>,
    pub verifications: VerificationManager,
    pub oauth_verifications: OAuthVerificationManager,
    /// The only address trusted to sign OAuth assertions.
    pub oauth_signer: [u8; 20],
    /// Development mode: credential identifiers are random and the OAuth
    /// signer is not checked.
    pub dev_mode: bool,
}

} // verus!
