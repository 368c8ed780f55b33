//! The acceptance policy for a signed OAuth-style assertion.

use vstd::prelude::*;

verus! {

/// A credential group's policy for OAuth assertions: the expected domain and
/// the least score accepted.
#[derive(Debug, Clone)]
pub struct OAuthVerification {
    pub id: String,
    pub domain: String,
    pub score: i32,
}

/// Why an assertion does not meet an `OAuthVerification`.
#[derive(Debug, Clone, Copy, PartialEq, Eq, Structural)]
pub enum PolicyError {
    /// The assertion's score is below the policy's.
    LowScore,
    /// The assertion's domain differs from the policy's.
    WrongDomain,
}

impl OAuthVerification {
    /// The outcome of applying this policy: the score is judged first, then the domain.
    pub open spec fn outcome(self, domain: Seq<char>, score: i32) -> Result<(), PolicyError> {
        if score < self.score {
            Err(PolicyError::LowScore)
        } else if domain != self.domain@ {
            Err(PolicyError::WrongDomain)
        } else {
            Ok(())
        }
    }

    /// Applies this policy to an assertion's domain and score.
    pub fn check(&self, domain: String, score: i32) -> (r: Result<(), PolicyError>)
        ensures
            r == self.outcome(domain@, score),
    {
        if score < self.score {
            return Err(PolicyError::LowScore);
        }
        if domain != self.domain {
            return Err(PolicyError::WrongDomain);
        }
        Ok(())
    }
}

/// An assertion whose score is below the policy's fails on its score,
/// whatever its domain.
pub proof fn lemma_low_score_rejected(policy: OAuthVerification, domain: Seq<char>, score: i32)
    requires
        score < policy.score,
    ensures
        policy.outcome(domain, score) == Err::<(), PolicyError>(PolicyError::LowScore),
{
}

} // verus!
