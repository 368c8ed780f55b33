//! A credential group's rule set and the validation pass over one transcript.

use vstd::prelude::*;
use crate::handlers::{delegated, CustomHandler, HandlerError, HandlersManager};
use crate::presentation_check::PresentationCheck;
use crate::text::texts_view;

verus! {

/// One verifiable credential group: where the user's identity sits, and the
/// checks that must all hold of the same transcript.
#[derive(Debug, Clone)]
pub struct Verification {
    pub id: String,
    pub host: String,
    pub user_id: PresentationCheck,
    pub checks: Vec<PresentationCheck>,
}

/// Why a transcript does not satisfy a `Verification`.
#[derive(Debug, Clone)]
pub enum CheckError {
    /// The server name differs from the expected host.
    WrongServerName,
    /// The transcript has no fragment at the user-id window.
    MissingUserId,
    /// The user-id fragment does not pass its check.
    WrongUserId,
    /// The transcript has no fragment at the window of the check at this position.
    MissingData(usize),
    /// The check at this position does not hold.
    CheckFailed(usize),
    /// The handler that a check delegates to failed.
    Handler(HandlerError),
}

/// Whether `pc` passes on `fragment`: by its handler when it names one,
/// otherwise by its declarative check.
pub open spec fn check_verdict<H: CustomHandler>(
    handlers: Map<Seq<char>, H>,
    pc: PresentationCheck,
    fragment: Seq<char>,
    app_id: [u8; 32],
) -> Result<bool, HandlerError> {
    if pc.custom_handler is Some {
        match delegated(handlers, pc, fragment, app_id) {
            Ok(out) => Ok(out.0),
            Err(e) => Err(e),
        }
    } else {
        Ok(pc.accepts(fragment))
    }
}

/// The window of `pc` exists in `transcript` and `pc` passes on it.
pub open spec fn passes<H: CustomHandler>(
    handlers: Map<Seq<char>, H>,
    pc: PresentationCheck,
    transcript: Seq<Seq<char>>,
    app_id: [u8; 32],
) -> bool {
    pc.window.id < transcript.len() && check_verdict(
        handlers,
        pc,
        transcript[pc.window.id as int],
        app_id,
    ) == Ok::<bool, HandlerError>(true)
}

/// The outcome of the checks from position `i` on, stopping at the first that fails.
pub open spec fn checks_outcome<H: CustomHandler>(
    handlers: Map<Seq<char>, H>,
    checks: Seq<PresentationCheck>,
    i: int,
    transcript: Seq<Seq<char>>,
    app_id: [u8; 32],
) -> Result<(), CheckError>
    decreases checks.len() - i,
{
    if i < 0 || i >= checks.len() {
        Ok(())
    } else if checks[i].window.id >= transcript.len() {
        Err(CheckError::MissingData(i as usize))
    } else {
        match check_verdict(handlers, checks[i], transcript[checks[i].window.id as int], app_id) {
            Ok(true) => checks_outcome(handlers, checks, i + 1, transcript, app_id),
            Ok(false) => Err(CheckError::CheckFailed(i as usize)),
            Err(e) => Err(CheckError::Handler(e)),
        }
    }
}

impl Verification {
    /// The outcome of the validation pass over `transcript` from server `server_name`.
    pub open spec fn outcome<H: CustomHandler>(
        self,
        handlers: Map<Seq<char>, H>,
        server_name: Seq<char>,
        transcript: Seq<Seq<char>>,
        app_id: [u8; 32],
    ) -> Result<(), CheckError> {
        if server_name != self.host@ {
            Err(CheckError::WrongServerName)
        } else if self.user_id.window.id >= transcript.len() {
            Err(CheckError::MissingUserId)
        } else {
            match check_verdict(
                handlers,
                self.user_id,
                transcript[self.user_id.window.id as int],
                app_id,
            ) {
                Ok(true) => checks_outcome(handlers, self.checks@, 0, transcript, app_id),
                Ok(false) => Err(CheckError::WrongUserId),
                Err(e) => Err(CheckError::Handler(e)),
            }
        }
    }

    /// Validates a transcript: the server name, then the user-id window, then
    /// each check in order, stopping at the first failure.
    pub fn check<H: CustomHandler>(
        &self,
        handlers: &HandlersManager<H>,
        server_name: String,
        transcript: &Vec<String>,
        app_id: &[u8; 32],
    ) -> (r: Result<(), CheckError>)
        ensures
            r == self.outcome(handlers@, server_name@, texts_view(transcript@), *app_id),
    {
        if server_name != self.host {
            return Err(CheckError::WrongServerName);
        }
        if self.user_id.window.id >= transcript.len() {
            return Err(CheckError::MissingUserId);
        }
        let data = &transcript[self.user_id.window.id];
        match run_check(handlers, &self.user_id, data.as_str(), app_id) {
            Ok(true) => {},
            Ok(false) => {
                return Err(CheckError::WrongUserId);
            },
            Err(e) => {
                return Err(CheckError::Handler(e));
            },
        }
        let mut i: usize = 0;
        while i < self.checks.len()
            invariant
                i <= self.checks@.len(),
                self.outcome(handlers@, server_name@, texts_view(transcript@), *app_id) == checks_outcome(
                    handlers@,
                    self.checks@,
                    i as int,
                    texts_view(transcript@),
                    *app_id,
                ),
            decreases self.checks.len() - i,
        {
            let check = &self.checks[i];
            if check.window.id >= transcript.len() {
                return Err(CheckError::MissingData(i));
            }
            let data = &transcript[check.window.id];
            match run_check(handlers, check, data.as_str(), app_id) {
                Ok(true) => {},
                Ok(false) => {
                    return Err(CheckError::CheckFailed(i));
                },
                Err(e) => {
                    return Err(CheckError::Handler(e));
                },
            }
            i = i + 1;
        }
        Ok(())
    }
}

/// Judges `pc` on `fragment`: by its handler when it names one, otherwise by
/// its declarative check.
pub fn run_check<H: CustomHandler>(
    handlers: &HandlersManager<H>,
    pc: &PresentationCheck,
    fragment: &str,
    app_id: &[u8; 32],
) -> (r: Result<bool, HandlerError>)
    ensures
        r == check_verdict(handlers@, *pc, fragment@, *app_id),
{
    if pc.custom_handler.is_some() {
        match handlers.execute(pc, fragment, app_id) {
            Ok(out) => Ok(out.0),
            Err(e) => Err(e),
        }
    } else {
        Ok(pc.check(fragment))
    }
}

/// The position of the check that an outcome reports as failing, if it reports one.
pub open spec fn failed_position(o: Result<(), CheckError>) -> Option<int> {
    match o {
        Err(CheckError::MissingData(m)) => Some(m as int),
        Err(CheckError::CheckFailed(m)) => Some(m as int),
        _ => None,
    }
}

/// The checks from position `i` on all pass exactly when their outcome is
/// success; when it reports a failing position, every check before that
/// position passes and the check there does not.
pub proof fn lemma_checks_outcome<H: CustomHandler>(
    handlers: Map<Seq<char>, H>,
    checks: Seq<PresentationCheck>,
    i: int,
    transcript: Seq<Seq<char>>,
    app_id: [u8; 32],
)
    requires
        0 <= i <= checks.len(),
        checks.len() <= usize::MAX,
    ensures
        checks_outcome(handlers, checks, i, transcript, app_id) is Ok <==> (forall|j: int|
            i <= j < checks.len() ==> passes(handlers, #[trigger] checks[j], transcript, app_id)),
        match failed_position(checks_outcome(handlers, checks, i, transcript, app_id)) {
            Some(k) => {
                &&& i <= k < checks.len()
                &&& !passes(handlers, checks[k], transcript, app_id)
                &&& forall|j: int|
                    i <= j < k ==> passes(handlers, #[trigger] checks[j], transcript, app_id)
            },
            None => true,
        },
    decreases checks.len() - i,
{
    if i < checks.len() {
        lemma_checks_outcome(handlers, checks, i + 1, transcript, app_id);
    }
}

/// A transcript satisfies a `Verification` exactly when the server name is
/// the expected host, the user-id window exists and passes its check, and
/// every check's window exists and passes; a failing check is reported at the
/// first position, in order, whose check does not pass.
pub proof fn lemma_check_succeeds_iff<H: CustomHandler>(
    v: Verification,
    handlers: Map<Seq<char>, H>,
    server_name: Seq<char>,
    transcript: Seq<Seq<char>>,
    app_id: [u8; 32],
)
    requires
        v.checks@.len() <= usize::MAX,
    ensures
        v.outcome(handlers, server_name, transcript, app_id) is Ok <==> {
            &&& server_name == v.host@
            &&& passes(handlers, v.user_id, transcript, app_id)
            &&& forall|j: int|
                0 <= j < v.checks@.len() ==> passes(handlers, #[trigger] v.checks@[j], transcript, app_id)
        },
        match failed_position(v.outcome(handlers, server_name, transcript, app_id)) {
            Some(k) => {
                &&& server_name == v.host@
                &&& passes(handlers, v.user_id, transcript, app_id)
                &&& 0 <= k < v.checks@.len()
                &&& !passes(handlers, v.checks@[k], transcript, app_id)
                &&& forall|j: int|
                    0 <= j < k ==> passes(handlers, #[trigger] v.checks@[j], transcript, app_id)
            },
            None => true,
        },
{
    lemma_checks_outcome(handlers, v.checks@, 0, transcript, app_id);
}

} // verus!
