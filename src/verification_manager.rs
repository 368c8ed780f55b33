//! The stores of credential-group definitions: filled once, validated against
//! the handler registry, then read only.

use vstd::prelude::*;
use crate::handlers::{CustomHandler, HandlersManager};
use crate::handlers::HandlerError;
use crate::named::{find_named, lemma_named_value_is_entry, named_map};
use crate::verification::{checks_outcome, CheckError};
use crate::oauth_verification::OAuthVerification;
use crate::presentation_check::PresentationCheck;
use crate::verification::Verification;

verus! {

/// Why loading definitions into a store failed.
#[derive(Debug, Clone)]
pub enum StoreError {
    /// The store was filled before.
    AlreadyInitialized,
    /// A definition names a custom handler that is not registered.
    HandlerNotFound(String),
}

/// The handler that `pc` names, if any, is registered.
pub open spec fn handler_known<H>(handlers: Map<Seq<char>, H>, pc: PresentationCheck) -> bool {
    pc.custom_handler is Some ==> handlers.contains_key(pc.custom_handler->0@)
}

/// Every handler that `v` names is registered.
pub open spec fn handlers_known<H>(handlers: Map<Seq<char>, H>, v: Verification) -> bool {
    &&& handler_known(handlers, v.user_id)
    &&& forall|i: int| 0 <= i < v.checks@.len() ==> handler_known(handlers, #[trigger] v.checks@[i])
}

/// Every handler that the definitions name is registered.
pub open spec fn all_handlers_known<H>(
    handlers: Map<Seq<char>, H>,
    definitions: Seq<(String, Verification)>,
) -> bool {
    forall|i: int| 0 <= i < definitions.len() ==> handlers_known(handlers, #[trigger] definitions[i].1)
}

/// The `Verification` definitions by credential-group id.
pub struct VerificationManager {
    verifications: Option<Vec<(String, Verification)>>,
}

impl View for VerificationManager {
    /// `None` until the store is filled.
    type V = Option<Map<Seq<char>, Verification>>;

    closed spec fn view(&self) -> Option<Map<Seq<char>, Verification>> {
        match self.verifications {
            Some(entries) => Some(named_map(entries@)),
            None => None,
        }
    }
}

/// The handler that `pc` names, if any and if not registered.
fn unknown_handler<H: CustomHandler>(handlers: &HandlersManager<H>, pc: &PresentationCheck) -> (r:
    Option<String>)
    ensures
        r is None <==> handler_known(handlers@, *pc),
        r matches Some(n) ==> pc.custom_handler == Some(n),
{
    match &pc.custom_handler {
        Some(name) => if handlers.contains(name.as_str()) {
            None
        } else {
            Some(name.clone())
        },
        None => None,
    }
}

/// The first handler that a definition names and that is not registered.
fn first_unknown_handler<H: CustomHandler>(
    handlers: &HandlersManager<H>,
    definitions: &Vec<(String, Verification)>,
) -> (r: Option<String>)
    ensures
        r is None <==> all_handlers_known(handlers@, definitions@),
{
    let mut i: usize = 0;
    while i < definitions.len()
        invariant
            i <= definitions@.len(),
            forall|k: int| 0 <= k < i ==> handlers_known(handlers@, #[trigger] definitions@[k].1),
        decreases definitions.len() - i,
    {
        let v = &definitions[i].1;
        let found = unknown_handler(handlers, &v.user_id);
        if found.is_some() {
            return found;
        }
        let mut j: usize = 0;
        while j < v.checks.len()
            invariant
                j <= v.checks@.len(),
                i < definitions@.len(),
                *v == definitions@[i as int].1,
                handler_known(handlers@, v.user_id),
                forall|k: int| 0 <= k < j ==> handler_known(handlers@, #[trigger] v.checks@[k]),
            decreases v.checks.len() - j,
        {
            let found = unknown_handler(handlers, &v.checks[j]);
            if found.is_some() {
                return found;
            }
            j = j + 1;
        }
        i = i + 1;
    }
    None
}

impl VerificationManager {
    /// An empty, not yet filled store.
    pub fn new() -> (r: Self)
        ensures
            r@ is None,
    {
        VerificationManager { verifications: None }
    }

    /// Fills the store once, after checking that every handler the
    /// definitions name is registered; on any failure the store is left as it was.
    pub fn load<H: CustomHandler>(
        &mut self,
        definitions: Vec<(String, Verification)>,
        handlers: &HandlersManager<H>,
    ) -> (r: Result<(), StoreError>)
        ensures
            old(self)@ is Some ==> r matches Err(StoreError::AlreadyInitialized),
            r is Err ==> final(self)@ == old(self)@,
            r is Ok <==> old(self)@ is None && all_handlers_known(handlers@, definitions@),
            r is Ok ==> final(self)@ == Some(named_map(definitions@)),
            r matches Err(StoreError::HandlerNotFound(_)) ==> !all_handlers_known(
                handlers@,
                definitions@,
            ),
    {
        if self.verifications.is_some() {
            return Err(StoreError::AlreadyInitialized);
        }
        match first_unknown_handler(handlers, &definitions) {
            Some(name) => Err(StoreError::HandlerNotFound(name)),
            None => {
                self.verifications = Some(definitions);
                Ok(())
            },
        }
    }

    /// The definition of credential group `id`, if the store holds one.
    pub fn get(&self, id: &str) -> (r: Option<&Verification>)
        ensures
            match r {
                Some(v) => self@ is Some && self@->0.contains_key(id@) && self@->0[id@] == *v,
                None => !(self@ is Some && self@->0.contains_key(id@)),
            },
    {
        match &self.verifications {
            None => None,
            Some(entries) => match find_named(entries, id) {
                Some(i) => Some(&entries[i].1),
                None => None,
            },
        }
    }
}

/// The `OAuthVerification` policies by credential-group id.
pub struct OAuthVerificationManager {
    verifications: Option<Vec<(String, OAuthVerification)>>,
}

impl View for OAuthVerificationManager {
    /// `None` until the store is filled.
    type V = Option<Map<Seq<char>, OAuthVerification>>;

    closed spec fn view(&self) -> Option<Map<Seq<char>, OAuthVerification>> {
        match self.verifications {
            Some(entries) => Some(named_map(entries@)),
            None => None,
        }
    }
}

impl OAuthVerificationManager {
    /// An empty, not yet filled store.
    pub fn new() -> (r: Self)
        ensures
            r@ is None,
    {
        OAuthVerificationManager { verifications: None }
    }

    /// Fills the store once; a second load fails and leaves it as it was.
    pub fn load(&mut self, definitions: Vec<(String, OAuthVerification)>) -> (r: Result<(), StoreError>)
        ensures
            old(self)@ is Some ==> (r matches Err(StoreError::AlreadyInitialized)),
            old(self)@ is Some ==> final(self)@ == old(self)@,
            old(self)@ is None ==> r is Ok && final(self)@ == Some(named_map(definitions@)),
    {
        if self.verifications.is_some() {
            return Err(StoreError::AlreadyInitialized);
        }
        self.verifications = Some(definitions);
        Ok(())
    }

    /// The policy of credential group `id`, if the store holds one.
    pub fn get(&self, id: &str) -> (r: Option<&OAuthVerification>)
        ensures
            match r {
                Some(v) => self@ is Some && self@->0.contains_key(id@) && self@->0[id@] == *v,
                None => !(self@ is Some && self@->0.contains_key(id@)),
            },
    {
        match &self.verifications {
            None => None,
            Some(entries) => match find_named(entries, id) {
                Some(i) => Some(&entries[i].1),
                None => None,
            },
        }
    }
}

/// When every handler that `checks` name is registered, their outcome never
/// reports an unregistered handler.
proof fn lemma_known_checks_never_unset<H: CustomHandler>(
    handlers: Map<Seq<char>, H>,
    checks: Seq<PresentationCheck>,
    i: int,
    transcript: Seq<Seq<char>>,
    app_id: [u8; 32],
)
    requires
        forall|k: int| 0 <= k < checks.len() ==> handler_known(handlers, #[trigger] checks[k]),
    ensures
        checks_outcome(handlers, checks, i, transcript, app_id) != Err::<(), CheckError>(
            CheckError::Handler(HandlerError::NotSet),
        ),
    decreases checks.len() - i,
{
    if 0 <= i < checks.len() {
        assert(handler_known(handlers, checks[i]));
        lemma_known_checks_never_unset(handlers, checks, i + 1, transcript, app_id);
    }
}

/// A `Verification` from a store that loaded against a registry never fails,
/// with that registry, because a handler it names is not registered: that
/// failure is caught when the store loads.
pub proof fn lemma_loaded_verification_finds_handlers<H: CustomHandler>(
    handlers: Map<Seq<char>, H>,
    definitions: Seq<(String, Verification)>,
    id: Seq<char>,
    server_name: Seq<char>,
    transcript: Seq<Seq<char>>,
    app_id: [u8; 32],
)
    requires
        all_handlers_known(handlers, definitions),
        named_map(definitions).contains_key(id),
    ensures
        named_map(definitions)[id].outcome(handlers, server_name, transcript, app_id) != Err::<
            (),
            CheckError,
        >(CheckError::Handler(HandlerError::NotSet)),
{
    lemma_named_value_is_entry(definitions, id);
    let i = choose|i: int|
        0 <= i < definitions.len() && #[trigger] definitions[i].1 == named_map(definitions)[id];
    assert(handlers_known(handlers, definitions[i].1));
    let v = named_map(definitions)[id];
    lemma_known_checks_never_unset(handlers, v.checks@, 0, transcript, app_id);
}

} // verus!
