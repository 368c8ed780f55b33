//! The registry of custom handlers: checks that the declarative rules cannot
//! express are delegated to a handler registered under a name.

use vstd::prelude::*;
use crate::named::{find_named, lemma_push_inserts, named_map};
use crate::presentation_check::PresentationCheck;

verus! {

/// What a handler decides: a success flag and, where it derives one, a
/// 32-byte credential identifier.
pub type HandlerOutput = (bool, Option<[u8; 32]>);

/// Why delegating a check to a handler failed.
#[derive(Debug, Clone)]
pub enum HandlerError {
    /// The check names no handler.
    NotCustom,
    /// No handler is registered under the name that the check gives.
    NotSet,
    /// The handler itself failed on its input.
    Failed,
}

/// A pluggable evaluator for checks that name it.
pub trait CustomHandler {
    /// What the handler decides for `check` on `fragment` for application `app_id`.
    /// `None` when the handler fails on its input.
    spec fn verdict(&self, check: PresentationCheck, fragment: Seq<char>, app_id: [u8; 32]) -> Option<
        HandlerOutput,
    >;

    fn run(&self, check: &PresentationCheck, fragment: &str, app_id: &[u8; 32]) -> (r: Option<
        HandlerOutput,
    >)
        ensures
            r == self.verdict(*check, fragment@, *app_id),
    ;
}

/// What delegating `check` on `fragment` to the handlers of `handlers` gives.
pub open spec fn delegated<H: CustomHandler>(
    handlers: Map<Seq<char>, H>,
    check: PresentationCheck,
    fragment: Seq<char>,
    app_id: [u8; 32],
) -> Result<HandlerOutput, HandlerError> {
    match check.custom_handler {
        None => Err(HandlerError::NotCustom),
        Some(name) => if handlers.contains_key(name@) {
            match handlers[name@].verdict(check, fragment, app_id) {
                Some(out) => Ok(out),
                None => Err(HandlerError::Failed),
            }
        } else {
            Err(HandlerError::NotSet)
        },
    }
}

/// Handlers by name.
pub struct HandlersManager<H> {
    entries: Vec<(String, H)>,
}

impl<H> View for HandlersManager<H> {
    type V = Map<Seq<char>, H>;

    closed spec fn view(&self) -> Map<Seq<char>, H> {
        named_map(self.entries@)
    }
}

impl<H: CustomHandler> HandlersManager<H> {
    /// A registry with no handler.
    pub fn new() -> (r: Self)
        ensures
            r@ == Map::<Seq<char>, H>::empty(),
    {
        let r = HandlersManager { entries: Vec::new() };
        assert(r@ =~= Map::<Seq<char>, H>::empty());
        r
    }

    /// Registers `handler` under `name`, replacing one registered there before.
    pub fn register(&mut self, name: String, handler: H)
        ensures
            final(self)@ == old(self)@.insert(name@, handler),
    {
        proof {
            lemma_push_inserts(self.entries@, name, handler);
        }
        self.entries.push((name, handler));
    }

    /// A handler is registered under `name`.
    pub fn contains(&self, name: &str) -> (r: bool)
        ensures
            r == self@.contains_key(name@),
    {
        self.get_handler(name).is_some()
    }

    /// The handler registered under `key`, if any.
    pub fn get_handler(&self, key: &str) -> (r: Option<&H>)
        ensures
            match r {
                Some(h) => self@.contains_key(key@) && self@[key@] == *h,
                None => !self@.contains_key(key@),
            },
    {
        match find_named(&self.entries, key) {
            Some(i) => Some(&self.entries[i].1),
            None => None,
        }
    }

    /// Delegates `check` on `fragment` to the handler that the check names.
    pub fn execute(&self, check: &PresentationCheck, fragment: &str, app_id: &[u8; 32]) -> (r: Result<
        HandlerOutput,
        HandlerError,
    >)
        ensures
            r == delegated(self@, *check, fragment@, *app_id),
    {
        match &check.custom_handler {
            None => Err(HandlerError::NotCustom),
            Some(key) => match self.get_handler(key.as_str()) {
                None => Err(HandlerError::NotSet),
                Some(handler) => match handler.run(check, fragment, app_id) {
                    Some(out) => Ok(out),
                    None => Err(HandlerError::Failed),
                },
            },
        }
    }
}

} // verus!
