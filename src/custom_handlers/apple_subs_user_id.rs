//! Derives the credential from an Apple subscription id fragment,
//! `"subscriptionId": "<id>"`.

use vstd::prelude::*;
use vstd::utf8::encode_utf8;
use crate::credential_id::{credential_id_from_bytes, credential_of};
use crate::handlers::{CustomHandler, HandlerOutput};
use crate::presentation_check::PresentationCheck;
use crate::text::{chars_of, keyed_value, keyed_value_of, skip_pad_backward, skip_pad_forward, trim, Pad};

verus! {

/// The quoted key the fragment must lead with.
pub open spec fn subscription_key() -> Seq<char> {
    seq!['"', 's', 'u', 'b', 's', 'c', 'r', 'i', 'p', 't', 'i', 'o', 'n', 'I', 'd', '"']
}

/// What the handler decides on `fragment`: the credential of the subscription
/// id for the application, or failure when the fragment is not
/// `"subscriptionId": <id>`.
pub open spec fn subscription_verdict(fragment: Seq<char>, app_id: [u8; 32], private_key: [u8; 32]) -> Option<
    HandlerOutput,
> {
    match keyed_value_of(fragment, subscription_key()) {
        None => None,
        Some(value) => {
            let id = trim(trim(value, Pad::Whitespace), Pad::Quote);
            Some((true, Some(credential_of(encode_utf8(id), app_id@, private_key@))))
        },
    }
}

/// Judges a subscription-id fragment and derives its credential.
pub fn handler(_check: &PresentationCheck, transcript: &str, app_id: &[u8; 32], private_key: &[u8; 32]) -> (r:
    Option<HandlerOutput>)
    ensures
        r == subscription_verdict(transcript@, *app_id, *private_key),
{
    let key = "\"subscriptionId\"";
    proof {
        reveal_strlit("\"subscriptionId\"");
    }
    assert(key@ =~= subscription_key());
    let value = match keyed_value(transcript, key) {
        Some(v) => v,
        None => {
            return None;
        },
    };
    let chars = chars_of(value);
    let len = chars.len();
    assert(chars@.subrange(0, len as int) =~= chars@);
    let a = skip_pad_forward(&chars, 0, len, Pad::Whitespace);
    let b = skip_pad_backward(&chars, a, len, Pad::Whitespace);
    let a2 = skip_pad_forward(&chars, a, b, Pad::Quote);
    let b2 = skip_pad_backward(&chars, a2, b, Pad::Quote);
    let id = value.substring_char(a2, b2);
    Some((true, Some(credential_id_from_bytes(id.as_bytes(), app_id, private_key))))
}

/// The subscription-id handler, bound to the service key.
pub struct AppleSubsUserId {
    pub private_key: [u8; 32],
}

impl CustomHandler for AppleSubsUserId {
    open spec fn verdict(&self, check: PresentationCheck, fragment: Seq<char>, app_id: [u8; 32]) -> Option<
        HandlerOutput,
    > {
        subscription_verdict(fragment, app_id, self.private_key)
    }

    fn run(&self, check: &PresentationCheck, fragment: &str, app_id: &[u8; 32]) -> (r: Option<
        HandlerOutput,
    >) {
        handler(check, fragment, app_id, &self.private_key)
    }
}

} // verus!
