//! One check of the rule model: which fragment it reads and what must hold of it.

use vstd::prelude::*;
use crate::check::{
    array_meets, int_meets, json_array_len, parse_json_array, text_meets, Check, CheckableValue,
};
use crate::text::{
    after_first, chars_of, decimal_i64, find_char, parse_i64, skip_pad_backward, skip_pad_forward,
    strip_one, strip_one_bounds, trim, trim_start, Pad,
};
use crate::window::{is_raw_key, Window};

verus! {

/// A check on one window of the transcript, or a named custom handler that
/// decides in its place.
#[derive(Debug, Clone)]
pub struct PresentationCheck {
    pub window: Window,
    pub check: Check,
    pub custom_handler: Option<String>,
}

/// What a keyed fragment must start with, once its leading spaces are gone.
pub open spec fn key_prefix(key: Seq<char>) -> Seq<char> {
    seq!['"'] + key + seq!['"', ':']
}

/// The value text of `fragment` under `key`: the whole fragment for the raw
/// key; otherwise what follows the first colon, without surrounding
/// whitespace and then without one double quote at each end, provided that
/// the fragment leads with the quoted key and a colon.
pub open spec fn value_text(key: Seq<char>, fragment: Seq<char>) -> Option<Seq<char>> {
    if is_raw_key(key) {
        Some(fragment)
    } else if key_prefix(key).is_prefix_of(trim_start(fragment, Pad::Space)) {
        match after_first(fragment, ':') {
            Some(rest) => Some(strip_one(trim(rest, Pad::Whitespace), '"')),
            None => None,
        }
    } else {
        None
    }
}

/// A value text meets `check`, judged by its parsed kind: a JSON array first,
/// then an `i64`, then plain text.
pub open spec fn value_meets(value: Seq<char>, check: Check) -> bool {
    match json_array_len(value) {
        Some(n) => array_meets(n, check),
        None => match decimal_i64(value) {
            Some(i) => int_meets(i, check),
            None => text_meets(value, check),
        },
    }
}

/// The fragment has a value text under `key` and that value meets `check`.
pub open spec fn fragment_meets(key: Seq<char>, check: Check, fragment: Seq<char>) -> bool {
    match value_text(key, fragment) {
        Some(v) => value_meets(v, check),
        None => false,
    }
}

impl PresentationCheck {
    /// The declarative check holds of `fragment`.
    pub open spec fn accepts(self, fragment: Seq<char>) -> bool {
        fragment_meets(self.window.key@, self.check, fragment)
    }

    /// Evaluates the declarative check on one fragment (a custom handler, if
    /// named, is not consulted here).
    pub fn check(&self, transcript: &str) -> (r: bool)
        ensures
            r == self.accepts(transcript@),
    {
        let chars = chars_of(transcript);
        match value_range(&self.window.key, &chars) {
            None => false,
            Some((a, b)) => {
                let value = transcript.substring_char(a, b);
                self.check_parsed(value)
            },
        }
    }

    /// Evaluates the check on a value text, by the kind it parses as.
    fn check_parsed(&self, value: &str) -> (r: bool)
        ensures
            r == value_meets(value@, self.check),
    {
        match parse_json_array(value) {
            Some(items) => self.check_value(&items),
            None => match parse_i64(value) {
                Some(n) => self.check_value(n),
                None => self.check_value(value),
            },
        }
    }

    /// Evaluates the check against one already-typed value.
    pub fn check_value<T: CheckableValue>(&self, value: T) -> (r: bool)
        ensures
            r == value.meets(self.check),
    {
        value.check_against(&self.check)
    }
}

/// The key is the raw key `-`.
pub fn key_is_raw(key: &String) -> (r: bool)
    ensures
        r == is_raw_key(key@),
{
    let k = chars_of(key.as_str());
    if k.len() == 1 && k[0] == '-' {
        assert(k@ =~= seq!['-']);
        true
    } else {
        false
    }
}

/// The characters from `start` on lead with the quoted key and a colon.
fn leads_with_key(chars: &Vec<char>, start: usize, key: &Vec<char>) -> (r: bool)
    requires
        start <= chars@.len(),
    ensures
        r == key_prefix(key@).is_prefix_of(chars@.subrange(start as int, chars@.len() as int)),
{
    let ghost rest = chars@.subrange(start as int, chars@.len() as int);
    let ghost p = key_prefix(key@);
    let n = chars.len() - start;
    let k = key.len();
    if n < 3 || n - 3 < k {
        return false;
    }
    assert(p[0] == '"');
    if chars[start] != '"' {
        assert(rest.subrange(0, p.len() as int)[0] != p[0]);
        return false;
    }
    let mut i: usize = 0;
    while i < k
        invariant
            i <= k == key@.len(),
            start + k + 3 <= chars.len(),
            p == key_prefix(key@),
            rest == chars@.subrange(start as int, chars@.len() as int),
            forall|j: int| 0 <= j < i ==> chars@[start + 1 + j] == key@[j],
        decreases k - i,
    {
        if chars[start + 1 + i] != key[i] {
            assert(p[1 + i] == key@[i as int]);
            assert(rest.subrange(0, p.len() as int)[1 + i] != p[1 + i]);
            return false;
        }
        i = i + 1;
    }
    let closing = chars[start + 1 + k] == '"';
    let colon = chars[start + 2 + k] == ':';
    assert(p[1 + k] == '"' && p[2 + k] == ':');
    if closing && colon {
        assert forall|j: int| 0 <= j < p.len() implies rest.subrange(0, p.len() as int)[j] == p[j] by {
            if 1 <= j <= k {
                assert(p[j] == key@[j - 1]);
            }
        }
        assert(rest.subrange(0, p.len() as int) =~= p);
        true
    } else {
        assert(rest.subrange(0, p.len() as int)[1 + k] != p[1 + k] || rest.subrange(
            0,
            p.len() as int,
        )[2 + k] != p[2 + k]);
        false
    }
}

/// The bounds of the value text of `chars` under `key`, if it has one.
pub fn value_range(key: &String, chars: &Vec<char>) -> (r: Option<(usize, usize)>)
    ensures
        match r {
            Some((a, b)) => a <= b <= chars@.len() && value_text(key@, chars@) == Some(
                chars@.subrange(a as int, b as int),
            ),
            None => value_text(key@, chars@) is None,
        },
{
    let len = chars.len();
    if key_is_raw(key) {
        assert(chars@.subrange(0, len as int) =~= chars@);
        return Some((0, len));
    }
    assert(chars@.subrange(0, len as int) =~= chars@);
    let t = skip_pad_forward(chars, 0, len, Pad::Space);
    let key_chars = chars_of(key.as_str());
    if !leads_with_key(chars, t, &key_chars) {
        return None;
    }
    match find_char(chars, ':') {
        None => None,
        Some(c) => {
            let a = skip_pad_forward(chars, c + 1, len, Pad::Whitespace);
            let b = skip_pad_backward(chars, a, len, Pad::Whitespace);
            let (a2, b2) = strip_one_bounds(chars, a, b, '"');
            Some((a2, b2))
        },
    }
}

} // verus!
