//! Character-level helpers used by the fragment grammar.

use vstd::prelude::*;
use vstd::std_specs::iter::IteratorSpec;

verus! {

broadcast use vstd::string::group_string_axioms;

/// The sets of padding characters that the fragment grammar strips.
#[derive(Clone, Copy, Debug, PartialEq, Eq, Structural)]
pub enum Pad {
    /// The ASCII space only.
    Space,
    /// The double quote.
    Quote,
    /// Unicode `White_Space`, the characters `char::is_whitespace` accepts.
    Whitespace,
}

/// The characters with the Unicode `White_Space` property.
pub open spec fn is_unicode_whitespace(c: char) -> bool {
    ('\u{9}' <= c && c <= '\u{D}') || c == ' ' || c == '\u{85}' || c == '\u{A0}' || c == '\u{1680}'
        || ('\u{2000}' <= c && c <= '\u{200A}') || c == '\u{2028}' || c == '\u{2029}' || c
        == '\u{202F}' || c == '\u{205F}' || c == '\u{3000}'
}

pub open spec fn is_pad(pad: Pad, c: char) -> bool {
    match pad {
        Pad::Space => c == ' ',
        Pad::Quote => c == '"',
        Pad::Whitespace => is_unicode_whitespace(c),
    }
}

/// `s` without its leading characters of `pad`.
pub open spec fn trim_start(s: Seq<char>, pad: Pad) -> Seq<char>
    decreases s.len(),
{
    if s.len() > 0 && is_pad(pad, s[0]) {
        trim_start(s.drop_first(), pad)
    } else {
        s
    }
}

/// `s` without its trailing characters of `pad`.
pub open spec fn trim_end(s: Seq<char>, pad: Pad) -> Seq<char>
    decreases s.len(),
{
    if s.len() > 0 && is_pad(pad, s.last()) {
        trim_end(s.drop_last(), pad)
    } else {
        s
    }
}

/// `s` without its surrounding characters of `pad`.
pub open spec fn trim(s: Seq<char>, pad: Pad) -> Seq<char> {
    trim_end(trim_start(s, pad), pad)
}

/// `s` without one leading and one trailing `c`, where it has them.
pub open spec fn strip_one(s: Seq<char>, c: char) -> Seq<char> {
    let front = if s.len() > 0 && s[0] == c {
        s.drop_first()
    } else {
        s
    };
    if front.len() > 0 && front.last() == c {
        front.drop_last()
    } else {
        front
    }
}

/// What follows the first occurrence of `c` in `s`; `None` when `c` does not occur.
pub open spec fn after_first(s: Seq<char>, c: char) -> Option<Seq<char>>
    decreases s.len(),
{
    if s.len() == 0 {
        None
    } else if s[0] == c {
        Some(s.drop_first())
    } else {
        after_first(s.drop_first(), c)
    }
}

/// `i` is the first position of `c` in `s`.
pub open spec fn is_first_index(s: Seq<char>, c: char, i: int) -> bool {
    0 <= i < s.len() && s[i] == c && forall|j: int| 0 <= j < i ==> s[j] != c
}

/// `s` split at the first `c`, without it: what comes before and what follows.
pub open spec fn split_once(s: Seq<char>, c: char) -> Option<(Seq<char>, Seq<char>)> {
    if exists|i: int| is_first_index(s, c, i) {
        let i = choose|i: int| is_first_index(s, c, i);
        Some((s.subrange(0, i), s.subrange(i + 1, s.len() as int)))
    } else {
        None
    }
}

/// `p` occurs in `s` as a contiguous run.
pub open spec fn is_infix(p: Seq<char>, s: Seq<char>) -> bool {
    exists|i: int| 0 <= i && i + p.len() <= s.len() && #[trigger] s.subrange(i, i + p.len()) == p
}

pub open spec fn is_decimal_digit(c: char) -> bool {
    '0' <= c && c <= '9'
}

/// The value of a run of decimal digits.
pub open spec fn digits_value(d: Seq<char>) -> int
    decreases d.len(),
{
    if d.len() == 0 {
        0
    } else {
        digits_value(d.drop_last()) * 10 + ((d.last() as u32) - ('0' as u32))
    }
}

/// The `i64` that `s` writes in decimal: an optional sign, then one or more
/// digits, within range.
pub open spec fn decimal_i64(s: Seq<char>) -> Option<i64> {
    let signed = s.len() > 0 && (s[0] == '-' || s[0] == '+');
    let digits = if signed { s.drop_first() } else { s };
    let magnitude = digits_value(digits);
    let value = if signed && s[0] == '-' { -magnitude } else { magnitude };
    if digits.len() > 0 && (forall|i: int| 0 <= i < digits.len() ==> is_decimal_digit(#[trigger] digits[i]))
        && i64::MIN <= value <= i64::MAX {
        Some(value as i64)
    } else {
        None
    }
}

/// The characters of each text.
pub open spec fn texts_view(texts: Seq<String>) -> Seq<Seq<char>> {
    texts.map_values(|s: String| s@)
}

pub fn is_pad_char(pad: Pad, c: char) -> (r: bool)
    ensures
        r == is_pad(pad, c),
{
    match pad {
        Pad::Space => c == ' ',
        Pad::Quote => c == '"',
        Pad::Whitespace => ('\u{9}' <= c && c <= '\u{D}') || c == ' ' || c == '\u{85}' || c
            == '\u{A0}' || c == '\u{1680}' || ('\u{2000}' <= c && c <= '\u{200A}') || c
            == '\u{2028}' || c == '\u{2029}' || c == '\u{202F}' || c == '\u{205F}' || c
            == '\u{3000}',
    }
}

/// The bounds of `strip_one(chars[lo..hi], c)`.
pub fn strip_one_bounds(chars: &Vec<char>, lo: usize, hi: usize, c: char) -> (r: (usize, usize))
    requires
        lo <= hi <= chars@.len(),
    ensures
        lo <= r.0 <= r.1 <= hi,
        chars@.subrange(r.0 as int, r.1 as int) == strip_one(chars@.subrange(lo as int, hi as int), c),
{
    let ghost s = chars@.subrange(lo as int, hi as int);
    let a = if lo < hi && chars[lo] == c {
        assert(s.drop_first() == chars@.subrange(lo + 1, hi as int));
        lo + 1
    } else {
        lo
    };
    let ghost front = chars@.subrange(a as int, hi as int);
    let b = if a < hi && chars[hi - 1] == c {
        assert(front.drop_last() == chars@.subrange(a as int, hi - 1));
        hi - 1
    } else {
        hi
    };
    (a, b)
}

/// The characters of `s`, in order.
pub fn chars_of(s: &str) -> (r: Vec<char>)
    ensures
        r@ == s@,
{
    let mut it = s.chars();
    let mut out: Vec<char> = Vec::new();
    loop
        invariant
            out@ + it.remaining() == s@,
            it.decrease() is Some,
        ensures
            out@ == s@,
        decreases it.decrease()->0,
    {
        match it.next() {
            Some(c) => {
                out.push(c);
            },
            None => {
                assert(out@ + it.remaining() =~= out@);
                break;
            },
        }
    }
    out
}

/// The first index at or after `lo` and before `hi` whose character is not padding.
pub fn skip_pad_forward(chars: &Vec<char>, lo: usize, hi: usize, pad: Pad) -> (r: usize)
    requires
        lo <= hi <= chars@.len(),
    ensures
        lo <= r <= hi,
        trim_start(chars@.subrange(lo as int, hi as int), pad) == chars@.subrange(r as int, hi as int),
{
    let mut i = lo;
    while i < hi && is_pad_char(pad, chars[i])
        invariant
            lo <= i <= hi <= chars@.len(),
            trim_start(chars@.subrange(lo as int, hi as int), pad) == trim_start(
                chars@.subrange(i as int, hi as int),
                pad,
            ),
        decreases hi - i,
    {
        assert(chars@.subrange(i as int, hi as int).drop_first() == chars@.subrange(
            i + 1,
            hi as int,
        ));
        i = i + 1;
    }
    i
}

/// The last index after `lo` and at or before `hi` whose preceding character is not padding.
pub fn skip_pad_backward(chars: &Vec<char>, lo: usize, hi: usize, pad: Pad) -> (r: usize)
    requires
        lo <= hi <= chars@.len(),
    ensures
        lo <= r <= hi,
        trim_end(chars@.subrange(lo as int, hi as int), pad) == chars@.subrange(lo as int, r as int),
{
    let mut j = hi;
    while j > lo && is_pad_char(pad, chars[j - 1])
        invariant
            lo <= j <= hi <= chars@.len(),
            trim_end(chars@.subrange(lo as int, hi as int), pad) == trim_end(
                chars@.subrange(lo as int, j as int),
                pad,
            ),
        decreases j - lo,
    {
        assert(chars@.subrange(lo as int, j as int).drop_last() == chars@.subrange(
            lo as int,
            j - 1,
        ));
        j = j - 1;
    }
    j
}

/// The index of the first `c` in `chars`, if any.
pub fn find_char(chars: &Vec<char>, c: char) -> (r: Option<usize>)
    ensures
        match r {
            Some(i) => i < chars@.len() && after_first(chars@, c) == Some(
                chars@.subrange(i + 1, chars@.len() as int),
            ) && is_first_index(chars@, c, i as int),
            None => after_first(chars@, c) is None && forall|j: int|
                0 <= j < chars@.len() ==> chars@[j] != c,
        },
{
    let mut i: usize = 0;
    assert(chars@.subrange(0, chars@.len() as int) == chars@);
    while i < chars.len()
        invariant
            i <= chars@.len(),
            after_first(chars@, c) == after_first(chars@.subrange(i as int, chars@.len() as int), c),
            forall|j: int| 0 <= j < i ==> chars@[j] != c,
        decreases chars.len() - i,
    {
        let ghost rest = chars@.subrange(i as int, chars@.len() as int);
        assert(rest.drop_first() == chars@.subrange(i + 1, chars@.len() as int));
        if chars[i] == c {
            return Some(i);
        }
        i = i + 1;
    }
    None
}

/// The text split at its first `c`, as bounds: the key ends at the first
/// index, the value starts after it.
pub fn split_once_at(chars: &Vec<char>, c: char) -> (r: Option<usize>)
    ensures
        match r {
            Some(i) => i < chars@.len() && split_once(chars@, c) == Some(
                (chars@.subrange(0, i as int), chars@.subrange(i + 1, chars@.len() as int)),
            ),
            None => split_once(chars@, c) is None,
        },
{
    let r = find_char(chars, c);
    proof {
        match r {
            Some(i) => {
                let k = choose|k: int| is_first_index(chars@, c, k);
                assert(is_first_index(chars@, c, k));
                if k < i {
                    assert(chars@[k] != c);
                } else if k > i {
                    assert(chars@[i as int] != c);
                }
            },
            None => {
                assert(!exists|k: int| is_first_index(chars@, c, k));
            },
        }
    }
    r
}

/// What follows the first colon of `fragment`, provided that what precedes it
/// is `quoted_key` once surrounding whitespace is gone.
pub open spec fn keyed_value_of(fragment: Seq<char>, quoted_key: Seq<char>) -> Option<Seq<char>> {
    match split_once(fragment, ':') {
        None => None,
        Some((key, value)) => if trim(key, Pad::Whitespace) == quoted_key {
            Some(value)
        } else {
            None
        },
    }
}

fn range_equals(chars: &Vec<char>, lo: usize, hi: usize, expected: &Vec<char>) -> (r: bool)
    requires
        lo <= hi <= chars@.len(),
    ensures
        r == (chars@.subrange(lo as int, hi as int) == expected@),
{
    if hi - lo != expected.len() {
        return false;
    }
    let mut i: usize = 0;
    while i < expected.len()
        invariant
            i <= expected@.len() == hi - lo,
            hi <= chars@.len(),
            forall|k: int| 0 <= k < i ==> chars@[lo + k] == expected@[k],
        decreases expected.len() - i,
    {
        if chars[lo + i] != expected[i] {
            assert(chars@.subrange(lo as int, hi as int)[i as int] != expected@[i as int]);
            return false;
        }
        i = i + 1;
    }
    assert(chars@.subrange(lo as int, hi as int) =~= expected@);
    true
}

/// The value text of a `"key": value` fragment whose trimmed key is `quoted_key`.
pub fn keyed_value<'a>(fragment: &'a str, quoted_key: &str) -> (r: Option<&'a str>)
    ensures
        match r {
            Some(v) => keyed_value_of(fragment@, quoted_key@) == Some(v@),
            None => keyed_value_of(fragment@, quoted_key@) is None,
        },
{
    let chars = chars_of(fragment);
    let len = chars.len();
    let expected = chars_of(quoted_key);
    let colon = match split_once_at(&chars, ':') {
        Some(i) => i,
        None => {
            return None;
        },
    };
    let ks = skip_pad_forward(&chars, 0, colon, Pad::Whitespace);
    let ke = skip_pad_backward(&chars, ks, colon, Pad::Whitespace);
    if !range_equals(&chars, ks, ke, &expected) {
        return None;
    }
    Some(fragment.substring_char(colon + 1, len))
}

/// Relies on `str::contains` with a `&str` pattern: true exactly when the
/// pattern occurs in the text.
#[verifier::external_body]
pub fn text_contains(text: &str, pattern: &str) -> (r: bool)
    ensures
        r == is_infix(pattern@, text@),
{
    text.contains(pattern)
}

/// Relies on `<i64 as FromStr>::from_str`: an optional `+` or `-`, then one or
/// more ASCII digits, and a value within `i64`'s range.
#[verifier::external_body]
pub fn parse_i64(text: &str) -> (r: Option<i64>)
    ensures
        r == decimal_i64(text@),
{
    text.parse::<i64>().ok()
}

} // verus!
