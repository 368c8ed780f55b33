//! The transcript extractor: the authenticated ranges of the received data,
//! as text, in range order.

use vstd::prelude::*;
use vstd::slice::slice_subrange;
use vstd::utf8::{decode_utf8, valid_utf8};
use crate::text::texts_view;

verus! {

/// What a verified presentation discloses of the data the server sent.
#[derive(Debug, Clone)]
pub struct Transcript {
    /// The received bytes; only the authenticated ranges are trustworthy.
    pub received: Vec<u8>,
    /// The authenticated ranges, as start and end offsets, in order.
    pub received_authed: Vec<(usize, usize)>,
}

/// Every range lies within the data.
pub open spec fn ranges_within(data: Seq<u8>, ranges: Seq<(usize, usize)>) -> bool {
    forall|i: int| 0 <= i < ranges.len() ==> #[trigger] ranges[i].0 <= ranges[i].1 <= data.len()
}

/// The text of each range whose bytes are valid UTF-8, in range order; the
/// other ranges are left out.
pub open spec fn authed_fragments(data: Seq<u8>, ranges: Seq<(usize, usize)>) -> Seq<Seq<char>>
    decreases ranges.len(),
{
    if ranges.len() == 0 {
        Seq::empty()
    } else {
        let bytes = data.subrange(ranges.last().0 as int, ranges.last().1 as int);
        let before = authed_fragments(data, ranges.drop_last());
        if valid_utf8(bytes) {
            before.push(decode_utf8(bytes))
        } else {
            before
        }
    }
}

/// Relies on `std::str::from_utf8`: succeeds exactly on valid UTF-8, with a
/// text whose encoding is the bytes given.
#[verifier::external_body]
fn utf8_text(bytes: &[u8]) -> (r: Option<&str>)
    ensures
        r is Some <==> valid_utf8(bytes@),
        r matches Some(s) ==> s@ == decode_utf8(bytes@),
{
    std::str::from_utf8(bytes).ok()
}

impl Transcript {
    /// The authenticated ranges that are valid UTF-8, as text, in range order.
    pub fn authed_texts(&self) -> (r: Vec<String>)
        requires
            ranges_within(self.received@, self.received_authed@),
        ensures
            texts_view(r@) == authed_fragments(self.received@, self.received_authed@),
    {
        let mut out: Vec<String> = Vec::new();
        let mut i: usize = 0;
        while i < self.received_authed.len()
            invariant
                i <= self.received_authed@.len(),
                ranges_within(self.received@, self.received_authed@),
                texts_view(out@) == authed_fragments(
                    self.received@,
                    self.received_authed@.subrange(0, i as int),
                ),
            decreases self.received_authed.len() - i,
        {
            let (start, end) = self.received_authed[i];
            let bytes = slice_subrange(self.received.as_slice(), start, end);
            proof {
                let next = self.received_authed@.subrange(0, i + 1);
                assert(next.drop_last() == self.received_authed@.subrange(0, i as int));
                assert(next.last() == self.received_authed@[i as int]);
            }
            match utf8_text(bytes) {
                Some(text) => {
                    let ghost before = out@;
                    out.push(text.to_owned());
                    assert(texts_view(out@) =~= texts_view(before).push(text@));
                },
                None => {},
            }
            i = i + 1;
        }
        assert(self.received_authed@.subrange(0, i as int) == self.received_authed@);
        out
    }
}

} // verus!
