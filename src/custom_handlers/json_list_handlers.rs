//! The parts of the device-list and ride-list handlers that judge already
//! decoded values: the device credential and the count of completed rides.

use vstd::prelude::*;
use vstd::utf8::encode_utf8;
use crate::credential_id::{keccak256, keccak256_of};
use crate::handlers::HandlerOutput;
use crate::text::{is_infix, text_contains};

verus! {

/// The credential of a device: the digest of its id's bytes and the salt.
pub open spec fn device_credential_of(device_id: Seq<u8>, salt: Seq<u8>) -> [u8; 32] {
    keccak256_of(device_id + salt)
}

/// Hashes a device id with the salt.
pub fn device_credential(device_id: &str, salt: &[u8]) -> (r: [u8; 32])
    ensures
        r == device_credential_of(encode_utf8(device_id@), salt@),
{
    let mut buf: Vec<u8> = Vec::new();
    buf.extend_from_slice(device_id.as_bytes());
    buf.extend_from_slice(salt);
    assert(buf@ =~= encode_utf8(device_id@) + salt@);
    keccak256(buf.as_slice())
}

/// What the device-list handler decides on the decoded device ids: the
/// salted credential of the first device; failure when the list is empty.
pub open spec fn devices_verdict_of(device_ids: Seq<Seq<char>>, salt: Seq<u8>) -> Option<HandlerOutput> {
    if device_ids.len() == 0 {
        None
    } else {
        Some((true, Some(device_credential_of(encode_utf8(device_ids[0]), salt))))
    }
}

/// Judges a decoded device list.
pub fn devices_verdict(device_ids: &Vec<String>, salt: &[u8]) -> (r: Option<HandlerOutput>)
    ensures
        r == devices_verdict_of(device_ids@.map_values(|d: String| d@), salt@),
{
    if device_ids.len() == 0 {
        None
    } else {
        Some((true, Some(device_credential(device_ids[0].as_str(), salt))))
    }
}

/// The least number of completed rides that passes.
pub const MIN_COMPLETED_RIDES: usize = 5;

/// The number of ride descriptions, among the first `n`, that do not mention a cancellation.
pub open spec fn completed_rides(descriptions: Seq<Seq<char>>, n: int) -> nat
    decreases n,
{
    if n <= 0 {
        0
    } else {
        completed_rides(descriptions, n - 1) + if is_infix(
            seq!['C', 'a', 'n', 'c', 'e', 'l', 'e', 'd'],
            descriptions[n - 1],
        ) {
            0nat
        } else {
            1nat
        }
    }
}

/// Passes when at least `MIN_COMPLETED_RIDES` rides were not cancelled.
pub fn rides_verdict(descriptions: &Vec<String>) -> (r: HandlerOutput)
    ensures
        r == (completed_rides(descriptions@.map_values(|d: String| d@), descriptions@.len() as int)
            >= MIN_COMPLETED_RIDES, None::<[u8; 32]>),
{
    let ghost views = descriptions@.map_values(|d: String| d@);
    let cancelled = "Canceled";
    proof {
        reveal_strlit("Canceled");
    }
    assert(cancelled@ =~= seq!['C', 'a', 'n', 'c', 'e', 'l', 'e', 'd']);
    let mut count: usize = 0;
    let mut i: usize = 0;
    while i < descriptions.len()
        invariant
            i <= descriptions@.len(),
            views == descriptions@.map_values(|d: String| d@),
            cancelled@ == seq!['C', 'a', 'n', 'c', 'e', 'l', 'e', 'd'],
            count == completed_rides(views, i as int),
            count <= i,
        decreases descriptions.len() - i,
    {
        if !text_contains(descriptions[i].as_str(), cancelled) {
            count = count + 1;
        }
        i = i + 1;
    }
    (count >= MIN_COMPLETED_RIDES, None)
}

} // verus!
