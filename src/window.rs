//! Where in the transcript a check looks.

use vstd::prelude::*;

verus! {

/// A position in the ordered fragment sequence and the key that the fragment
/// there must lead with; the key `-` takes the whole fragment as the value.
#[derive(Debug, Clone)]
pub struct Window {
    pub id: usize,
    pub key: String,
}

/// The key that takes the whole fragment as the value.
pub open spec fn is_raw_key(key: Seq<char>) -> bool {
    key == seq!['-']
}

} // verus!
