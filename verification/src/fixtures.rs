//! The fixture corpus metadata types.

use vstd::prelude::*;

verus! {

pub const CRATE_ID: &'static str = "valdi_rust_fixtures";

pub const OWNER_PR: &'static str = "PR04";

pub const PUBLIC_API_BOUNDARY: &'static str = "rust_fixture_corpus_test_metadata";

/// The fixtures crate identifier.
pub fn crate_id() -> (r: &'static str)
    ensures
        r@ == CRATE_ID@,
{
    CRATE_ID
}

/// A serialized fixture of the corpus: its ID, its path and its JSON debug text.
#[derive(Clone, Copy, Debug, PartialEq, Eq)]
pub struct SerializedFixture {
    pub id: &'static str,
    pub path: &'static str,
    pub contents: &'static str,
}

} // verus!
