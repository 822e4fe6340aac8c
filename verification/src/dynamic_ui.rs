//! Dynamic UI ingestion: fixture envelopes from JSON debug text, postcard
//! bytes, generated fixtures or in-memory producers, validated against the
//! contract and the source's trust before they reach the runtime bridge.

pub mod capabilities;
pub mod diagnostics;
pub mod source;
pub mod trust;
pub mod validator;
pub mod producer;
pub mod runtime_bridge;
pub mod loader;
pub mod fixtures;

use vstd::prelude::*;

verus! {

pub const CRATE_ID: &'static str = "valdi_rust_dynamic_ui";

pub const OWNER_PR: &'static str = "PR13";

pub const PUBLIC_API_BOUNDARY: &'static str = "rust_dynamic_ui_ingestion";

/// The dynamic UI crate identifier.
pub fn crate_id() -> (r: &'static str)
    ensures
        r@ == CRATE_ID@,
{
    CRATE_ID
}

} // verus!
