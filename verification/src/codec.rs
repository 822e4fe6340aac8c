//! Typed codecs and validation for the fixture corpus envelopes.

pub mod binary;
pub mod diagnostics;
pub mod inspect;
pub mod json_debug;
pub mod validator;

use vstd::prelude::*;

verus! {

pub const CRATE_ID: &'static str = "valdi_rust_codec";

pub const OWNER_PR: &'static str = "PR05";

pub const PUBLIC_API_BOUNDARY: &'static str = "rust_fixture_codec_validator";

pub const CURRENT_SCHEMA_VERSION: u16 = 1;

pub const CURRENT_JSON_DEBUG_VERSION: u16 = 1;

pub const CURRENT_BINARY_WIRE_VERSION: u16 = 1;

/// The codec's crate identifier.
pub fn crate_id() -> (r: &'static str)
    ensures
        r@ == CRATE_ID@,
{
    CRATE_ID
}

} // verus!
