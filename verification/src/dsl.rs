//! The app-facing UI DSL: element builders that check attribute and event
//! pairs, and the contract fixtures that the DSL produces for every row of
//! the contract.

pub mod diagnostics;
pub mod ids;
pub mod source;
pub mod elements;
pub mod attributes;
pub mod events;
pub mod tree;
pub mod fixtures;

use vstd::prelude::*;

verus! {

pub const CRATE_ID: &'static str = "valdi_rust_dsl";

pub const OWNER_PR: &'static str = "PR09";

pub const PUBLIC_API_BOUNDARY: &'static str = "rust_ui_dsl_app_authoring";

pub fn crate_id() -> (r: &'static str)
    ensures
        r@ == CRATE_ID@,
{
    CRATE_ID
}

} // verus!
