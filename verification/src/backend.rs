//! The backend operation contract shared by Rust renderers: targets,
//! capabilities, operation families, their validation, and a mock backend.

pub mod capabilities;
pub mod diagnostics;
pub mod mock;
pub mod operations;
pub mod validator;

use vstd::prelude::*;

verus! {

pub const CRATE_ID: &'static str = "valdi_rust_backend";

pub const OWNER_PR: &'static str = "PR02";

pub const BACKEND_OPERATION_OWNER_PR: &'static str = "PR06";

pub const PUBLIC_API_BOUNDARY: &'static str = "rust_backend_traits_foundation";

} // verus!
