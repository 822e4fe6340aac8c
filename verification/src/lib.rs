//! Verified contract, codec, backend, DSL and dynamic UI validation logic for
//! the Rust UI IR fixture corpus.

pub mod text;
pub mod codec;
pub mod backend;
pub mod dynamic_ui;
pub mod fixtures;
pub mod dsl;
pub mod counter;
