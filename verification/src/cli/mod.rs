//! Command-line option model.

pub mod args;

pub use args::Args;
