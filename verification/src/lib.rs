//! Generation of shell activation scripts from environment profiles.

pub mod cleanup;
pub mod config;
pub mod dialect;
pub mod error;
pub mod mutation;
pub mod path;
pub mod record;
pub mod rewrite;
pub mod script;
pub mod text;
