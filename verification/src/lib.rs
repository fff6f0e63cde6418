//! A journal of Markdown notes under one root directory: which file a
//! namespace names, what a fresh note holds, and which commands open and
//! record it.

pub mod error;
pub mod text;
pub mod cli;
pub mod profile;
pub mod date;
pub mod namespace;
pub mod note;
pub mod command;
