//! Core of a remote-console client: the rewriting of in-band colour codes
//! into terminal escape sequences, and the layered resolution of the
//! connection settings.

pub mod args;
pub mod cfg;
pub mod colors;
pub mod effective;
pub mod entry;
pub mod error;
pub mod file;
pub mod ini;
pub mod precedence;
pub mod session;
pub mod source;
pub mod text;
