//! Blocking access to an S3-compatible object store: endpoint normalisation,
//! credential resolution, a keyed cache of configured clients, and the
//! classification of each operation's outcome into a value or an error.

pub mod text;
pub mod endpoint;
pub mod config;
pub mod cache;
pub mod outcome;
pub mod laws;
