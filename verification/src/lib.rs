//! Redirects downstream projects to a local checkout of a library.
//!
//! The crate resolves the version and location of a local crate from its
//! manifest, stages working copies of the projects that depend on it, and
//! rewrites their manifests so that the dependency is satisfied by the local
//! checkout. Reading files, writing files and cloning repositories are left to
//! the caller: every operation that needs them is a step function that names
//! the next thing to do and takes its outcome back.

pub mod cmd;
pub mod codec;
pub mod document;
pub mod error;
pub mod manifest;
pub mod patch;
pub mod paths;
pub mod run;
pub mod stage;
pub mod version;
