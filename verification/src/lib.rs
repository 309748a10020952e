//! Home-directory runtime core for a cross-platform toolchain manager.
//!
//! The crate owns the on-disk state of one user installation: an
//! authentication manifest kept in a format-preserving TOML document, the
//! persisted trust and install caches, the tool storage index, and the home
//! coordinator that resolves the root path, assembles the loaded stores and
//! tracks whether the state was persisted before shutdown.

pub mod manifests;
pub mod result;
pub mod sources;
pub mod storage;
pub mod system;
pub mod util;
