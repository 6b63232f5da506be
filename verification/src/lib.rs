//! SecureFox: the verified core of a local-first password manager.
//!
//! The crate holds the vault cryptosystem, the data model, the one-time
//! password engine, the session-guarded vault manager and the decisions of the
//! Git synchronisation engine. Reading files, talking to a Git remote and
//! serving HTTP are left to the program built around this library.

pub mod api;
pub mod clock;
pub mod config;
pub mod crypto;
pub mod errors;
pub mod git_sync;
pub mod importers;
pub mod keychain;
pub mod models;
pub mod storage;
pub mod sync_daemon;
pub mod text;
pub mod totp;

pub use crate::errors::{ApiError, Error};
pub use crate::models::{Folder, Item, ItemType, Vault};
pub use crate::storage::VaultStorage;
