//! A safe, verified handle-management layer over a native mail-index engine.
//!
//! The native engine is reached through an opaque pointer interface and is
//! driven by an unverified shell; this crate holds everything that can be
//! decided from plain values: mapping native status codes to a closed error
//! taxonomy, the reference-counted ownership of the root resource (the
//! native destroy action fires exactly once, at the last release), the
//! derived handles that keep the root alive, and the decisions of the
//! progress-callback bridge.

pub mod bridge;
pub mod database;
pub mod error;
pub mod handle;
pub mod status;

pub use database::Database;
pub use database::Directory;
pub use database::Query;
pub use database::Revision;
pub use database::Tags;
pub use database::Version;
pub use handle::HandleStore;

pub use error::Error;
pub use error::LockError;
pub use status::DatabaseMode;
pub use status::Status;
