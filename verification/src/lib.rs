//! An embeddable SQL database client that layers replication and remote
//! access on top of a local, single-writer storage engine.
//!
//! The crate models the three execution backends — local engine, embedded
//! replica kept current by frame shipping, and a remote batched HTTP
//! protocol — behind one connection abstraction, and states the behaviour
//! of each part as a verified contract.

pub mod bridge;
pub mod database;
pub mod errors;
pub mod hrana;
pub mod params;
pub mod replication;
pub mod rows;

pub use database::{Connection, Database, OpenFlags, TransactionBehavior};
pub use errors::Error;
pub use hrana::{Client, InnerClient};
pub use params::{Value, ValueRef, ValueType};
pub use replication::{Frame, FrameNo, Frames, TempSnapshot};
pub use rows::{MappedRows, Row, Rows, Statement};

use vstd::prelude::*;

verus! {

/// Result alias used throughout the library.
pub type Result<T> = std::result::Result<T, Error>;

} // verus!
