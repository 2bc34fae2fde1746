//! Discovers trending repositories, drops those already announced or
//! excluded by policy, and announces the rest one at a time on a separate
//! cadence. The decisions of that pipeline live here and are verified; the
//! transports (HTTP feed, webhook, redis) are driven by the application.
use vstd::prelude::*;

pub mod text;
pub mod config;
pub mod repo;
pub mod claims;
pub mod queue;
pub mod storage;
pub mod stream;
pub mod bot;
pub mod discord;

pub use crate::bot::{discovery_survivors, Candidate, RustTrending};
pub use crate::claims::{ClaimLedger, ClaimRecord};
pub use crate::config::{Blacklist, Config};
pub use crate::discord::{webhook_for, Author, Content, Embed, Footer, Webhook};
pub use crate::queue::PendingQueue;
pub use crate::repo::Repo;
pub use crate::storage::{ClaimCheck, Storage, StoreCommand};
pub use crate::stream::TimedStream;

verus! {

/// Errors of the library.
#[derive(Debug, PartialEq, Eq, Structural, Clone, Copy)]
pub enum Error {
    /// The claim store's address was refused.
    InvalidStoreUrl,
    /// The feed could not be fetched or read.
    FetchFailed,
}

} // verus!
