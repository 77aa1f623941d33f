//! Client-side orchestration core of a secure messaging client: the account
//! lifecycle state machine, the message ingestion pipeline, and the storage
//! contract that any persistence backend must satisfy.

pub mod accounts;
pub mod alist;
pub mod content;
pub mod errors;
pub mod manager;
pub mod pipeline;
pub mod random;
pub mod records;
pub mod resolver;
pub mod store;
pub mod types;
pub mod util;
pub mod volatile;

pub use errors::Error;
pub use types::Thread;
