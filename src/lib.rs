//! Eule: scheduled bulk clean-up of conversation channels.
//!
//! The library holds the verified core: the job registry and its snapshot
//! form, the due-job scan, the token-bucket limiter, the per-job clean-up
//! decisions, the connection supervisor's state machine, the bounded job
//! queue, and the store that encrypts sensitive values at rest.

pub mod cleanup;
pub mod commands;
pub mod connection;
pub mod crypto;
pub mod error;
pub mod limiter;
pub mod manager;
pub mod queue;
pub mod registry;
pub mod store;
pub mod time;

pub use crate::cleanup::{CleanupEvent, CleanupRun, CleanupStep, Stage};
pub use crate::commands::{clean_count, obfuscate_id, parse_interval, uptime_parts};
pub use crate::connection::{ConnectionCommand, ConnectionHandler, ConnectionState, SupervisorAction, SupervisorEvent};
pub use crate::crypto::{Crypto, MasterKey};
pub use crate::error::{ConnectionError, EuleError};
pub use crate::limiter::RateLimiter;
pub use crate::manager::AutocleanManager;
pub use crate::queue::{JobQueue, QueuePoll, WorkerCleanupTask};
pub use crate::registry::{CleanupTask, JobEntry, TaskRegistry};
pub use crate::store::KvStore;
pub use crate::time::{SerializableInstant, TimeSpan};
