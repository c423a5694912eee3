//! Error types of the library.

use vstd::prelude::*;

verus! {

/// Failures of the connection supervisor and of the channels around it.
#[derive(Clone, Debug, PartialEq, Eq)]
pub enum ConnectionError {
    /// A connection attempt failed.
    FailedConnectionAttempt(String),
    /// The supervisor gave up after too many attempts.
    MaxRetriesReached,
    /// A command could not be sent to the supervisor.
    CommandSendError(String),
    /// A command could not be received by the supervisor.
    CommandReceiveError(String),
    /// The supervisor stopped without being asked to.
    UnexpectedShutdown,
    /// A spawned task could not be joined.
    TaskJoinError(String),
    /// The supervised session reported a failure.
    HandlerError(String),
}

/// Every error that the library reports.
#[derive(Clone, Debug, PartialEq, Eq)]
pub enum EuleError {
    /// The remote messaging API failed or refused a call.
    DiscordApi(String),
    /// The storage layer failed.
    Database(String),
    /// A credential was refused.
    AuthenticationFailed(String),
    /// Reading or writing outside the store failed.
    Io(String),
    /// A registry snapshot could not be written or read back.
    Serialization(String),
    /// A lock could not be taken.
    LockError(String),
    /// A workspace-only command was used outside a workspace.
    NotInGuild,
    /// An interval's time unit was not recognised.
    InvalidTimeUnit,
    /// A job's interval was zero; every job runs at a positive interval.
    InvalidInterval,
    /// Log output could not be set up.
    TracingSetupFailed(String),
    /// The command framework failed.
    Poise(String),
    /// A diagnostic report was raised.
    Miette(String),
    /// The master key could not be derived.
    KeyDerivationError(String),
    /// A value could not be encrypted.
    EncryptionError(String),
    /// A stored value failed authentication or was malformed.
    DecryptionError(String),
    /// The connection supervisor failed.
    Connection(ConnectionError),
}

impl EuleError {
    /// Whether this is a decryption failure.
    pub fn is_decryption_error(&self) -> (r: bool)
        ensures
            r == (self is DecryptionError),
    {
        match self {
            EuleError::DecryptionError(_) => true,
            _ => false,
        }
    }
}

} // verus!
