use vstd::prelude::*;

verus! {

/// Errors of the thread engine.
#[derive(Debug, Clone, Copy, PartialEq, Eq, Structural)]
pub enum CronosError {
    /// Delegate addresses cannot be initialized accounts.
    DelegateDataNotEmpty,
    /// An instruction of the pipeline failed to execute.
    InnerIxFailed,
    /// An instruction of the pipeline wants to write the thread itself.
    InnerIxReentrancy,
    /// The thread is executing another run.
    InvalidTask,
    /// The monitored account range does not fit the account's data.
    InvalidDynamicAccounts,
    /// The exec response value could not be parsed.
    InvalidExecResponse,
    /// The cron expression is invalid.
    InvalidSchedule,
    /// The signatory cannot provide the required signatures.
    InvalidSignatory,
    /// The thread does not have the right status for this operation.
    InvalidQueueStatus,
    /// The signer is not the thread's authority.
    NotAdmin,
    /// The signer does not own this account.
    NotYogiOwner,
    /// The thread is not due.
    QueueNotDue,
}

/// Errors of the command-line client.
#[derive(Debug, Clone, PartialEq, Eq)]
pub enum CliError {
    AccountNotFound(String),
    AccountDataNotParsable(String),
    BadClient(String),
    BadParameter(String),
    CommandNotRecognized(String),
}

} // verus!
