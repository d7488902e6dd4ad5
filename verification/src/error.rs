//! The failures that the lifecycle reports.

use vstd::prelude::*;
use crate::message::CompileError;

verus! {

/// Why an operation of the lifecycle failed. Nothing is retried inside the
/// crate: the caller decides what to do with each.
#[derive(Clone, Copy, Debug, PartialEq, Eq, Structural)]
pub enum LifecycleError {
    /// The endpoint or the signer's key is missing or malformed.
    ConfigurationError,
    /// The table address computed here is not the one the ledger's side
    /// arrives at.
    DerivationMismatch,
    /// The ledger rejected the transaction or could not confirm it.
    SubmissionError,
    /// The freshness token expired before the transaction was confirmed.
    StaleFreshnessToken,
    /// The ledger did not show the extended table before the time ran out.
    ActivationTimeout,
    /// An address to append is already in the table.
    DuplicateAddressError,
    /// No fee payer was given.
    NoSignerSpecified,
    /// A table that is not yet `Active` holds a referenced address.
    TableNotReadable,
    /// A signer that the message requires was not provided.
    MissingSignature,
}

impl LifecycleError {
    /// The lifecycle's name for a failure of the compiler.
    pub fn of_compile(error: CompileError) -> (mapped: LifecycleError)
        ensures
            mapped == match error {
                CompileError::NoSignerSpecified => LifecycleError::NoSignerSpecified,
                CompileError::TableNotReadable => LifecycleError::TableNotReadable,
            },
    {
        match error {
            CompileError::NoSignerSpecified => LifecycleError::NoSignerSpecified,
            CompileError::TableNotReadable => LifecycleError::TableNotReadable,
        }
    }

    /// Whether trying again, with a fresh token or a longer timeout, can
    /// help: true for a failed submission, a stale token and a timeout, false
    /// for the errors of configuration and of the caller.
    pub fn retryable(&self) -> (retryable: bool)
        ensures
            retryable == (*self == LifecycleError::SubmissionError || *self
                == LifecycleError::StaleFreshnessToken || *self
                == LifecycleError::ActivationTimeout),
    {
        match self {
            LifecycleError::SubmissionError => true,
            LifecycleError::StaleFreshnessToken => true,
            LifecycleError::ActivationTimeout => true,
            _ => false,
        }
    }
}

} // verus!
