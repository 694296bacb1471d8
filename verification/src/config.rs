//! The constants of the timelock, its roles, states and errors.

use vstd::prelude::*;

verus! {

/// Lock time recorded for an operation that has been executed.
pub const DONE_TIMESTAMP: u64 = 1;

/// The most proposers, and the most executors, that `initialize` accepts.
pub const MAX_ACCOUNTS_NUM: usize = 10;

/// The most calls that one batch may hold.
pub const BATCH_MAX: usize = 5;

/// The roles that gate scheduling, executing and cancelling.
#[derive(Copy, Clone, Debug, PartialEq, Eq, Structural)]
pub enum RoleLabel {
    Proposer,
    Executor,
    Canceller,
}

/// Where an operation stands in its lifecycle.
#[derive(Copy, Clone, Debug, PartialEq, Eq, Structural)]
pub enum OperationState {
    Unset,
    Waiting,
    Ready,
    Executed,
}

/// Why a request was turned down.
#[derive(Copy, Clone, Debug, PartialEq, Eq, Structural)]
pub enum TimeLockError {
    InvalidParams,
    NotInitialized,
    AlreadyInitialized,
    AlreadyExists,
    InsufficientDelay,
    TimeNotReady,
    PredecessorNotDone,
    ExceedMaxCount,
    InvalidStatus,
    NotPermitted,
    ExecuteFailed,
    InvalidFuncName,
}

impl RoleLabel {
    /// The number that stands for the role where roles travel as values.
    pub open spec fn spec_code(self) -> u32 {
        match self {
            RoleLabel::Proposer => 1,
            RoleLabel::Executor => 2,
            RoleLabel::Canceller => 3,
        }
    }

    /// The number that stands for the role where roles travel as values.
    pub fn code(&self) -> (out: u32)
        ensures
            out == self.spec_code(),
    {
        match self {
            RoleLabel::Proposer => 1,
            RoleLabel::Executor => 2,
            RoleLabel::Canceller => 3,
        }
    }
}

impl OperationState {
    /// The number that stands for the state.
    pub open spec fn spec_code(self) -> u32 {
        match self {
            OperationState::Unset => 1,
            OperationState::Waiting => 2,
            OperationState::Ready => 3,
            OperationState::Executed => 4,
        }
    }

    /// The number that stands for the state.
    pub fn code(&self) -> (out: u32)
        ensures
            out == self.spec_code(),
    {
        match self {
            OperationState::Unset => 1,
            OperationState::Waiting => 2,
            OperationState::Ready => 3,
            OperationState::Executed => 4,
        }
    }
}

impl TimeLockError {
    /// The number under which the error is reported.
    pub open spec fn spec_code(self) -> u32 {
        match self {
            TimeLockError::InvalidParams => 0,
            TimeLockError::NotInitialized => 1,
            TimeLockError::AlreadyInitialized => 2,
            TimeLockError::AlreadyExists => 3,
            TimeLockError::InsufficientDelay => 4,
            TimeLockError::TimeNotReady => 5,
            TimeLockError::PredecessorNotDone => 6,
            TimeLockError::ExceedMaxCount => 7,
            TimeLockError::InvalidStatus => 8,
            TimeLockError::NotPermitted => 9,
            TimeLockError::ExecuteFailed => 10,
            TimeLockError::InvalidFuncName => 11,
        }
    }

    /// The number under which the error is reported.
    pub fn code(&self) -> (out: u32)
        ensures
            out == self.spec_code(),
    {
        match self {
            TimeLockError::InvalidParams => 0,
            TimeLockError::NotInitialized => 1,
            TimeLockError::AlreadyInitialized => 2,
            TimeLockError::AlreadyExists => 3,
            TimeLockError::InsufficientDelay => 4,
            TimeLockError::TimeNotReady => 5,
            TimeLockError::PredecessorNotDone => 6,
            TimeLockError::ExceedMaxCount => 7,
            TimeLockError::InvalidStatus => 8,
            TimeLockError::NotPermitted => 9,
            TimeLockError::ExecuteFailed => 10,
            TimeLockError::InvalidFuncName => 11,
        }
    }
}

/// The lifecycle state that a lock time encodes at a given ledger time.
pub open spec fn operation_state(ledger_time: u64, lock_time: u64) -> OperationState {
    if lock_time == 0 {
        OperationState::Unset
    } else if lock_time == DONE_TIMESTAMP {
        OperationState::Executed
    } else if ledger_time < lock_time {
        OperationState::Waiting
    } else {
        OperationState::Ready
    }
}

/// The lifecycle state of an operation with the lock time `lock_time` when
/// the ledger's clock shows `ledger_time`.
pub fn get_operation_state(ledger_time: u64, lock_time: u64) -> (state: OperationState)
    ensures
        state == operation_state(ledger_time, lock_time),
{
    if lock_time == 0 {
        OperationState::Unset
    } else if lock_time == DONE_TIMESTAMP {
        OperationState::Executed
    } else if ledger_time < lock_time {
        OperationState::Waiting
    } else {
        OperationState::Ready
    }
}

} // verus!
