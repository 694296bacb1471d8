//! A timelock controller: proposers schedule calls, a call becomes ready once
//! its delay has elapsed, executors run it, and cancellers may revoke it
//! before it runs.
//!
//! The library decides and records; it performs no calls and reads no
//! clock. The host hands in the time and the authenticated caller, invokes
//! other contracts where the library allows it, and reports how the calls
//! went.

pub mod config;
pub mod contract;
pub mod distinct;
pub mod encoding;
pub mod events;
pub mod example;
pub mod hasher;
pub mod ledger;
pub mod model;
pub mod native;
pub mod role_base;
pub mod theorems;
pub mod time_lock;
pub mod types;

pub use config::{
    get_operation_state, OperationState, RoleLabel, TimeLockError, BATCH_MAX, DONE_TIMESTAMP,
    MAX_ACCOUNTS_NUM,
};
pub use contract::TimeLockController;
pub use events::{CallExecutedEvent, CallScheduledEvent, Event};
pub use example::IncrementContract;
pub use hasher::{hash_call, hash_call_batch};
pub use ledger::{LedgerEntry, OperationLedger};
pub use native::{decode_admin_call, encode_role, AdminCall};
pub use role_base::{RoleKey, RoleStore};
pub use time_lock::TimeLock;
pub use types::{bytes32_eq, Address, AddressKind, Encoded, Symbol, Value};
