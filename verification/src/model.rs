//! The timelock as a mathematical object: what it holds, and what each
//! transition makes of it.

use crate::config::{
    operation_state, OperationState, RoleLabel, TimeLockError, BATCH_MAX, DONE_TIMESTAMP,
    MAX_ACCOUNTS_NUM,
};
use crate::events::EventView;
use crate::hasher::{batch_fits, batch_id, call_fits, call_id};
use crate::native::{admin_call, AdminCall};
use crate::role_base::{role_key, RoleKey};
use crate::types::{Address, AddressKind, ValueView};
use vstd::prelude::*;

verus! {

broadcast use vstd::array::group_array_axioms;

/// What a `TimeLock` holds.
pub struct TimeLockView {
    /// The timelock's own address.
    pub address: Address,
    /// The least delay that a new operation must wait.
    pub min_delay: u64,
    /// Whether the owner administers the timelock directly.
    pub self_managed: bool,
    /// The privileged account; `None` before initialization.
    pub owner: Option<Address>,
    /// The grants in force.
    pub roles: Set<RoleKey>,
    /// The lock time of every operation id; 0 where none is recorded.
    pub ledger: Map<[u8; 32], u64>,
    /// The events emitted so far, oldest first.
    pub events: Seq<EventView>,
}

impl TimeLockView {
    /// Whether `account` holds `role`.
    pub open spec fn holds(self, account: Address, role: RoleLabel) -> bool {
        self.roles.contains(role_key(account, role))
    }

    /// The lifecycle state of the operation `id` at the time `now`.
    pub open spec fn state(self, id: [u8; 32], now: u64) -> OperationState {
        operation_state(now, self.ledger[id])
    }

    /// The timelock after `event` was emitted.
    pub open spec fn emit(self, event: EventView) -> TimeLockView {
        TimeLockView { events: self.events.push(event), ..self }
    }

    /// The timelock after the minimum delay was set to `delay`.
    pub open spec fn with_min_delay(self, delay: u64) -> TimeLockView {
        TimeLockView { min_delay: delay, ..self }.emit(EventView::MinDelayUpdated { delay })
    }

    /// The timelock after `account` became the owner.
    pub open spec fn with_owner(self, account: Address) -> TimeLockView {
        TimeLockView { owner: Some(account), ..self }.emit(EventView::OwnerSet { account })
    }

    /// The timelock after `role` was granted to `account`.
    pub open spec fn with_grant(self, account: Address, role: RoleLabel) -> TimeLockView {
        TimeLockView { roles: self.roles.insert(role_key(account, role)), ..self }.emit(
            EventView::RoleGranted { role, account },
        )
    }

    /// The timelock after `role` was revoked from `account`.
    pub open spec fn without_grant(self, account: Address, role: RoleLabel) -> TimeLockView {
        TimeLockView { roles: self.roles.remove(role_key(account, role)), ..self }.emit(
            EventView::RoleRevoked { role, account },
        )
    }

    /// The timelock after `lock_time` was recorded for `id`.
    pub open spec fn with_lock_time(self, id: [u8; 32], lock_time: u64) -> TimeLockView {
        TimeLockView { ledger: self.ledger.insert(id, lock_time), ..self }
    }

    /// The timelock after an administration call ran.
    pub open spec fn after_admin(self, call: AdminCall) -> TimeLockView {
        match call {
            AdminCall::UpdateMinDelay(delay) => self.with_min_delay(delay),
            AdminCall::GrantRole(account, role) => self.with_grant(account, role),
            AdminCall::RevokeRole(account, role) => self.without_grant(account, role),
            AdminCall::UpdateOwner(account) => self.with_owner(account),
        }
    }

    /// The timelock after the call ran: an administration call where the
    /// target is the timelock itself, nothing of its own otherwise.
    pub open spec fn after_call(
        self,
        target: Address,
        fn_name: Seq<char>,
        data: Seq<ValueView>,
    ) -> TimeLockView {
        if target == self.address {
            match admin_call(fn_name, data) {
                Ok(call) => self.after_admin(call),
                Err(_) => self,
            }
        } else {
            self
        }
    }
}

/// The predecessor as events carry it: 32 zero bytes where there is none.
pub open spec fn event_predecessor(predecessor: Option<[u8; 32]>) -> [u8; 32] {
    match predecessor {
        Some(id) => id,
        None => vstd::array::spec_array_fill_for_copy_type::<u8, 32>(0u8),
    }
}

/// Why scheduling a call is refused, if it is: the target is no contract,
/// the timelock has not been initialized, the delay is below the minimum,
/// the call is too large to be given an identity, or its identity is not
/// unset.
pub open spec fn schedule_error(
    lock: TimeLockView,
    now: u64,
    target: Address,
    fn_name: Seq<char>,
    data: Seq<ValueView>,
    salt: [u8; 32],
    predecessor: Option<[u8; 32]>,
    delay: u64,
) -> Option<TimeLockError> {
    if target.kind != AddressKind::Contract {
        Some(TimeLockError::InvalidParams)
    } else if lock.owner.is_none() {
        Some(TimeLockError::NotInitialized)
    } else if delay < lock.min_delay {
        Some(TimeLockError::InsufficientDelay)
    } else if !call_fits(target, fn_name, data, salt, predecessor) {
        Some(TimeLockError::InvalidParams)
    } else if lock.state(call_id(target, fn_name, data, salt, predecessor), now)
        != OperationState::Unset {
        Some(TimeLockError::AlreadyExists)
    } else {
        None
    }
}

/// The timelock after a call was scheduled.
pub open spec fn scheduled(
    lock: TimeLockView,
    now: u64,
    target: Address,
    fn_name: Seq<char>,
    data: Seq<ValueView>,
    salt: [u8; 32],
    predecessor: Option<[u8; 32]>,
    delay: u64,
) -> TimeLockView {
    let id = call_id(target, fn_name, data, salt, predecessor);
    lock.with_lock_time(id, (now + delay) as u64).emit(
        EventView::CallScheduled {
            id,
            index: 0,
            target,
            fn_name,
            data,
            predecessor: event_predecessor(predecessor),
            delay,
        },
    )
}

/// Why an operation may not run now, if it may not: it is not ready, or its
/// predecessor has not been executed.
pub open spec fn readiness_error(
    lock: TimeLockView,
    now: u64,
    id: [u8; 32],
    predecessor: Option<[u8; 32]>,
) -> Option<TimeLockError> {
    if lock.state(id, now) != OperationState::Ready {
        Some(TimeLockError::TimeNotReady)
    } else if predecessor.is_some() && lock.state(predecessor.unwrap(), now)
        != OperationState::Executed {
        Some(TimeLockError::PredecessorNotDone)
    } else {
        None
    }
}

/// Why running one call fails, if it does: a call to the timelock itself
/// that is no administration call, or a call to another contract that did
/// not succeed.
pub open spec fn call_error(
    own: Address,
    target: Address,
    fn_name: Seq<char>,
    data: Seq<ValueView>,
    call_succeeded: bool,
) -> Option<TimeLockError> {
    if target == own {
        match admin_call(fn_name, data) {
            Ok(_) => None,
            Err(error) => Some(error),
        }
    } else if !call_succeeded {
        Some(TimeLockError::ExecuteFailed)
    } else {
        None
    }
}

/// Why a call may not be invoked now, if it may not: it is too large to
/// have an identity, or its operation may not run.
pub open spec fn execute_check_error(
    lock: TimeLockView,
    now: u64,
    target: Address,
    fn_name: Seq<char>,
    data: Seq<ValueView>,
    salt: [u8; 32],
    predecessor: Option<[u8; 32]>,
) -> Option<TimeLockError> {
    if !call_fits(target, fn_name, data, salt, predecessor) {
        Some(TimeLockError::InvalidParams)
    } else {
        readiness_error(lock, now, call_id(target, fn_name, data, salt, predecessor), predecessor)
    }
}

/// Why executing a call is refused, if it is.
pub open spec fn execute_error(
    lock: TimeLockView,
    now: u64,
    target: Address,
    fn_name: Seq<char>,
    data: Seq<ValueView>,
    salt: [u8; 32],
    predecessor: Option<[u8; 32]>,
    call_succeeded: bool,
) -> Option<TimeLockError> {
    match execute_check_error(lock, now, target, fn_name, data, salt, predecessor) {
        Some(error) => Some(error),
        None => call_error(lock.address, target, fn_name, data, call_succeeded),
    }
}

/// The timelock after a call was executed.
pub open spec fn executed(
    lock: TimeLockView,
    target: Address,
    fn_name: Seq<char>,
    data: Seq<ValueView>,
    salt: [u8; 32],
    predecessor: Option<[u8; 32]>,
) -> TimeLockView {
    let id = call_id(target, fn_name, data, salt, predecessor);
    lock.after_call(target, fn_name, data).with_lock_time(id, DONE_TIMESTAMP).emit(
        EventView::CallExecuted { id, index: 0, target, fn_name, data },
    )
}

/// Whether the call at position `i` of a batch went well on the other side.
/// An outcome that is missing counts as a failure.
pub open spec fn succeeded_at(outcomes: Seq<bool>, i: int) -> bool {
    0 <= i < outcomes.len() && outcomes[i]
}

/// Whether every one of the given addresses names a contract.
pub open spec fn all_contracts(targets: Seq<Address>) -> bool {
    forall|i: int| 0 <= i < targets.len() ==> (#[trigger] targets[i]).kind == AddressKind::Contract
}

/// Why a batch is refused for its shape, if it is: the three lists differ in
/// length, or hold more than `BATCH_MAX` calls.
pub open spec fn batch_shape_error(targets: nat, fn_names: nat, datas: nat) -> Option<
    TimeLockError,
> {
    if fn_names != targets || datas != targets {
        Some(TimeLockError::InvalidParams)
    } else if targets > BATCH_MAX {
        Some(TimeLockError::ExceedMaxCount)
    } else {
        None
    }
}

/// Why scheduling a batch is refused, if it is.
pub open spec fn schedule_batch_error(
    lock: TimeLockView,
    now: u64,
    targets: Seq<Address>,
    fn_names: Seq<Seq<char>>,
    datas: Seq<Seq<ValueView>>,
    salt: [u8; 32],
    predecessor: Option<[u8; 32]>,
    delay: u64,
) -> Option<TimeLockError> {
    if batch_shape_error(targets.len(), fn_names.len(), datas.len()).is_some() {
        batch_shape_error(targets.len(), fn_names.len(), datas.len())
    } else if !all_contracts(targets) {
        Some(TimeLockError::InvalidParams)
    } else if lock.owner.is_none() {
        Some(TimeLockError::NotInitialized)
    } else if delay < lock.min_delay {
        Some(TimeLockError::InsufficientDelay)
    } else if !batch_fits(targets, fn_names, datas, salt, predecessor) {
        Some(TimeLockError::InvalidParams)
    } else if lock.state(batch_id(targets, fn_names, datas, salt, predecessor), now)
        != OperationState::Unset {
        Some(TimeLockError::AlreadyExists)
    } else {
        None
    }
}

/// The events of scheduling the first `n` calls of a batch, in order.
pub open spec fn batch_scheduled_events(
    id: [u8; 32],
    targets: Seq<Address>,
    fn_names: Seq<Seq<char>>,
    datas: Seq<Seq<ValueView>>,
    predecessor: Option<[u8; 32]>,
    delay: u64,
    n: nat,
) -> Seq<EventView>
    decreases n,
{
    if n == 0 {
        Seq::empty()
    } else {
        batch_scheduled_events(
            id,
            targets,
            fn_names,
            datas,
            predecessor,
            delay,
            (n - 1) as nat,
        ).push(
            EventView::CallScheduled {
                id,
                index: (n - 1) as u32,
                target: targets[n - 1],
                fn_name: fn_names[n - 1],
                data: datas[n - 1],
                predecessor: event_predecessor(predecessor),
                delay,
            },
        )
    }
}

/// The timelock after a batch was scheduled: one lock time for the whole
/// batch, one event for each call.
pub open spec fn batch_scheduled(
    lock: TimeLockView,
    now: u64,
    targets: Seq<Address>,
    fn_names: Seq<Seq<char>>,
    datas: Seq<Seq<ValueView>>,
    salt: [u8; 32],
    predecessor: Option<[u8; 32]>,
    delay: u64,
) -> TimeLockView {
    let id = batch_id(targets, fn_names, datas, salt, predecessor);
    TimeLockView {
        ledger: lock.ledger.insert(id, (now + delay) as u64),
        events: lock.events + batch_scheduled_events(
            id,
            targets,
            fn_names,
            datas,
            predecessor,
            delay,
            targets.len(),
        ),
        ..lock
    }
}

/// Why running the first `n` calls of a batch fails, if it does: the error
/// of the first call that fails.
pub open spec fn batch_call_error(
    own: Address,
    targets: Seq<Address>,
    fn_names: Seq<Seq<char>>,
    datas: Seq<Seq<ValueView>>,
    outcomes: Seq<bool>,
    n: nat,
) -> Option<TimeLockError>
    decreases n,
{
    if n == 0 {
        None
    } else {
        match batch_call_error(own, targets, fn_names, datas, outcomes, (n - 1) as nat) {
            Some(error) => Some(error),
            None => call_error(
                own,
                targets[n - 1],
                fn_names[n - 1],
                datas[n - 1],
                succeeded_at(outcomes, n - 1),
            ),
        }
    }
}

/// The timelock after the first `n` calls of the batch `id` ran, each
/// followed by its event.
pub open spec fn batch_ran(
    lock: TimeLockView,
    id: [u8; 32],
    targets: Seq<Address>,
    fn_names: Seq<Seq<char>>,
    datas: Seq<Seq<ValueView>>,
    n: nat,
) -> TimeLockView
    decreases n,
{
    if n == 0 {
        lock
    } else {
        batch_ran(lock, id, targets, fn_names, datas, (n - 1) as nat).after_call(
            targets[n - 1],
            fn_names[n - 1],
            datas[n - 1],
        ).emit(
            EventView::CallExecuted {
                id,
                index: (n - 1) as u32,
                target: targets[n - 1],
                fn_name: fn_names[n - 1],
                data: datas[n - 1],
            },
        )
    }
}

/// Why the calls of a batch may not be invoked now, if they may not.
pub open spec fn execute_batch_check_error(
    lock: TimeLockView,
    now: u64,
    targets: Seq<Address>,
    fn_names: Seq<Seq<char>>,
    datas: Seq<Seq<ValueView>>,
    salt: [u8; 32],
    predecessor: Option<[u8; 32]>,
) -> Option<TimeLockError> {
    if batch_shape_error(targets.len(), fn_names.len(), datas.len()).is_some() {
        batch_shape_error(targets.len(), fn_names.len(), datas.len())
    } else if !batch_fits(targets, fn_names, datas, salt, predecessor) {
        Some(TimeLockError::InvalidParams)
    } else {
        readiness_error(
            lock,
            now,
            batch_id(targets, fn_names, datas, salt, predecessor),
            predecessor,
        )
    }
}

/// Why executing a batch is refused, if it is.
pub open spec fn execute_batch_error(
    lock: TimeLockView,
    now: u64,
    targets: Seq<Address>,
    fn_names: Seq<Seq<char>>,
    datas: Seq<Seq<ValueView>>,
    salt: [u8; 32],
    predecessor: Option<[u8; 32]>,
    outcomes: Seq<bool>,
) -> Option<TimeLockError> {
    match execute_batch_check_error(lock, now, targets, fn_names, datas, salt, predecessor) {
        Some(error) => Some(error),
        None => batch_call_error(lock.address, targets, fn_names, datas, outcomes, targets.len()),
    }
}

/// The timelock after a batch was executed: every call ran, in order, and
/// the batch is marked as executed.
pub open spec fn batch_executed(
    lock: TimeLockView,
    targets: Seq<Address>,
    fn_names: Seq<Seq<char>>,
    datas: Seq<Seq<ValueView>>,
    salt: [u8; 32],
    predecessor: Option<[u8; 32]>,
) -> TimeLockView {
    let id = batch_id(targets, fn_names, datas, salt, predecessor);
    batch_ran(lock, id, targets, fn_names, datas, targets.len()).with_lock_time(id, DONE_TIMESTAMP)
}

/// Running calls of a batch leaves the address and the ledger as they were.
pub proof fn lemma_batch_ran_keeps(
    lock: TimeLockView,
    id: [u8; 32],
    targets: Seq<Address>,
    fn_names: Seq<Seq<char>>,
    datas: Seq<Seq<ValueView>>,
    n: nat,
)
    ensures
        batch_ran(lock, id, targets, fn_names, datas, n).address == lock.address,
        batch_ran(lock, id, targets, fn_names, datas, n).ledger == lock.ledger,
    decreases n,
{
    if n > 0 {
        lemma_batch_ran_keeps(lock, id, targets, fn_names, datas, (n - 1) as nat);
    }
}

/// Why cancelling an operation is refused, if it is: the operation is
/// neither waiting nor ready.
pub open spec fn cancel_error(lock: TimeLockView, now: u64, id: [u8; 32]) -> Option<
    TimeLockError,
> {
    let state = lock.state(id, now);
    if state == OperationState::Ready || state == OperationState::Waiting {
        None
    } else {
        Some(TimeLockError::InvalidStatus)
    }
}

/// The timelock after an operation was cancelled.
pub open spec fn cancelled(lock: TimeLockView, id: [u8; 32]) -> TimeLockView {
    lock.with_lock_time(id, 0).emit(EventView::OperationCancelled { id })
}

/// The grants that initialization makes: each proposer may propose and
/// cancel, each executor may execute.
pub open spec fn initial_roles(proposers: Seq<Address>, executors: Seq<Address>) -> Set<RoleKey> {
    Set::new(
        |key: RoleKey|
            match key {
                RoleKey::Proposers(account) => proposers.contains(account),
                RoleKey::Cancellers(account) => proposers.contains(account),
                RoleKey::Executors(account) => executors.contains(account),
            },
    )
}

/// The events of granting each proposer its two roles, in order.
pub open spec fn proposer_events(proposers: Seq<Address>) -> Seq<EventView>
    decreases proposers.len(),
{
    if proposers.len() == 0 {
        Seq::empty()
    } else {
        proposer_events(proposers.drop_last()).push(
            EventView::RoleGranted { role: RoleLabel::Proposer, account: proposers.last() },
        ).push(EventView::RoleGranted { role: RoleLabel::Canceller, account: proposers.last() })
    }
}

/// The events of granting each executor its role, in order.
pub open spec fn executor_events(executors: Seq<Address>) -> Seq<EventView>
    decreases executors.len(),
{
    if executors.len() == 0 {
        Seq::empty()
    } else {
        executor_events(executors.drop_last()).push(
            EventView::RoleGranted { role: RoleLabel::Executor, account: executors.last() },
        )
    }
}

/// Why initialization is refused, if it is.
pub open spec fn initialize_error(
    lock: TimeLockView,
    min_delay: u64,
    proposers: Seq<Address>,
    executors: Seq<Address>,
) -> Option<TimeLockError> {
    if lock.owner.is_some() {
        Some(TimeLockError::AlreadyInitialized)
    } else if min_delay == 0 {
        Some(TimeLockError::InvalidParams)
    } else if proposers.len() == 0 || executors.len() == 0 {
        Some(TimeLockError::InvalidParams)
    } else if proposers.len() > MAX_ACCOUNTS_NUM || executors.len() > MAX_ACCOUNTS_NUM {
        Some(TimeLockError::ExceedMaxCount)
    } else {
        None
    }
}

/// The timelock after initialization.
pub open spec fn initialized(
    lock: TimeLockView,
    min_delay: u64,
    proposers: Seq<Address>,
    executors: Seq<Address>,
    owner: Address,
    self_managed: bool,
) -> TimeLockView {
    TimeLockView {
        address: lock.address,
        min_delay,
        self_managed,
        owner: Some(owner),
        roles: lock.roles.union(initial_roles(proposers, executors)),
        ledger: lock.ledger,
        events: lock.events.push(EventView::MinDelayUpdated { delay: min_delay }).push(
            EventView::SelfManaged { flag: self_managed },
        ).push(EventView::OwnerSet { account: owner }) + proposer_events(proposers)
            + executor_events(executors),
    }
}

/// Once a call of a batch has failed, the batch has failed, however many
/// calls follow.
pub proof fn lemma_batch_call_error_stays(
    own: Address,
    targets: Seq<Address>,
    fn_names: Seq<Seq<char>>,
    datas: Seq<Seq<ValueView>>,
    outcomes: Seq<bool>,
    n: nat,
    m: nat,
)
    requires
        n <= m,
        batch_call_error(own, targets, fn_names, datas, outcomes, n).is_some(),
    ensures
        batch_call_error(own, targets, fn_names, datas, outcomes, m) == batch_call_error(
            own,
            targets,
            fn_names,
            datas,
            outcomes,
            n,
        ),
    decreases m,
{
    if n < m {
        lemma_batch_call_error_stays(own, targets, fn_names, datas, outcomes, n, (m - 1) as nat);
    }
}

/// A list that has one more item than its prefix contains what the prefix
/// contains, and that item.
pub proof fn lemma_contains_push(prefix: Seq<Address>, next: Seq<Address>)
    requires
        next.len() > 0,
        next.drop_last() == prefix,
    ensures
        forall|account: Address| #[trigger]
            next.contains(account) <==> (prefix.contains(account) || account == next.last()),
{
    assert forall|account: Address| #[trigger]
        next.contains(account) <==> (prefix.contains(account) || account
            == next.last()) by {
        if next.contains(account) {
            let k = choose|k: int| 0 <= k < next.len() && next[k] == account;
            if k < prefix.len() {
                assert(prefix[k] == account);
            }
        }
        if prefix.contains(account) {
            let k = choose|k: int| 0 <= k < prefix.len() && prefix[k] == account;
            assert(next[k] == account);
        }
        if account == next.last() {
            assert(next[next.len() - 1] == account);
        }
    }
}

} // verus!
