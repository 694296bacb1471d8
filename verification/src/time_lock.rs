//! The timelock itself: configuration, grants, the operation ledger and the
//! transitions between them. Who may ask for a transition is decided one
//! level up, by the controller.

use crate::config::{
    get_operation_state, OperationState, RoleLabel, TimeLockError, BATCH_MAX, DONE_TIMESTAMP,
    MAX_ACCOUNTS_NUM,
};
use crate::events::{event_views, publish, CallExecutedEvent, CallScheduledEvent, Event, EventView};
use crate::hasher::{batch_id, call_id, hash_call, hash_call_batch};
use crate::ledger::OperationLedger;
use crate::model::{
    all_contracts, batch_call_error, batch_executed, batch_ran, batch_scheduled,
    batch_scheduled_events, batch_shape_error, call_error, cancel_error, cancelled,
    event_predecessor, execute_batch_check_error, execute_batch_error, execute_check_error,
    execute_error, executed, executor_events, initial_roles, initialize_error, initialized,
    lemma_batch_call_error_stays, lemma_batch_ran_keeps, lemma_contains_push, proposer_events,
    readiness_error, schedule_batch_error, schedule_error, scheduled, TimeLockView,
};
use crate::native::{admin_call, decode_admin_call, AdminCall};
use crate::role_base::{RoleKey, RoleStore};
use crate::types::{
    clone_values, symbol_views, value_list_views, value_views, Address, AddressKind, Symbol, Value,
};
use vstd::prelude::*;

verus! {

broadcast use vstd::array::group_array_axioms;

/// The state of a timelock.
#[derive(Debug)]
pub struct TimeLock {
    address: Address,
    min_delay: u64,
    self_managed: bool,
    owner: Option<Address>,
    roles: RoleStore,
    ledger: OperationLedger,
    events: Vec<Event>,
}

impl View for TimeLock {
    type V = TimeLockView;

    closed spec fn view(&self) -> TimeLockView {
        TimeLockView {
            address: self.address,
            min_delay: self.min_delay,
            self_managed: self.self_managed,
            owner: self.owner,
            roles: self.roles@,
            ledger: self.ledger@,
            events: event_views(self.events@),
        }
    }
}

impl TimeLock {
    /// A timelock at `address` that has not been initialized: no owner, no
    /// grants, no operations, no events.
    pub fn new(address: Address) -> (out: TimeLock)
        ensures
            out@ == (TimeLockView {
                address,
                min_delay: 0,
                self_managed: false,
                owner: None,
                roles: Set::empty(),
                ledger: Map::total(|id: [u8; 32]| 0u64),
                events: Seq::empty(),
            }),
    {
        let out = TimeLock {
            address,
            min_delay: 0,
            self_managed: false,
            owner: None,
            roles: RoleStore::new(),
            ledger: OperationLedger::new(),
            events: Vec::new(),
        };
        assert(event_views(out.events@) =~= Seq::empty());
        out
    }

    /// The timelock at `address` with the given configuration, grants and
    /// lock times, and without events: a timelock as it was stored.
    pub fn restore(
        address: Address,
        min_delay: u64,
        self_managed: bool,
        owner: Option<Address>,
        roles: RoleStore,
        ledger: OperationLedger,
    ) -> (out: TimeLock)
        ensures
            out@ == (TimeLockView {
                address,
                min_delay,
                self_managed,
                owner,
                roles: roles@,
                ledger: ledger@,
                events: Seq::empty(),
            }),
    {
        let out = TimeLock {
            address,
            min_delay,
            self_managed,
            owner,
            roles,
            ledger,
            events: Vec::new(),
        };
        assert(event_views(out.events@) =~= Seq::empty());
        out
    }

    /// The grants in force.
    pub fn roles(&self) -> (out: &RoleStore)
        ensures
            out@ == self@.roles,
    {
        &self.roles
    }

    /// The lock times of all operations.
    pub fn ledger(&self) -> (out: &OperationLedger)
        ensures
            out@ == self@.ledger,
    {
        &self.ledger
    }

    /// Hands out the events emitted so far, oldest first, and forgets them.
    pub fn take_events(&mut self) -> (out: Vec<Event>)
        ensures
            event_views(out@) == old(self)@.events,
            final(self)@ == (TimeLockView { events: Seq::empty(), ..old(self)@ }),
    {
        let mut taken: Vec<Event> = Vec::new();
        core::mem::swap(&mut self.events, &mut taken);
        assert(event_views(self.events@) =~= Seq::empty());
        taken
    }

    /// The timelock's own address.
    pub fn current_contract_address(&self) -> (out: Address)
        ensures
            out == self@.address,
    {
        self.address
    }

    /// The least delay that a new operation must wait; 0 before
    /// initialization.
    pub fn get_min_delay(&self) -> (out: u64)
        ensures
            out == self@.min_delay,
    {
        self.min_delay
    }

    /// Whether the owner administers the timelock directly.
    pub fn is_self_managed(&self) -> (out: bool)
        ensures
            out == self@.self_managed,
    {
        self.self_managed
    }

    /// Whether a privileged account is set.
    pub fn has_admin(&self) -> (out: bool)
        ensures
            out == self@.owner.is_some(),
    {
        self.owner.is_some()
    }

    /// The privileged account; `None` where none is set.
    pub fn read_admin(&self) -> (out: Option<Address>)
        ensures
            out == self@.owner,
    {
        self.owner
    }

    /// Makes `account` the privileged account.
    pub fn set_admin(&mut self, account: &Address)
        ensures
            final(self)@ == old(self)@.with_owner(*account),
    {
        self.owner = Some(*account);
        publish(&mut self.events, Event::OwnerSet { account: *account });
    }

    /// Whether `account` holds `role`.
    pub fn has_role(&self, account: &Address, role: &RoleLabel) -> (out: bool)
        ensures
            out == self@.holds(*account, *role),
    {
        let key = RoleKey::new(account, role);
        self.roles.is_role(&key)
    }

    /// Grants `role` to `account`; tells whether the grant is new.
    pub fn grant_role(&mut self, account: &Address, role: &RoleLabel) -> (newly: bool)
        ensures
            newly == !old(self)@.holds(*account, *role),
            final(self)@ == old(self)@.with_grant(*account, *role),
    {
        let key = RoleKey::new(account, role);
        let newly = self.roles.set_role(&key);
        publish(&mut self.events, Event::RoleGranted { role: *role, account: *account });
        newly
    }

    /// Revokes `role` from `account`; tells whether there was a grant.
    pub fn revoke_role(&mut self, account: &Address, role: &RoleLabel) -> (was_granted: bool)
        ensures
            was_granted == old(self)@.holds(*account, *role),
            final(self)@ == old(self)@.without_grant(*account, *role),
    {
        let key = RoleKey::new(account, role);
        let was_granted = self.roles.unset_role(&key);
        publish(&mut self.events, Event::RoleRevoked { role: *role, account: *account });
        was_granted
    }

    /// Sets the minimum delay for operations scheduled from now on.
    pub fn update_min_delay(&mut self, delay: u64)
        ensures
            final(self)@ == old(self)@.with_min_delay(delay),
    {
        self.min_delay = delay;
        publish(&mut self.events, Event::MinDelayUpdated { delay });
    }

    /// Records whether the owner administers the timelock directly.
    fn set_self_managed(&mut self, flag: bool)
        ensures
            final(self)@ == (TimeLockView { self_managed: flag, ..old(self)@ }).emit(
                EventView::SelfManaged { flag },
            ),
    {
        self.self_managed = flag;
        publish(&mut self.events, Event::SelfManaged { flag });
    }

    /// The lock time recorded for `operation_id`: 0 where the operation is
    /// unset, `DONE_TIMESTAMP` where it was executed, else the time at which
    /// it becomes ready.
    pub fn get_schedule_lock_time(&self, operation_id: &[u8; 32]) -> (out: u64)
        ensures
            out == self@.ledger[*operation_id],
    {
        self.ledger.get(operation_id)
    }

    /// The lifecycle state of `operation_id` at the time `now`.
    pub fn get_schedule_state(&self, operation_id: &[u8; 32], now: u64) -> (out: OperationState)
        ensures
            out == self@.state(*operation_id, now),
    {
        get_operation_state(now, self.ledger.get(operation_id))
    }

    /// The events emitted so far, oldest first.
    pub fn events(&self) -> (out: &Vec<Event>)
        ensures
            event_views(out@) == self@.events,
    {
        &self.events
    }

    /// Sets up the timelock: the minimum delay, the mode, the owner, and the
    /// first grants. Refused where the timelock has an owner already, the
    /// delay is 0, a list is empty, or a list is longer than
    /// `MAX_ACCOUNTS_NUM`; nothing changes then.
    pub fn initialize(
        &mut self,
        min_delay: u64,
        proposers: &Vec<Address>,
        executors: &Vec<Address>,
        owner: &Address,
        self_managed: bool,
    ) -> (out: Result<(), TimeLockError>)
        ensures
            match out {
                Ok(()) => initialize_error(old(self)@, min_delay, proposers@, executors@).is_none()
                    && final(self)@ == initialized(
                    old(self)@,
                    min_delay,
                    proposers@,
                    executors@,
                    *owner,
                    self_managed,
                ),
                Err(error) => initialize_error(old(self)@, min_delay, proposers@, executors@)
                    == Some(error) && final(self)@ == old(self)@,
            },
    {
        if self.has_admin() {
            return Err(TimeLockError::AlreadyInitialized);
        }
        if min_delay == 0 {
            return Err(TimeLockError::InvalidParams);
        }
        if proposers.len() == 0 || executors.len() == 0 {
            return Err(TimeLockError::InvalidParams);
        }
        if proposers.len() > MAX_ACCOUNTS_NUM || executors.len() > MAX_ACCOUNTS_NUM {
            return Err(TimeLockError::ExceedMaxCount);
        }
        self.update_min_delay(min_delay);
        self.set_self_managed(self_managed);
        self.set_admin(owner);
        let ghost base = self@;
        let ghost none = Seq::<Address>::empty();
        let mut i: usize = 0;
        assert(proposers@.subrange(0, 0) =~= none);
        assert(base.roles.union(initial_roles(none, none)) =~= base.roles);
        while i < proposers.len()
            invariant
                i <= proposers@.len(),
                none.len() == 0,
                self@ == (TimeLockView {
                    roles: base.roles.union(initial_roles(proposers@.subrange(0, i as int), none)),
                    events: base.events + proposer_events(proposers@.subrange(0, i as int)),
                    ..base
                }),
            decreases proposers@.len() - i,
        {
            let ghost prefix = proposers@.subrange(0, i as int);
            let ghost next = proposers@.subrange(0, i + 1);
            self.grant_role(&proposers[i], &RoleLabel::Proposer);
            self.grant_role(&proposers[i], &RoleLabel::Canceller);
            proof {
                assert(next.drop_last() == prefix);
                assert(next.last() == proposers@[i as int]);
                lemma_contains_push(prefix, next);
                assert(self@.roles =~= base.roles.union(initial_roles(next, none)));
                assert(self@.events =~= base.events + proposer_events(next));
            }
            i += 1;
        }
        let ghost all = proposers@;
        assert(proposers@.subrange(0, i as int) == all);
        let ghost middle = self@;
        let mut j: usize = 0;
        assert(executors@.subrange(0, 0) =~= none);
        assert(initial_roles(all, executors@.subrange(0, 0)) =~= initial_roles(all, none));
        while j < executors.len()
            invariant
                j <= executors@.len(),
                self@ == (TimeLockView {
                    roles: base.roles.union(initial_roles(all, executors@.subrange(0, j as int))),
                    events: middle.events + executor_events(executors@.subrange(0, j as int)),
                    ..base
                }),
            decreases executors@.len() - j,
        {
            let ghost prefix = executors@.subrange(0, j as int);
            let ghost next = executors@.subrange(0, j + 1);
            self.grant_role(&executors[j], &RoleLabel::Executor);
            proof {
                assert(next.drop_last() == prefix);
                assert(next.last() == executors@[j as int]);
                lemma_contains_push(prefix, next);
                assert(self@.roles =~= base.roles.union(initial_roles(all, next)));
                assert(self@.events =~= middle.events + executor_events(next));
            }
            j += 1;
        }
        proof {
            assert(executors@.subrange(0, j as int) == executors@);
            assert(self@.events =~= initialized(
                old(self)@,
                min_delay,
                proposers@,
                executors@,
                *owner,
                self_managed,
            ).events);
        }
        Ok(())
    }
    /// Runs an administration call.
    pub fn exec_native(&mut self, call: &AdminCall)
        ensures
            final(self)@ == old(self)@.after_admin(*call),
    {
        match call {
            AdminCall::UpdateMinDelay(delay) => {
                self.update_min_delay(*delay);
            },
            AdminCall::GrantRole(account, role) => {
                self.grant_role(account, role);
            },
            AdminCall::RevokeRole(account, role) => {
                self.revoke_role(account, role);
            },
            AdminCall::UpdateOwner(account) => {
                self.set_admin(account);
            },
        }
    }

    /// Runs one call on the timelock's side: an administration call where
    /// the target is the timelock itself; for another target, the call has
    /// been made already and `call_succeeded` tells how it went.
    pub fn run_call(
        &mut self,
        target: &Address,
        fn_name: &Symbol,
        data: &Vec<Value>,
        call_succeeded: bool,
    ) -> (out: Result<(), TimeLockError>)
        ensures
            match out {
                Ok(()) => call_error(
                    old(self)@.address,
                    *target,
                    fn_name@,
                    value_views(data@),
                    call_succeeded,
                ).is_none() && final(self)@ == old(self)@.after_call(
                    *target,
                    fn_name@,
                    value_views(data@),
                ),
                Err(error) => call_error(
                    old(self)@.address,
                    *target,
                    fn_name@,
                    value_views(data@),
                    call_succeeded,
                ) == Some(error) && final(self)@ == old(self)@,
            },
    {
        if target.same(&self.address) {
            match decode_admin_call(fn_name, data) {
                Ok(call) => {
                    self.exec_native(&call);
                    Ok(())
                },
                Err(error) => Err(error),
            }
        } else if !call_succeeded {
            Err(TimeLockError::ExecuteFailed)
        } else {
            Ok(())
        }
    }

    /// Records a new operation that becomes ready `delay` after `now`, and
    /// gives that time. Refused where the operation is not unset.
    pub fn add_operation(&mut self, now: u64, operation_id: &[u8; 32], delay: u64) -> (out: Result<
        u64,
        TimeLockError,
    >)
        requires
            now + delay <= u64::MAX,
        ensures
            match out {
                Ok(lock_time) => old(self)@.state(*operation_id, now) == OperationState::Unset
                    && lock_time == now + delay && final(self)@ == old(self)@.with_lock_time(
                    *operation_id,
                    lock_time,
                ),
                Err(error) => old(self)@.state(*operation_id, now) != OperationState::Unset
                    && error == TimeLockError::AlreadyExists && final(self)@ == old(self)@,
            },
    {
        if self.get_schedule_state(operation_id, now) != OperationState::Unset {
            return Err(TimeLockError::AlreadyExists);
        }
        let lock_time: u64 = now + delay;
        self.ledger.set(operation_id, lock_time);
        Ok(lock_time)
    }

    /// Tells whether an operation may run now: it has to be ready, and its
    /// predecessor, if it has one, executed.
    pub fn check_execute(
        &self,
        now: u64,
        operation_id: &[u8; 32],
        predecessor: &Option<[u8; 32]>,
    ) -> (out: Result<(), TimeLockError>)
        ensures
            out == (match readiness_error(self@, now, *operation_id, *predecessor) {
                Some(error) => Err::<(), TimeLockError>(error),
                None => Ok(()),
            }),
    {
        if self.get_schedule_state(operation_id, now) != OperationState::Ready {
            return Err(TimeLockError::TimeNotReady);
        }
        match predecessor {
            Some(id) => {
                if self.get_schedule_state(id, now) != OperationState::Executed {
                    return Err(TimeLockError::PredecessorNotDone);
                }
            },
            None => {},
        }
        Ok(())
    }

    /// Schedules a call: its operation becomes ready at `now + delay`. Gives
    /// the operation's id and that time.
    pub fn schedule(
        &mut self,
        now: u64,
        target: &Address,
        fn_name: &Symbol,
        data: &Vec<Value>,
        salt: &[u8; 32],
        predecessor: &Option<[u8; 32]>,
        delay: u64,
    ) -> (out: Result<([u8; 32], u64), TimeLockError>)
        requires
            now + delay <= u64::MAX,
        ensures
            match out {
                Ok((id, lock_time)) => schedule_error(
                    old(self)@,
                    now,
                    *target,
                    fn_name@,
                    value_views(data@),
                    *salt,
                    *predecessor,
                    delay,
                ).is_none() && id == call_id(
                    *target,
                    fn_name@,
                    value_views(data@),
                    *salt,
                    *predecessor,
                ) && lock_time == now + delay && final(self)@ == scheduled(
                    old(self)@,
                    now,
                    *target,
                    fn_name@,
                    value_views(data@),
                    *salt,
                    *predecessor,
                    delay,
                ),
                Err(error) => schedule_error(
                    old(self)@,
                    now,
                    *target,
                    fn_name@,
                    value_views(data@),
                    *salt,
                    *predecessor,
                    delay,
                ) == Some(error) && final(self)@ == old(self)@,
            },
    {
        if !target.is_contract() {
            return Err(TimeLockError::InvalidParams);
        }
        if !self.has_admin() {
            return Err(TimeLockError::NotInitialized);
        }
        if delay < self.min_delay {
            return Err(TimeLockError::InsufficientDelay);
        }
        let operation_id = match hash_call(target, fn_name, data, salt, predecessor) {
            Some(id) => id,
            None => {
                return Err(TimeLockError::InvalidParams);
            },
        };
        let lock_time = match self.add_operation(now, &operation_id, delay) {
            Ok(lock_time) => lock_time,
            Err(error) => {
                return Err(error);
            },
        };
        let actual_predecessor: [u8; 32] = match predecessor {
            Some(id) => *id,
            None => [0u8; 32],
        };
        publish(
            &mut self.events,
            Event::CallScheduled(
                CallScheduledEvent {
                    opt_id: operation_id,
                    index: 0,
                    target: *target,
                    fn_name: fn_name.clone(),
                    data: clone_values(data),
                    predecessor: actual_predecessor,
                    delay,
                },
            ),
        );
        Ok((operation_id, lock_time))
    }

    /// Tells whether a call may be invoked now; gives its operation's id
    /// where it may. Nothing changes.
    pub fn prepare_execute(
        &self,
        now: u64,
        target: &Address,
        fn_name: &Symbol,
        data: &Vec<Value>,
        salt: &[u8; 32],
        predecessor: &Option<[u8; 32]>,
    ) -> (out: Result<[u8; 32], TimeLockError>)
        ensures
            match out {
                Ok(id) => execute_check_error(
                    self@,
                    now,
                    *target,
                    fn_name@,
                    value_views(data@),
                    *salt,
                    *predecessor,
                ).is_none() && id == call_id(
                    *target,
                    fn_name@,
                    value_views(data@),
                    *salt,
                    *predecessor,
                ),
                Err(error) => execute_check_error(
                    self@,
                    now,
                    *target,
                    fn_name@,
                    value_views(data@),
                    *salt,
                    *predecessor,
                ) == Some(error),
            },
    {
        let operation_id = match hash_call(target, fn_name, data, salt, predecessor) {
            Some(id) => id,
            None => {
                return Err(TimeLockError::InvalidParams);
            },
        };
        match self.check_execute(now, &operation_id, predecessor) {
            Ok(()) => Ok(operation_id),
            Err(error) => Err(error),
        }
    }

    /// Executes a ready call and marks its operation as executed. A call to
    /// the timelock itself is run here; a call to another contract has been
    /// invoked by the caller of this function, after `prepare_execute`
    /// allowed it, and `call_succeeded` tells whether it returned without
    /// error.
    pub fn execute(
        &mut self,
        now: u64,
        target: &Address,
        fn_name: &Symbol,
        data: &Vec<Value>,
        salt: &[u8; 32],
        predecessor: &Option<[u8; 32]>,
        call_succeeded: bool,
    ) -> (out: Result<(), TimeLockError>)
        ensures
            match out {
                Ok(()) => execute_error(
                    old(self)@,
                    now,
                    *target,
                    fn_name@,
                    value_views(data@),
                    *salt,
                    *predecessor,
                    call_succeeded,
                ).is_none() && final(self)@ == executed(
                    old(self)@,
                    *target,
                    fn_name@,
                    value_views(data@),
                    *salt,
                    *predecessor,
                ),
                Err(error) => execute_error(
                    old(self)@,
                    now,
                    *target,
                    fn_name@,
                    value_views(data@),
                    *salt,
                    *predecessor,
                    call_succeeded,
                ) == Some(error) && final(self)@ == old(self)@,
            },
    {
        let prepared = self.prepare_execute(now, target, fn_name, data, salt, predecessor);
        let operation_id = match prepared {
            Ok(id) => id,
            Err(error) => {
                return Err(error);
            },
        };
        match self.run_call(target, fn_name, data, call_succeeded) {
            Ok(()) => {},
            Err(error) => {
                return Err(error);
            },
        }
        self.ledger.set(&operation_id, DONE_TIMESTAMP);
        publish(
            &mut self.events,
            Event::CallExecuted(
                CallExecutedEvent {
                    opt_id: operation_id,
                    index: 0,
                    target: *target,
                    fn_name: fn_name.clone(),
                    data: clone_values(data),
                },
            ),
        );
        Ok(())
    }

    /// Cancels an operation that is waiting or ready: it is unset afterwards.
    pub fn cancel(&mut self, now: u64, operation_id: &[u8; 32]) -> (out: Result<(), TimeLockError>)
        ensures
            match out {
                Ok(()) => cancel_error(old(self)@, now, *operation_id).is_none() && final(self)@
                    == cancelled(old(self)@, *operation_id),
                Err(error) => cancel_error(old(self)@, now, *operation_id) == Some(error)
                    && final(self)@ == old(self)@,
            },
    {
        let state = self.get_schedule_state(operation_id, now);
        if state == OperationState::Ready || state == OperationState::Waiting {
            self.ledger.remove(operation_id);
        } else {
            return Err(TimeLockError::InvalidStatus);
        }
        publish(&mut self.events, Event::OperationCancelled { id: *operation_id });
        Ok(())
    }
    /// Checks the shape of a batch.
    pub fn check_batch_shape(targets: usize, fn_names: usize, datas: usize) -> (out: Result<
        (),
        TimeLockError,
    >)
        ensures
            out == (match batch_shape_error(targets as nat, fn_names as nat, datas as nat) {
                Some(error) => Err::<(), TimeLockError>(error),
                None => Ok(()),
            }),
    {
        if fn_names != targets || datas != targets {
            Err(TimeLockError::InvalidParams)
        } else if targets > BATCH_MAX {
            Err(TimeLockError::ExceedMaxCount)
        } else {
            Ok(())
        }
    }

    /// Schedules a batch of calls as one operation, which becomes ready at
    /// `now + delay`. Gives the operation's id and that time.
    pub fn schedule_batch(
        &mut self,
        now: u64,
        targets: &Vec<Address>,
        fn_names: &Vec<Symbol>,
        datas: &Vec<Vec<Value>>,
        salt: &[u8; 32],
        predecessor: &Option<[u8; 32]>,
        delay: u64,
    ) -> (out: Result<([u8; 32], u64), TimeLockError>)
        requires
            now + delay <= u64::MAX,
        ensures
            match out {
                Ok((id, lock_time)) => schedule_batch_error(
                    old(self)@,
                    now,
                    targets@,
                    symbol_views(fn_names@),
                    value_list_views(datas@),
                    *salt,
                    *predecessor,
                    delay,
                ).is_none() && id == batch_id(
                    targets@,
                    symbol_views(fn_names@),
                    value_list_views(datas@),
                    *salt,
                    *predecessor,
                ) && lock_time == now + delay && final(self)@ == batch_scheduled(
                    old(self)@,
                    now,
                    targets@,
                    symbol_views(fn_names@),
                    value_list_views(datas@),
                    *salt,
                    *predecessor,
                    delay,
                ),
                Err(error) => schedule_batch_error(
                    old(self)@,
                    now,
                    targets@,
                    symbol_views(fn_names@),
                    value_list_views(datas@),
                    *salt,
                    *predecessor,
                    delay,
                ) == Some(error) && final(self)@ == old(self)@,
            },
    {
        match Self::check_batch_shape(targets.len(), fn_names.len(), datas.len()) {
            Ok(()) => {},
            Err(error) => {
                return Err(error);
            },
        }
        let mut k: usize = 0;
        while k < targets.len()
            invariant
                k <= targets@.len(),
                self@ == old(self)@,
                batch_shape_error(
                    targets@.len(),
                    fn_names@.len(),
                    datas@.len(),
                ).is_none(),
                forall|j: int|
                    0 <= j < k ==> (#[trigger] targets@[j]).kind == AddressKind::Contract,
            decreases targets@.len() - k,
        {
            if !targets[k].is_contract() {
                assert(targets@[k as int].kind != AddressKind::Contract);
                return Err(TimeLockError::InvalidParams);
            }
            k += 1;
        }
        if !self.has_admin() {
            return Err(TimeLockError::NotInitialized);
        }
        if delay < self.min_delay {
            return Err(TimeLockError::InsufficientDelay);
        }
        let operation_id = match hash_call_batch(targets, fn_names, datas, salt, predecessor) {
            Some(id) => id,
            None => {
                return Err(TimeLockError::InvalidParams);
            },
        };
        let lock_time = match self.add_operation(now, &operation_id, delay) {
            Ok(lock_time) => lock_time,
            Err(error) => {
                return Err(error);
            },
        };
        let actual_predecessor: [u8; 32] = match predecessor {
            Some(id) => *id,
            None => [0u8; 32],
        };
        let ghost base = self@;
        let ghost names = symbol_views(fn_names@);
        let ghost lists = value_list_views(datas@);
        let mut i: usize = 0;
        while i < targets.len()
            invariant
                i <= targets@.len(),
                targets@.len() <= BATCH_MAX,
                fn_names@.len() == targets@.len(),
                datas@.len() == targets@.len(),
                names == symbol_views(fn_names@),
                lists == value_list_views(datas@),
                actual_predecessor == event_predecessor(*predecessor),
                self@ == (TimeLockView {
                    events: base.events + batch_scheduled_events(
                        operation_id,
                        targets@,
                        names,
                        lists,
                        *predecessor,
                        delay,
                        i as nat,
                    ),
                    ..base
                }),
            decreases targets@.len() - i,
        {
            publish(
                &mut self.events,
                Event::CallScheduled(
                    CallScheduledEvent {
                        opt_id: operation_id,
                        index: i as u32,
                        target: targets[i],
                        fn_name: fn_names[i].clone(),
                        data: clone_values(&datas[i]),
                        predecessor: actual_predecessor,
                        delay,
                    },
                ),
            );
            i += 1;
            assert(self@.events =~= base.events + batch_scheduled_events(
                operation_id,
                targets@,
                names,
                lists,
                *predecessor,
                delay,
                i as nat,
            ));
        }
        assert(base.events + Seq::<EventView>::empty() =~= base.events);
        Ok((operation_id, lock_time))
    }

    /// Tells whether the calls of a batch may be invoked now; gives the
    /// operation's id where they may. Nothing changes.
    pub fn prepare_execute_batch(
        &self,
        now: u64,
        targets: &Vec<Address>,
        fn_names: &Vec<Symbol>,
        datas: &Vec<Vec<Value>>,
        salt: &[u8; 32],
        predecessor: &Option<[u8; 32]>,
    ) -> (out: Result<[u8; 32], TimeLockError>)
        ensures
            match out {
                Ok(id) => execute_batch_check_error(
                    self@,
                    now,
                    targets@,
                    symbol_views(fn_names@),
                    value_list_views(datas@),
                    *salt,
                    *predecessor,
                ).is_none() && id == batch_id(
                    targets@,
                    symbol_views(fn_names@),
                    value_list_views(datas@),
                    *salt,
                    *predecessor,
                ),
                Err(error) => execute_batch_check_error(
                    self@,
                    now,
                    targets@,
                    symbol_views(fn_names@),
                    value_list_views(datas@),
                    *salt,
                    *predecessor,
                ) == Some(error),
            },
    {
        match Self::check_batch_shape(targets.len(), fn_names.len(), datas.len()) {
            Ok(()) => {},
            Err(error) => {
                return Err(error);
            },
        }
        let operation_id = match hash_call_batch(targets, fn_names, datas, salt, predecessor) {
            Some(id) => id,
            None => {
                return Err(TimeLockError::InvalidParams);
            },
        };
        match self.check_execute(now, &operation_id, predecessor) {
            Ok(()) => Ok(operation_id),
            Err(error) => Err(error),
        }
    }

    /// Executes a ready batch and marks its operation as executed. Calls to
    /// the timelock itself are run here, in their place in the order; the
    /// calls to other contracts have been invoked by the caller of this
    /// function, in order, after `prepare_execute_batch` allowed it, and
    /// `outcomes[i]` tells whether the call at position `i` returned without
    /// error. Where any call fails, nothing changes.
    pub fn execute_batch(
        &mut self,
        now: u64,
        targets: &Vec<Address>,
        fn_names: &Vec<Symbol>,
        datas: &Vec<Vec<Value>>,
        salt: &[u8; 32],
        predecessor: &Option<[u8; 32]>,
        outcomes: &Vec<bool>,
    ) -> (out: Result<(), TimeLockError>)
        ensures
            match out {
                Ok(()) => execute_batch_error(
                    old(self)@,
                    now,
                    targets@,
                    symbol_views(fn_names@),
                    value_list_views(datas@),
                    *salt,
                    *predecessor,
                    outcomes@,
                ).is_none() && final(self)@ == batch_executed(
                    old(self)@,
                    targets@,
                    symbol_views(fn_names@),
                    value_list_views(datas@),
                    *salt,
                    *predecessor,
                ),
                Err(error) => execute_batch_error(
                    old(self)@,
                    now,
                    targets@,
                    symbol_views(fn_names@),
                    value_list_views(datas@),
                    *salt,
                    *predecessor,
                    outcomes@,
                ) == Some(error) && final(self)@ == old(self)@,
            },
    {
        let operation_id = match self.prepare_execute_batch(
            now,
            targets,
            fn_names,
            datas,
            salt,
            predecessor,
        ) {
            Ok(id) => id,
            Err(error) => {
                return Err(error);
            },
        };
        let ghost base = self@;
        let ghost names = symbol_views(fn_names@);
        let ghost lists = value_list_views(datas@);
        let own = self.address;
        let mut plan: Vec<Option<AdminCall>> = Vec::new();
        let mut k: usize = 0;
        while k < targets.len()
            invariant
                k <= targets@.len(),
                fn_names@.len() == targets@.len(),
                datas@.len() == targets@.len(),
                names == symbol_views(fn_names@),
                lists == value_list_views(datas@),
                plan@.len() == k,
                self@ == old(self)@,
                own == self@.address,
                execute_batch_check_error(
                    self@,
                    now,
                    targets@,
                    names,
                    lists,
                    *salt,
                    *predecessor,
                ).is_none(),
                batch_call_error(own, targets@, names, lists, outcomes@, k as nat).is_none(),
                forall|j: int|
                    0 <= j < k ==> #[trigger] plan@[j] == (if targets@[j] == own {
                        Some(admin_call(names[j], lists[j]).unwrap())
                    } else {
                        None
                    }),
                forall|j: int|
                    0 <= j < k && targets@[j] == own ==> (#[trigger] admin_call(
                        names[j],
                        lists[j],
                    )).is_ok(),
            decreases targets@.len() - k,
        {
            if targets[k].same(&own) {
                match decode_admin_call(&fn_names[k], &datas[k]) {
                    Ok(call) => {
                        plan.push(Some(call));
                    },
                    Err(error) => {
                        assert(batch_call_error(
                            own,
                            targets@,
                            names,
                            lists,
                            outcomes@,
                            (k + 1) as nat,
                        ) == Some(error));
                        proof {
                            lemma_batch_call_error_stays(
                                own,
                                targets@,
                                names,
                                lists,
                                outcomes@,
                                (k + 1) as nat,
                                targets@.len(),
                            );
                        }
                        return Err(error);
                    },
                }
            } else if !(k < outcomes.len() && outcomes[k]) {
                assert(batch_call_error(own, targets@, names, lists, outcomes@, (k + 1) as nat)
                    == Some(TimeLockError::ExecuteFailed));
                proof {
                    lemma_batch_call_error_stays(
                        own,
                        targets@,
                        names,
                        lists,
                        outcomes@,
                        (k + 1) as nat,
                        targets@.len(),
                    );
                }
                return Err(TimeLockError::ExecuteFailed);
            } else {
                plan.push(None);
            }
            k += 1;
        }
        let mut i: usize = 0;
        while i < targets.len()
            invariant
                i <= targets@.len(),
                targets@.len() <= BATCH_MAX,
                fn_names@.len() == targets@.len(),
                datas@.len() == targets@.len(),
                plan@.len() == targets@.len(),
                names == symbol_views(fn_names@),
                lists == value_list_views(datas@),
                own == base.address,
                base == old(self)@,
                operation_id == batch_id(targets@, names, lists, *salt, *predecessor),
                execute_batch_error(
                    base,
                    now,
                    targets@,
                    names,
                    lists,
                    *salt,
                    *predecessor,
                    outcomes@,
                ).is_none(),
                forall|j: int|
                    0 <= j < targets@.len() ==> #[trigger] plan@[j] == (if targets@[j] == own {
                        Some(admin_call(names[j], lists[j]).unwrap())
                    } else {
                        None
                    }),
                forall|j: int|
                    0 <= j < targets@.len() && targets@[j] == own ==> (#[trigger] admin_call(
                        names[j],
                        lists[j],
                    )).is_ok(),
                self@ == batch_ran(base, operation_id, targets@, names, lists, i as nat),
            decreases targets@.len() - i,
        {
            proof {
                lemma_batch_ran_keeps(base, operation_id, targets@, names, lists, i as nat);
                assert(admin_call(names[i as int], lists[i as int]).is_ok() || targets@[i as int]
                    != own);
            }
            match &plan[i] {
                Some(call) => {
                    self.exec_native(call);
                },
                None => {},
            }
            publish(
                &mut self.events,
                Event::CallExecuted(
                    CallExecutedEvent {
                        opt_id: operation_id,
                        index: i as u32,
                        target: targets[i],
                        fn_name: fn_names[i].clone(),
                        data: clone_values(&datas[i]),
                    },
                ),
            );
            i += 1;
        }
        self.ledger.set(&operation_id, DONE_TIMESTAMP);
        Ok(())
    }
}

} // verus!
