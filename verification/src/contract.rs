//! The controller: the timelock and the rules of admission. Proposers
//! schedule, executors execute, cancellers cancel; a call to the controller
//! itself is the owner's to schedule and execute. The owner administers the
//! controller directly where it is self-managed, and through scheduled
//! calls to the controller itself where it is not.
//!
//! Every function that names a caller expects that the host has
//! authenticated that account for the invocation at hand.

use crate::config::{OperationState, RoleLabel, TimeLockError};
use crate::events::{event_views, Event};
use crate::hasher::{batch_id, call_id};
use crate::model::{
    batch_executed, batch_scheduled, batch_shape_error, cancel_error, cancelled,
    execute_batch_check_error, execute_batch_error, execute_check_error, execute_error, executed,
    initialize_error, initialized, schedule_batch_error, schedule_error, scheduled, TimeLockView,
};
use crate::native::{check_fn_name, is_admin_fn};
use crate::time_lock::TimeLock;
use crate::types::{symbol_views, value_list_views, value_views, Address, Symbol, Value, ValueView};
use vstd::prelude::*;

verus! {

broadcast use vstd::array::group_array_axioms;

/// A timelock controller.
#[derive(Debug)]
pub struct TimeLockController {
    lock: TimeLock,
}

impl View for TimeLockController {
    type V = TimeLockView;

    closed spec fn view(&self) -> TimeLockView {
        self.lock@
    }
}

/// Why `caller` may not administer the controller directly, if it may not:
/// the controller is not self-managed, or the caller is not its owner.
pub open spec fn admin_error(lock: TimeLockView, caller: Address) -> Option<TimeLockError> {
    if !lock.self_managed || lock.owner != Some(caller) {
        Some(TimeLockError::NotPermitted)
    } else {
        None
    }
}

/// Why `caller` may not act on calls of which some go to the controller
/// itself (`own_target`) or none does, if it may not: a call to the
/// controller itself takes the owner, any other takes the role.
pub open spec fn gate_error(
    lock: TimeLockView,
    caller: Address,
    own_target: bool,
    role: RoleLabel,
) -> Option<TimeLockError> {
    if own_target {
        if lock.owner == Some(caller) {
            None
        } else {
            Some(TimeLockError::NotPermitted)
        }
    } else if lock.holds(caller, role) {
        None
    } else {
        Some(TimeLockError::NotPermitted)
    }
}

/// Whether a call to the controller itself names a function that the
/// controller does not offer.
pub open spec fn bad_own_call(lock: TimeLockView, target: Address, fn_name: Seq<char>) -> bool {
    target == lock.address && !is_admin_fn(fn_name)
}

/// Whether one of the calls of a batch is a `bad_own_call`.
pub open spec fn bad_own_calls(
    lock: TimeLockView,
    targets: Seq<Address>,
    fn_names: Seq<Seq<char>>,
) -> bool {
    exists|i: int|
        0 <= i < targets.len() && i < fn_names.len() && bad_own_call(
            lock,
            #[trigger] targets[i],
            fn_names[i],
        )
}

/// Why the controller refuses to schedule a call, if it does.
pub open spec fn controller_schedule_error(
    lock: TimeLockView,
    now: u64,
    proposer: Address,
    target: Address,
    fn_name: Seq<char>,
    data: Seq<ValueView>,
    salt: [u8; 32],
    predecessor: Option<[u8; 32]>,
    delay: u64,
) -> Option<TimeLockError> {
    if bad_own_call(lock, target, fn_name) {
        Some(TimeLockError::InvalidFuncName)
    } else if gate_error(lock, proposer, target == lock.address, RoleLabel::Proposer).is_some() {
        gate_error(lock, proposer, target == lock.address, RoleLabel::Proposer)
    } else {
        schedule_error(lock, now, target, fn_name, data, salt, predecessor, delay)
    }
}

/// Why the controller refuses to schedule a batch, if it does.
pub open spec fn controller_schedule_batch_error(
    lock: TimeLockView,
    now: u64,
    proposer: Address,
    targets: Seq<Address>,
    fn_names: Seq<Seq<char>>,
    datas: Seq<Seq<ValueView>>,
    salt: [u8; 32],
    predecessor: Option<[u8; 32]>,
    delay: u64,
) -> Option<TimeLockError> {
    if batch_shape_error(targets.len(), fn_names.len(), datas.len()).is_some() {
        batch_shape_error(targets.len(), fn_names.len(), datas.len())
    } else if bad_own_calls(lock, targets, fn_names) {
        Some(TimeLockError::InvalidFuncName)
    } else if gate_error(
        lock,
        proposer,
        targets.contains(lock.address),
        RoleLabel::Proposer,
    ).is_some() {
        gate_error(lock, proposer, targets.contains(lock.address), RoleLabel::Proposer)
    } else {
        schedule_batch_error(lock, now, targets, fn_names, datas, salt, predecessor, delay)
    }
}

/// Why the controller does not let a call be invoked now, if it does not.
pub open spec fn controller_prepare_error(
    lock: TimeLockView,
    now: u64,
    executor: Address,
    target: Address,
    fn_name: Seq<char>,
    data: Seq<ValueView>,
    salt: [u8; 32],
    predecessor: Option<[u8; 32]>,
) -> Option<TimeLockError> {
    if gate_error(lock, executor, target == lock.address, RoleLabel::Executor).is_some() {
        gate_error(lock, executor, target == lock.address, RoleLabel::Executor)
    } else {
        execute_check_error(lock, now, target, fn_name, data, salt, predecessor)
    }
}

/// Why the controller refuses to execute a call, if it does.
pub open spec fn controller_execute_error(
    lock: TimeLockView,
    now: u64,
    executor: Address,
    target: Address,
    fn_name: Seq<char>,
    data: Seq<ValueView>,
    salt: [u8; 32],
    predecessor: Option<[u8; 32]>,
    call_succeeded: bool,
) -> Option<TimeLockError> {
    if gate_error(lock, executor, target == lock.address, RoleLabel::Executor).is_some() {
        gate_error(lock, executor, target == lock.address, RoleLabel::Executor)
    } else {
        execute_error(lock, now, target, fn_name, data, salt, predecessor, call_succeeded)
    }
}

/// Why the controller does not let the calls of a batch be invoked now, if
/// it does not.
pub open spec fn controller_prepare_batch_error(
    lock: TimeLockView,
    now: u64,
    executor: Address,
    targets: Seq<Address>,
    fn_names: Seq<Seq<char>>,
    datas: Seq<Seq<ValueView>>,
    salt: [u8; 32],
    predecessor: Option<[u8; 32]>,
) -> Option<TimeLockError> {
    if gate_error(lock, executor, targets.contains(lock.address), RoleLabel::Executor).is_some() {
        gate_error(lock, executor, targets.contains(lock.address), RoleLabel::Executor)
    } else {
        execute_batch_check_error(lock, now, targets, fn_names, datas, salt, predecessor)
    }
}

/// Why the controller refuses to execute a batch, if it does.
pub open spec fn controller_execute_batch_error(
    lock: TimeLockView,
    now: u64,
    executor: Address,
    targets: Seq<Address>,
    fn_names: Seq<Seq<char>>,
    datas: Seq<Seq<ValueView>>,
    salt: [u8; 32],
    predecessor: Option<[u8; 32]>,
    outcomes: Seq<bool>,
) -> Option<TimeLockError> {
    if gate_error(lock, executor, targets.contains(lock.address), RoleLabel::Executor).is_some() {
        gate_error(lock, executor, targets.contains(lock.address), RoleLabel::Executor)
    } else {
        execute_batch_error(lock, now, targets, fn_names, datas, salt, predecessor, outcomes)
    }
}

/// Why the controller refuses to cancel an operation, if it does.
pub open spec fn controller_cancel_error(
    lock: TimeLockView,
    now: u64,
    canceller: Address,
    id: [u8; 32],
) -> Option<TimeLockError> {
    if !lock.holds(canceller, RoleLabel::Canceller) {
        Some(TimeLockError::NotPermitted)
    } else {
        cancel_error(lock, now, id)
    }
}

impl TimeLockController {
    /// A controller at `address` that has not been initialized.
    pub fn new(address: Address) -> (out: TimeLockController)
        ensures
            out@ == (TimeLockView {
                address,
                min_delay: 0,
                self_managed: false,
                owner: None,
                roles: Set::empty(),
                ledger: Map::total(|id: [u8; 32]| 0u64),
                events: Seq::empty(),
            }),
    {
        TimeLockController { lock: TimeLock::new(address) }
    }

    /// The controller around the given timelock.
    pub fn from_lock(lock: TimeLock) -> (out: TimeLockController)
        ensures
            out@ == lock@,
    {
        TimeLockController { lock }
    }

    /// The timelock inside the controller.
    pub fn lock(&self) -> (out: &TimeLock)
        ensures
            out@ == self@,
    {
        &self.lock
    }

    /// Hands out the events emitted so far, oldest first, and forgets them.
    pub fn take_events(&mut self) -> (out: Vec<Event>)
        ensures
            event_views(out@) == old(self)@.events,
            final(self)@ == (TimeLockView { events: Seq::empty(), ..old(self)@ }),
    {
        self.lock.take_events()
    }

    /// Whether `account` is one of `targets`.
    fn targets_contain(targets: &Vec<Address>, account: &Address) -> (out: bool)
        ensures
            out == targets@.contains(*account),
    {
        let mut i: usize = 0;
        while i < targets.len()
            invariant
                i <= targets@.len(),
                forall|j: int| 0 <= j < i ==> targets@[j] != *account,
            decreases targets@.len() - i,
        {
            if targets[i].same(account) {
                return true;
            }
            i += 1;
        }
        false
    }

    /// Lets the owner pass where the controller is self-managed.
    fn check_admin(&self, caller: &Address) -> (out: Result<(), TimeLockError>)
        ensures
            out == (match admin_error(self@, *caller) {
                Some(error) => Err::<(), TimeLockError>(error),
                None => Ok(()),
            }),
    {
        if !self.lock.is_self_managed() {
            return Err(TimeLockError::NotPermitted);
        }
        self.check_owner(caller)
    }

    /// Lets the owner pass.
    fn check_owner(&self, caller: &Address) -> (out: Result<(), TimeLockError>)
        ensures
            out == (if self@.owner == Some(*caller) {
                Ok::<(), TimeLockError>(())
            } else {
                Err(TimeLockError::NotPermitted)
            }),
    {
        match self.lock.read_admin() {
            Some(owner) => {
                if owner.same(caller) {
                    Ok(())
                } else {
                    Err(TimeLockError::NotPermitted)
                }
            },
            None => Err(TimeLockError::NotPermitted),
        }
    }

    /// Lets an account pass that holds `role`.
    fn check_role(&self, account: &Address, role: &RoleLabel) -> (out: Result<(), TimeLockError>)
        ensures
            out == (if self@.holds(*account, *role) {
                Ok::<(), TimeLockError>(())
            } else {
                Err(TimeLockError::NotPermitted)
            }),
    {
        if !self.lock.has_role(account, role) {
            return Err(TimeLockError::NotPermitted);
        }
        Ok(())
    }

    /// Lets the owner pass for calls to the controller itself, and the
    /// holders of `role` for other calls.
    fn check_gate(&self, caller: &Address, own_target: bool, role: &RoleLabel) -> (out: Result<
        (),
        TimeLockError,
    >)
        ensures
            out == (match gate_error(self@, *caller, own_target, *role) {
                Some(error) => Err::<(), TimeLockError>(error),
                None => Ok(()),
            }),
    {
        if own_target {
            self.check_owner(caller)
        } else {
            self.check_role(caller, role)
        }
    }

    /// Sets up the controller: the minimum delay, the mode, the owner, and
    /// the first grants. Refused with `AlreadyInitialized` where the
    /// controller has an owner, with `InvalidParams` where the delay is 0 or
    /// a list is empty, with `ExceedMaxCount` where a list is longer than
    /// `MAX_ACCOUNTS_NUM`; nothing changes then.
    pub fn initialize(
        &mut self,
        min_delay: u64,
        proposers: &Vec<Address>,
        executors: &Vec<Address>,
        owner: &Address,
        self_managed: bool,
    ) -> (out: Result<(), TimeLockError>)
        ensures
            match out {
                Ok(()) => initialize_error(old(self)@, min_delay, proposers@, executors@).is_none()
                    && final(self)@ == initialized(
                    old(self)@,
                    min_delay,
                    proposers@,
                    executors@,
                    *owner,
                    self_managed,
                ),
                Err(error) => initialize_error(old(self)@, min_delay, proposers@, executors@)
                    == Some(error) && final(self)@ == old(self)@,
            },
    {
        self.lock.initialize(min_delay, proposers, executors, owner, self_managed)
    }

    /// Schedules a call for `proposer`. Gives the operation's id and the
    /// time at which it becomes ready.
    pub fn schedule(
        &mut self,
        now: u64,
        proposer: &Address,
        target: &Address,
        fn_name: &Symbol,
        data: &Vec<Value>,
        salt: &[u8; 32],
        predecessor: &Option<[u8; 32]>,
        delay: u64,
    ) -> (out: Result<([u8; 32], u64), TimeLockError>)
        requires
            now + delay <= u64::MAX,
        ensures
            match out {
                Ok((id, lock_time)) => controller_schedule_error(
                    old(self)@,
                    now,
                    *proposer,
                    *target,
                    fn_name@,
                    value_views(data@),
                    *salt,
                    *predecessor,
                    delay,
                ).is_none() && id == call_id(
                    *target,
                    fn_name@,
                    value_views(data@),
                    *salt,
                    *predecessor,
                ) && lock_time == now + delay && final(self)@ == scheduled(
                    old(self)@,
                    now,
                    *target,
                    fn_name@,
                    value_views(data@),
                    *salt,
                    *predecessor,
                    delay,
                ),
                Err(error) => controller_schedule_error(
                    old(self)@,
                    now,
                    *proposer,
                    *target,
                    fn_name@,
                    value_views(data@),
                    *salt,
                    *predecessor,
                    delay,
                ) == Some(error) && final(self)@ == old(self)@,
            },
    {
        let own_target = target.same(&self.lock.current_contract_address());
        if own_target {
            match check_fn_name(fn_name) {
                Ok(()) => {},
                Err(error) => {
                    return Err(error);
                },
            }
        }
        match self.check_gate(proposer, own_target, &RoleLabel::Proposer) {
            Ok(()) => {},
            Err(error) => {
                return Err(error);
            },
        }
        self.lock.schedule(now, target, fn_name, data, salt, predecessor, delay)
    }

    /// Schedules a batch of calls for `proposer`, as one operation. Gives
    /// the operation's id and the time at which it becomes ready.
    pub fn schedule_batch(
        &mut self,
        now: u64,
        proposer: &Address,
        targets: &Vec<Address>,
        fn_names: &Vec<Symbol>,
        datas: &Vec<Vec<Value>>,
        salt: &[u8; 32],
        predecessor: &Option<[u8; 32]>,
        delay: u64,
    ) -> (out: Result<([u8; 32], u64), TimeLockError>)
        requires
            now + delay <= u64::MAX,
        ensures
            match out {
                Ok((id, lock_time)) => controller_schedule_batch_error(
                    old(self)@,
                    now,
                    *proposer,
                    targets@,
                    symbol_views(fn_names@),
                    value_list_views(datas@),
                    *salt,
                    *predecessor,
                    delay,
                ).is_none() && id == batch_id(
                    targets@,
                    symbol_views(fn_names@),
                    value_list_views(datas@),
                    *salt,
                    *predecessor,
                ) && lock_time == now + delay && final(self)@ == batch_scheduled(
                    old(self)@,
                    now,
                    targets@,
                    symbol_views(fn_names@),
                    value_list_views(datas@),
                    *salt,
                    *predecessor,
                    delay,
                ),
                Err(error) => controller_schedule_batch_error(
                    old(self)@,
                    now,
                    *proposer,
                    targets@,
                    symbol_views(fn_names@),
                    value_list_views(datas@),
                    *salt,
                    *predecessor,
                    delay,
                ) == Some(error) && final(self)@ == old(self)@,
            },
    {
        match TimeLock::check_batch_shape(targets.len(), fn_names.len(), datas.len()) {
            Ok(()) => {},
            Err(error) => {
                return Err(error);
            },
        }
        let own = self.lock.current_contract_address();
        let ghost names = symbol_views(fn_names@);
        let mut i: usize = 0;
        while i < targets.len()
            invariant
                i <= targets@.len(),
                fn_names@.len() == targets@.len(),
                names == symbol_views(fn_names@),
                self@ == old(self)@,
                own == self@.address,
                batch_shape_error(
                    targets@.len(),
                    fn_names@.len(),
                    datas@.len(),
                ).is_none(),
                forall|j: int|
                    0 <= j < i ==> !bad_own_call(self@, #[trigger] targets@[j], names[j]),
            decreases targets@.len() - i,
        {
            if targets[i].same(&own) {
                match check_fn_name(&fn_names[i]) {
                    Ok(()) => {},
                    Err(error) => {
                        assert(bad_own_call(self@, targets@[i as int], names[i as int]));
                        assert(bad_own_calls(self@, targets@, names));
                        return Err(error);
                    },
                }
            }
            i += 1;
        }
        let own_target = Self::targets_contain(targets, &own);
        match self.check_gate(proposer, own_target, &RoleLabel::Proposer) {
            Ok(()) => {},
            Err(error) => {
                return Err(error);
            },
        }
        self.lock.schedule_batch(now, targets, fn_names, datas, salt, predecessor, delay)
    }

    /// Tells whether `executor` may have a call invoked now; gives the
    /// operation's id where it may. Nothing changes.
    pub fn prepare_execute(
        &self,
        now: u64,
        executor: &Address,
        target: &Address,
        fn_name: &Symbol,
        data: &Vec<Value>,
        salt: &[u8; 32],
        predecessor: &Option<[u8; 32]>,
    ) -> (out: Result<[u8; 32], TimeLockError>)
        ensures
            match out {
                Ok(id) => controller_prepare_error(
                    self@,
                    now,
                    *executor,
                    *target,
                    fn_name@,
                    value_views(data@),
                    *salt,
                    *predecessor,
                ).is_none() && id == call_id(
                    *target,
                    fn_name@,
                    value_views(data@),
                    *salt,
                    *predecessor,
                ),
                Err(error) => controller_prepare_error(
                    self@,
                    now,
                    *executor,
                    *target,
                    fn_name@,
                    value_views(data@),
                    *salt,
                    *predecessor,
                ) == Some(error),
            },
    {
        let own_target = target.same(&self.lock.current_contract_address());
        match self.check_gate(executor, own_target, &RoleLabel::Executor) {
            Ok(()) => {},
            Err(error) => {
                return Err(error);
            },
        }
        self.lock.prepare_execute(now, target, fn_name, data, salt, predecessor)
    }

    /// Executes a ready call for `executor` and marks its operation as
    /// executed. A call to the controller itself is run here. A call to
    /// another contract has been invoked by the caller of this function,
    /// after `prepare_execute` allowed it, and `call_succeeded` tells whether
    /// it returned without error. On any error nothing changes.
    pub fn execute(
        &mut self,
        now: u64,
        executor: &Address,
        target: &Address,
        fn_name: &Symbol,
        data: &Vec<Value>,
        salt: &[u8; 32],
        predecessor: &Option<[u8; 32]>,
        call_succeeded: bool,
    ) -> (out: Result<(), TimeLockError>)
        ensures
            match out {
                Ok(()) => controller_execute_error(
                    old(self)@,
                    now,
                    *executor,
                    *target,
                    fn_name@,
                    value_views(data@),
                    *salt,
                    *predecessor,
                    call_succeeded,
                ).is_none() && final(self)@ == executed(
                    old(self)@,
                    *target,
                    fn_name@,
                    value_views(data@),
                    *salt,
                    *predecessor,
                ),
                Err(error) => controller_execute_error(
                    old(self)@,
                    now,
                    *executor,
                    *target,
                    fn_name@,
                    value_views(data@),
                    *salt,
                    *predecessor,
                    call_succeeded,
                ) == Some(error) && final(self)@ == old(self)@,
            },
    {
        let own_target = target.same(&self.lock.current_contract_address());
        match self.check_gate(executor, own_target, &RoleLabel::Executor) {
            Ok(()) => {},
            Err(error) => {
                return Err(error);
            },
        }
        self.lock.execute(now, target, fn_name, data, salt, predecessor, call_succeeded)
    }

    /// Tells whether `executor` may have the calls of a batch invoked now;
    /// gives the operation's id where it may. Nothing changes.
    pub fn prepare_execute_batch(
        &self,
        now: u64,
        executor: &Address,
        targets: &Vec<Address>,
        fn_names: &Vec<Symbol>,
        datas: &Vec<Vec<Value>>,
        salt: &[u8; 32],
        predecessor: &Option<[u8; 32]>,
    ) -> (out: Result<[u8; 32], TimeLockError>)
        ensures
            match out {
                Ok(id) => controller_prepare_batch_error(
                    self@,
                    now,
                    *executor,
                    targets@,
                    symbol_views(fn_names@),
                    value_list_views(datas@),
                    *salt,
                    *predecessor,
                ).is_none() && id == batch_id(
                    targets@,
                    symbol_views(fn_names@),
                    value_list_views(datas@),
                    *salt,
                    *predecessor,
                ),
                Err(error) => controller_prepare_batch_error(
                    self@,
                    now,
                    *executor,
                    targets@,
                    symbol_views(fn_names@),
                    value_list_views(datas@),
                    *salt,
                    *predecessor,
                ) == Some(error),
            },
    {
        let own = self.lock.current_contract_address();
        let own_target = Self::targets_contain(targets, &own);
        match self.check_gate(executor, own_target, &RoleLabel::Executor) {
            Ok(()) => {},
            Err(error) => {
                return Err(error);
            },
        }
        self.lock.prepare_execute_batch(now, targets, fn_names, datas, salt, predecessor)
    }

    /// Executes a ready batch for `executor` and marks its operation as
    /// executed. Calls to the controller itself are run here, in their place
    /// in the order. The calls to other contracts have been invoked by the
    /// caller of this function, in order, after `prepare_execute_batch`
    /// allowed it; `outcomes[i]` tells whether the call at position `i`
    /// returned without error, and a missing outcome counts as a failure.
    /// Where any call fails, nothing changes.
    pub fn execute_batch(
        &mut self,
        now: u64,
        executor: &Address,
        targets: &Vec<Address>,
        fn_names: &Vec<Symbol>,
        datas: &Vec<Vec<Value>>,
        salt: &[u8; 32],
        predecessor: &Option<[u8; 32]>,
        outcomes: &Vec<bool>,
    ) -> (out: Result<(), TimeLockError>)
        ensures
            match out {
                Ok(()) => controller_execute_batch_error(
                    old(self)@,
                    now,
                    *executor,
                    targets@,
                    symbol_views(fn_names@),
                    value_list_views(datas@),
                    *salt,
                    *predecessor,
                    outcomes@,
                ).is_none() && final(self)@ == batch_executed(
                    old(self)@,
                    targets@,
                    symbol_views(fn_names@),
                    value_list_views(datas@),
                    *salt,
                    *predecessor,
                ),
                Err(error) => controller_execute_batch_error(
                    old(self)@,
                    now,
                    *executor,
                    targets@,
                    symbol_views(fn_names@),
                    value_list_views(datas@),
                    *salt,
                    *predecessor,
                    outcomes@,
                ) == Some(error) && final(self)@ == old(self)@,
            },
    {
        let own = self.lock.current_contract_address();
        let own_target = Self::targets_contain(targets, &own);
        match self.check_gate(executor, own_target, &RoleLabel::Executor) {
            Ok(()) => {},
            Err(error) => {
                return Err(error);
            },
        }
        self.lock.execute_batch(now, targets, fn_names, datas, salt, predecessor, outcomes)
    }

    /// Cancels, for `canceller`, an operation that is waiting or ready: it
    /// is unset afterwards.
    pub fn cancel(
        &mut self,
        now: u64,
        canceller: &Address,
        operation_id: &[u8; 32],
    ) -> (out: Result<(), TimeLockError>)
        ensures
            match out {
                Ok(()) => controller_cancel_error(
                    old(self)@,
                    now,
                    *canceller,
                    *operation_id,
                ).is_none() && final(self)@ == cancelled(old(self)@, *operation_id),
                Err(error) => controller_cancel_error(old(self)@, now, *canceller, *operation_id)
                    == Some(error) && final(self)@ == old(self)@,
            },
    {
        match self.check_role(canceller, &RoleLabel::Canceller) {
            Ok(()) => {},
            Err(error) => {
                return Err(error);
            },
        }
        self.lock.cancel(now, operation_id)
    }

    /// Sets the minimum delay for operations scheduled from now on, for the
    /// owner of a self-managed controller.
    pub fn update_min_delay(&mut self, caller: &Address, delay: u64) -> (out: Result<
        (),
        TimeLockError,
    >)
        ensures
            match out {
                Ok(()) => admin_error(old(self)@, *caller).is_none() && final(self)@ == old(
                    self,
                )@.with_min_delay(delay),
                Err(error) => admin_error(old(self)@, *caller) == Some(error) && final(self)@
                    == old(self)@,
            },
    {
        match self.check_admin(caller) {
            Ok(()) => {},
            Err(error) => {
                return Err(error);
            },
        }
        self.lock.update_min_delay(delay);
        Ok(())
    }

    /// Grants `role` to `account`, for the owner of a self-managed
    /// controller; tells whether the grant is new.
    pub fn grant_role(&mut self, caller: &Address, account: &Address, role: &RoleLabel) -> (out:
        Result<bool, TimeLockError>)
        ensures
            match out {
                Ok(newly) => admin_error(old(self)@, *caller).is_none() && newly == !old(
                    self,
                )@.holds(*account, *role) && final(self)@ == old(self)@.with_grant(*account, *role),
                Err(error) => admin_error(old(self)@, *caller) == Some(error) && final(self)@
                    == old(self)@,
            },
    {
        match self.check_admin(caller) {
            Ok(()) => {},
            Err(error) => {
                return Err(error);
            },
        }
        Ok(self.lock.grant_role(account, role))
    }

    /// Revokes `role` from `account`, for the owner of a self-managed
    /// controller; tells whether there was a grant.
    pub fn revoke_role(&mut self, caller: &Address, account: &Address, role: &RoleLabel) -> (out:
        Result<bool, TimeLockError>)
        ensures
            match out {
                Ok(was_granted) => admin_error(old(self)@, *caller).is_none() && was_granted
                    == old(self)@.holds(*account, *role) && final(self)@ == old(
                    self,
                )@.without_grant(*account, *role),
                Err(error) => admin_error(old(self)@, *caller) == Some(error) && final(self)@
                    == old(self)@,
            },
    {
        match self.check_admin(caller) {
            Ok(()) => {},
            Err(error) => {
                return Err(error);
            },
        }
        Ok(self.lock.revoke_role(account, role))
    }

    /// Makes `owner` the owner, for the owner of a self-managed controller.
    pub fn update_owner(&mut self, caller: &Address, owner: &Address) -> (out: Result<
        (),
        TimeLockError,
    >)
        ensures
            match out {
                Ok(()) => admin_error(old(self)@, *caller).is_none() && final(self)@ == old(
                    self,
                )@.with_owner(*owner),
                Err(error) => admin_error(old(self)@, *caller) == Some(error) && final(self)@
                    == old(self)@,
            },
    {
        match self.check_admin(caller) {
            Ok(()) => {},
            Err(error) => {
                return Err(error);
            },
        }
        self.lock.set_admin(owner);
        Ok(())
    }

    /// The lock time recorded for `operation_id`: 0 where the operation is
    /// unset, `DONE_TIMESTAMP` where it was executed, else the time at which
    /// it becomes ready.
    pub fn get_schedule_lock_time(&self, operation_id: &[u8; 32]) -> (out: u64)
        ensures
            out == self@.ledger[*operation_id],
    {
        self.lock.get_schedule_lock_time(operation_id)
    }

    /// The lifecycle state of `operation_id` at the time `now`.
    pub fn get_schedule_state(&self, operation_id: &[u8; 32], now: u64) -> (out: OperationState)
        ensures
            out == self@.state(*operation_id, now),
    {
        self.lock.get_schedule_state(operation_id, now)
    }

    /// Whether `account` holds `role`.
    pub fn has_role(&self, account: &Address, role: &RoleLabel) -> (out: bool)
        ensures
            out == self@.holds(*account, *role),
    {
        self.lock.has_role(account, role)
    }

    /// The least delay that a new operation must wait; 0 before
    /// initialization.
    pub fn get_min_delay(&self) -> (out: u64)
        ensures
            out == self@.min_delay,
    {
        self.lock.get_min_delay()
    }

    /// Whether `account` is the owner.
    pub fn is_owner(&self, account: &Address) -> (out: bool)
        ensures
            out == (self@.owner == Some(*account)),
    {
        match self.lock.read_admin() {
            Some(owner) => owner.same(account),
            None => false,
        }
    }

    /// The events emitted so far, oldest first.
    pub fn events(&self) -> (out: &Vec<Event>)
        ensures
            event_views(out@) == self@.events,
    {
        self.lock.events()
    }
}

} // verus!
