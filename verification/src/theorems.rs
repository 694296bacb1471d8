//! What holds of the controller as a whole: the lifecycle of an operation
//! and the rules that guard it, proved from the transitions.

use crate::config::{operation_state, OperationState, RoleLabel, TimeLockError, DONE_TIMESTAMP};
use crate::contract::{
    admin_error, bad_own_call, controller_cancel_error, controller_execute_error,
    controller_schedule_error, gate_error,
};
use crate::hasher::{batch_id, call_fits, call_id};
use crate::model::{
    batch_executed, batch_scheduled, call_error, cancel_error, cancelled, execute_batch_error,
    execute_error, executed, initialized, lemma_batch_ran_keeps, schedule_batch_error,
    schedule_error, scheduled, TimeLockView,
};
use crate::native::{admin_call, role_of, role_value, AdminCall};
use crate::types::{value_views, Address, AddressKind, Symbol, Value, ValueView};
use vstd::prelude::*;

verus! {

broadcast use vstd::array::group_array_axioms;

/// Two call descriptions that hold the same target, function name,
/// arguments, salt and predecessor have the same identity, wherever the
/// values are stored; the delay and the state of the controller play no
/// part in it.
pub proof fn theorem_identity_is_determined(
    target: Address,
    fn_name: Symbol,
    data: Vec<Value>,
    other_fn_name: Symbol,
    other_data: Vec<Value>,
    salt: [u8; 32],
    predecessor: Option<[u8; 32]>,
)
    requires
        fn_name@ == other_fn_name@,
        value_views(data@) == value_views(other_data@),
    ensures
        call_fits(target, fn_name@, value_views(data@), salt, predecessor) == call_fits(
            target,
            other_fn_name@,
            value_views(other_data@),
            salt,
            predecessor,
        ),
        call_id(target, fn_name@, value_views(data@), salt, predecessor) == call_id(
            target,
            other_fn_name@,
            value_views(other_data@),
            salt,
            predecessor,
        ),
{
}

/// At any time an operation is in exactly one of the four states, and the
/// lock time alone, with the clock, tells which: 0 is unset, the done mark
/// is executed, any other lock time is waiting while the clock is before it
/// and ready from then on.
pub proof fn theorem_state_is_total(lock_time: u64, now: u64)
    ensures
        operation_state(now, lock_time) == OperationState::Unset <==> lock_time == 0,
        operation_state(now, lock_time) == OperationState::Executed <==> lock_time
            == DONE_TIMESTAMP,
        operation_state(now, lock_time) == OperationState::Waiting <==> lock_time > DONE_TIMESTAMP
            && now < lock_time,
        operation_state(now, lock_time) == OperationState::Ready <==> lock_time > DONE_TIMESTAMP
            && now >= lock_time,
{
}

/// The clock alone moves an operation from waiting to ready and nowhere
/// else: as time goes on, an unset operation stays unset, an executed one
/// executed, a ready one ready, and a waiting one is ready as soon as the
/// clock reaches its lock time.
pub proof fn theorem_clock_only_readies(lock_time: u64, now: u64, later: u64)
    requires
        now <= later,
    ensures
        operation_state(now, lock_time) == OperationState::Unset ==> operation_state(
            later,
            lock_time,
        ) == OperationState::Unset,
        operation_state(now, lock_time) == OperationState::Executed ==> operation_state(
            later,
            lock_time,
        ) == OperationState::Executed,
        operation_state(now, lock_time) == OperationState::Ready ==> operation_state(
            later,
            lock_time,
        ) == OperationState::Ready,
        operation_state(now, lock_time) == OperationState::Waiting ==> operation_state(
            later,
            lock_time,
        ) == (if later < lock_time {
            OperationState::Waiting
        } else {
            OperationState::Ready
        }),
{
}

/// Scheduling takes an unset operation to waiting, or to ready where the
/// delay is 0, and leaves every other operation as it was. The lock times 0
/// and 1 stand for unset and executed, so this speaks of schedules whose
/// ready time lies after 1.
pub proof fn theorem_schedule_transition(
    lock: TimeLockView,
    now: u64,
    target: Address,
    fn_name: Seq<char>,
    data: Seq<ValueView>,
    salt: [u8; 32],
    predecessor: Option<[u8; 32]>,
    delay: u64,
    other: [u8; 32],
)
    requires
        DONE_TIMESTAMP < now + delay <= u64::MAX,
        schedule_error(lock, now, target, fn_name, data, salt, predecessor, delay).is_none(),
        other != call_id(target, fn_name, data, salt, predecessor),
    ensures
        lock.state(call_id(target, fn_name, data, salt, predecessor), now)
            == OperationState::Unset,
        scheduled(lock, now, target, fn_name, data, salt, predecessor, delay).state(
            call_id(target, fn_name, data, salt, predecessor),
            now,
        ) == (if delay > 0 {
            OperationState::Waiting
        } else {
            OperationState::Ready
        }),
        scheduled(lock, now, target, fn_name, data, salt, predecessor, delay).ledger[other]
            == lock.ledger[other],
{
}

/// Executing takes a ready operation to executed and leaves every other
/// operation as it was.
pub proof fn theorem_execute_transition(
    lock: TimeLockView,
    now: u64,
    later: u64,
    target: Address,
    fn_name: Seq<char>,
    data: Seq<ValueView>,
    salt: [u8; 32],
    predecessor: Option<[u8; 32]>,
    call_succeeded: bool,
    other: [u8; 32],
)
    requires
        execute_error(
            lock,
            now,
            target,
            fn_name,
            data,
            salt,
            predecessor,
            call_succeeded,
        ).is_none(),
        other != call_id(target, fn_name, data, salt, predecessor),
    ensures
        lock.state(call_id(target, fn_name, data, salt, predecessor), now)
            == OperationState::Ready,
        executed(lock, target, fn_name, data, salt, predecessor).state(
            call_id(target, fn_name, data, salt, predecessor),
            later,
        ) == OperationState::Executed,
        executed(lock, target, fn_name, data, salt, predecessor).ledger[other]
            == lock.ledger[other],
{
    lemma_call_keeps_ledger(lock, target, fn_name, data);
}

/// A batch goes through the lifecycle as one operation: scheduling takes
/// it from unset to waiting (to ready where the delay is 0), executing takes
/// it from ready to executed, a second execution fails with `TimeNotReady`,
/// and every other operation is left as it was. As for a single call, this
/// speaks of schedules whose ready time lies after 1.
pub proof fn theorem_batch_transitions(
    lock: TimeLockView,
    now: u64,
    later: u64,
    targets: Seq<Address>,
    fn_names: Seq<Seq<char>>,
    datas: Seq<Seq<ValueView>>,
    salt: [u8; 32],
    predecessor: Option<[u8; 32]>,
    delay: u64,
    outcomes: Seq<bool>,
    other: [u8; 32],
)
    requires
        other != batch_id(targets, fn_names, datas, salt, predecessor),
    ensures
        DONE_TIMESTAMP < now + delay <= u64::MAX && schedule_batch_error(
            lock,
            now,
            targets,
            fn_names,
            datas,
            salt,
            predecessor,
            delay,
        ).is_none() ==> lock.state(batch_id(targets, fn_names, datas, salt, predecessor), now)
            == OperationState::Unset && batch_scheduled(
            lock,
            now,
            targets,
            fn_names,
            datas,
            salt,
            predecessor,
            delay,
        ).state(batch_id(targets, fn_names, datas, salt, predecessor), now) == (if delay > 0 {
            OperationState::Waiting
        } else {
            OperationState::Ready
        }) && batch_scheduled(
            lock,
            now,
            targets,
            fn_names,
            datas,
            salt,
            predecessor,
            delay,
        ).ledger[other] == lock.ledger[other],
        execute_batch_error(
            lock,
            now,
            targets,
            fn_names,
            datas,
            salt,
            predecessor,
            outcomes,
        ).is_none() ==> lock.state(batch_id(targets, fn_names, datas, salt, predecessor), now)
            == OperationState::Ready && batch_executed(
            lock,
            targets,
            fn_names,
            datas,
            salt,
            predecessor,
        ).state(batch_id(targets, fn_names, datas, salt, predecessor), later)
            == OperationState::Executed && batch_executed(
            lock,
            targets,
            fn_names,
            datas,
            salt,
            predecessor,
        ).ledger[other] == lock.ledger[other] && execute_batch_error(
            batch_executed(lock, targets, fn_names, datas, salt, predecessor),
            later,
            targets,
            fn_names,
            datas,
            salt,
            predecessor,
            outcomes,
        ) == Some(TimeLockError::TimeNotReady),
{
    lemma_batch_ran_keeps(
        lock,
        batch_id(targets, fn_names, datas, salt, predecessor),
        targets,
        fn_names,
        datas,
        targets.len(),
    );
}

/// Running a call changes no lock time, nor the controller's address.
pub proof fn lemma_call_keeps_ledger(
    lock: TimeLockView,
    target: Address,
    fn_name: Seq<char>,
    data: Seq<ValueView>,
)
    ensures
        lock.after_call(target, fn_name, data).ledger == lock.ledger,
        lock.after_call(target, fn_name, data).address == lock.address,
{
}

/// Administration changes no lock time: setting the minimum delay, granting
/// and revoking a role, changing the owner and initializing leave every
/// operation in its state. So does running an administration call. An
/// operation changes its state only where it is scheduled, executed or
/// cancelled, or where the clock reaches its lock time.
pub proof fn theorem_administration_keeps_operations(
    lock: TimeLockView,
    delay: u64,
    account: Address,
    role: RoleLabel,
    proposers: Seq<Address>,
    executors: Seq<Address>,
    self_managed: bool,
    call: AdminCall,
)
    ensures
        lock.with_min_delay(delay).ledger == lock.ledger,
        lock.with_grant(account, role).ledger == lock.ledger,
        lock.without_grant(account, role).ledger == lock.ledger,
        lock.with_owner(account).ledger == lock.ledger,
        lock.after_admin(call).ledger == lock.ledger,
        initialized(lock, delay, proposers, executors, account, self_managed).ledger
            == lock.ledger,
{
}

/// An executed operation stays executed: it cannot be scheduled again,
/// executed again or cancelled, at any time.
pub proof fn theorem_executed_is_terminal(
    lock: TimeLockView,
    now: u64,
    target: Address,
    fn_name: Seq<char>,
    data: Seq<ValueView>,
    salt: [u8; 32],
    predecessor: Option<[u8; 32]>,
    delay: u64,
    call_succeeded: bool,
)
    requires
        lock.ledger[call_id(target, fn_name, data, salt, predecessor)] == DONE_TIMESTAMP,
    ensures
        schedule_error(lock, now, target, fn_name, data, salt, predecessor, delay).is_some(),
        execute_error(
            lock,
            now,
            target,
            fn_name,
            data,
            salt,
            predecessor,
            call_succeeded,
        ).is_some(),
        cancel_error(lock, now, call_id(target, fn_name, data, salt, predecessor)) == Some(
            TimeLockError::InvalidStatus,
        ),
{
}

/// After a call was executed, executing the same call again fails, at any
/// later time and whatever the target would answer: with `TimeNotReady`
/// where the executor is still admitted, and with `NotPermitted` where the
/// call itself took that away.
pub proof fn theorem_no_double_execute(
    lock: TimeLockView,
    now: u64,
    later: u64,
    executor: Address,
    target: Address,
    fn_name: Seq<char>,
    data: Seq<ValueView>,
    salt: [u8; 32],
    predecessor: Option<[u8; 32]>,
    call_succeeded: bool,
    succeeds_again: bool,
)
    requires
        controller_execute_error(
            lock,
            now,
            executor,
            target,
            fn_name,
            data,
            salt,
            predecessor,
            call_succeeded,
        ).is_none(),
    ensures
        execute_error(
            executed(lock, target, fn_name, data, salt, predecessor),
            later,
            target,
            fn_name,
            data,
            salt,
            predecessor,
            succeeds_again,
        ) == Some(TimeLockError::TimeNotReady),
        controller_execute_error(
            executed(lock, target, fn_name, data, salt, predecessor),
            later,
            executor,
            target,
            fn_name,
            data,
            salt,
            predecessor,
            succeeds_again,
        ) == (if gate_error(
            executed(lock, target, fn_name, data, salt, predecessor),
            executor,
            target == lock.address,
            RoleLabel::Executor,
        ).is_none() {
            Some(TimeLockError::TimeNotReady)
        } else {
            Some(TimeLockError::NotPermitted)
        }),
{
    lemma_call_keeps_ledger(lock, target, fn_name, data);
}

/// A delay below the minimum is never accepted, and a caller whom an
/// initialized controller admits with a call to a contract is told
/// `InsufficientDelay`.
pub proof fn theorem_short_delay_is_refused(
    lock: TimeLockView,
    now: u64,
    proposer: Address,
    target: Address,
    fn_name: Seq<char>,
    data: Seq<ValueView>,
    salt: [u8; 32],
    predecessor: Option<[u8; 32]>,
    delay: u64,
)
    requires
        delay < lock.min_delay,
    ensures
        controller_schedule_error(
            lock,
            now,
            proposer,
            target,
            fn_name,
            data,
            salt,
            predecessor,
            delay,
        ).is_some(),
        !bad_own_call(lock, target, fn_name) && gate_error(
            lock,
            proposer,
            target == lock.address,
            RoleLabel::Proposer,
        ).is_none() && target.kind == AddressKind::Contract && lock.owner.is_some()
            ==> controller_schedule_error(
            lock,
            now,
            proposer,
            target,
            fn_name,
            data,
            salt,
            predecessor,
            delay,
        ) == Some(TimeLockError::InsufficientDelay),
{
}

/// A delay of at least the minimum, the minimum itself included, is
/// accepted: a caller whom an initialized controller admits schedules any
/// call to a contract that is small enough to have an identity and whose
/// operation is unset.
pub proof fn theorem_sufficient_delay_is_accepted(
    lock: TimeLockView,
    now: u64,
    proposer: Address,
    target: Address,
    fn_name: Seq<char>,
    data: Seq<ValueView>,
    salt: [u8; 32],
    predecessor: Option<[u8; 32]>,
    delay: u64,
)
    requires
        delay >= lock.min_delay,
        lock.owner.is_some(),
        !bad_own_call(lock, target, fn_name),
        gate_error(lock, proposer, target == lock.address, RoleLabel::Proposer).is_none(),
        target.kind == AddressKind::Contract,
        call_fits(target, fn_name, data, salt, predecessor),
        lock.state(call_id(target, fn_name, data, salt, predecessor), now)
            == OperationState::Unset,
    ensures
        controller_schedule_error(
            lock,
            now,
            proposer,
            target,
            fn_name,
            data,
            salt,
            predecessor,
            delay,
        ).is_none(),
{
}

/// A ready operation with a predecessor runs only after the predecessor was
/// executed. While the predecessor is waiting or ready, and also where it
/// is unset (never scheduled, or cancelled), execution fails with
/// `PredecessorNotDone`; once it is executed, nothing but the call itself
/// can fail.
pub proof fn theorem_predecessor_gates_execution(
    lock: TimeLockView,
    now: u64,
    executor: Address,
    target: Address,
    fn_name: Seq<char>,
    data: Seq<ValueView>,
    salt: [u8; 32],
    predecessor: [u8; 32],
    call_succeeded: bool,
)
    requires
        gate_error(lock, executor, target == lock.address, RoleLabel::Executor).is_none(),
        call_fits(target, fn_name, data, salt, Some(predecessor)),
        lock.state(call_id(target, fn_name, data, salt, Some(predecessor)), now)
            == OperationState::Ready,
    ensures
        controller_execute_error(
            lock,
            now,
            executor,
            target,
            fn_name,
            data,
            salt,
            Some(predecessor),
            call_succeeded,
        ) == (if lock.state(predecessor, now) == OperationState::Executed {
            call_error(lock.address, target, fn_name, data, call_succeeded)
        } else {
            Some(TimeLockError::PredecessorNotDone)
        }),
{
}

/// Granting a role that the account holds already changes no grant, and
/// revoking a role that the account does not hold changes none either; in
/// both cases only the event is added.
pub proof fn theorem_roles_are_idempotent(lock: TimeLockView, account: Address, role: RoleLabel)
    ensures
        lock.holds(account, role) ==> lock.with_grant(account, role).roles == lock.roles,
        !lock.holds(account, role) ==> lock.without_grant(account, role).roles == lock.roles,
        lock.with_grant(account, role).holds(account, role),
        !lock.without_grant(account, role).holds(account, role),
        lock.with_grant(account, role).with_grant(account, role).roles == lock.with_grant(
            account,
            role,
        ).roles,
        lock.without_grant(account, role).without_grant(account, role).roles
            == lock.without_grant(account, role).roles,
{
    assert(lock.holds(account, role) ==> lock.with_grant(account, role).roles =~= lock.roles);
    assert(!lock.holds(account, role) ==> lock.without_grant(account, role).roles =~= lock.roles);
    assert(lock.with_grant(account, role).with_grant(account, role).roles =~= lock.with_grant(
        account,
        role,
    ).roles);
    assert(lock.without_grant(account, role).without_grant(account, role).roles
        =~= lock.without_grant(account, role).roles);
}

/// A canceller cancels an operation exactly while it is waiting or ready,
/// and the operation is unset afterwards, at any time; an unset or executed
/// operation is refused with `InvalidStatus`.
pub proof fn theorem_cancel_boundary(
    lock: TimeLockView,
    now: u64,
    later: u64,
    canceller: Address,
    id: [u8; 32],
)
    requires
        lock.holds(canceller, RoleLabel::Canceller),
    ensures
        controller_cancel_error(lock, now, canceller, id) == (if lock.state(id, now)
            == OperationState::Waiting || lock.state(id, now) == OperationState::Ready {
            None
        } else {
            Some(TimeLockError::InvalidStatus)
        }),
        cancelled(lock, id).state(id, later) == OperationState::Unset,
        forall|other: [u8; 32]|
            other != id ==> cancelled(lock, id).ledger[other] == lock.ledger[other],
{
}

/// A role is read back from the value that stands for it, and from no other
/// value.
pub proof fn theorem_role_round_trip(role: RoleLabel, value: ValueView)
    ensures
        role_of(role_value(role)) == Some(role),
        role_of(value) == Some(role) ==> value == role_value(role),
{
}

/// Each administration call is read back from its name and the values that
/// stand for its arguments.
pub proof fn theorem_admin_call_round_trip(account: Address, role: RoleLabel, delay: u64)
    ensures
        admin_call("update_min_delay"@, seq![ValueView::U64(delay)]) == Ok::<
            AdminCall,
            TimeLockError,
        >(AdminCall::UpdateMinDelay(delay)),
        admin_call("grant_role"@, seq![ValueView::Address(account), role_value(role)]) == Ok::<
            AdminCall,
            TimeLockError,
        >(AdminCall::GrantRole(account, role)),
        admin_call("revoke_role"@, seq![ValueView::Address(account), role_value(role)]) == Ok::<
            AdminCall,
            TimeLockError,
        >(AdminCall::RevokeRole(account, role)),
        admin_call("update_owner"@, seq![ValueView::Address(account)]) == Ok::<
            AdminCall,
            TimeLockError,
        >(AdminCall::UpdateOwner(account)),
{
    reveal_strlit("update_min_delay");
    reveal_strlit("grant_role");
    reveal_strlit("revoke_role");
    reveal_strlit("update_owner");
    assert("grant_role"@.len() != "update_min_delay"@.len());
    assert("revoke_role"@[0] != "grant_role"@[0]);
    assert("revoke_role"@.len() != "update_min_delay"@.len());
    assert("update_owner"@.len() != "update_min_delay"@.len());
    assert("update_owner"@[0] != "grant_role"@[0]);
    assert("update_owner"@[0] != "revoke_role"@[0]);
}

/// An administration call that went through the timelock takes effect when
/// it is executed, whether the controller is self-managed or not: the new
/// minimum delay is the one that was scheduled, the account holds or has
/// lost the role, the owner is the new one.
pub proof fn theorem_scheduled_administration_takes_effect(
    lock: TimeLockView,
    now: u64,
    salt: [u8; 32],
    predecessor: Option<[u8; 32]>,
    account: Address,
    role: RoleLabel,
    delay: u64,
)
    ensures
        execute_error(
            lock,
            now,
            lock.address,
            "update_min_delay"@,
            seq![ValueView::U64(delay)],
            salt,
            predecessor,
            false,
        ).is_none() ==> executed(
            lock,
            lock.address,
            "update_min_delay"@,
            seq![ValueView::U64(delay)],
            salt,
            predecessor,
        ).min_delay == delay,
        execute_error(
            lock,
            now,
            lock.address,
            "grant_role"@,
            seq![ValueView::Address(account), role_value(role)],
            salt,
            predecessor,
            false,
        ).is_none() ==> executed(
            lock,
            lock.address,
            "grant_role"@,
            seq![ValueView::Address(account), role_value(role)],
            salt,
            predecessor,
        ).holds(account, role),
        execute_error(
            lock,
            now,
            lock.address,
            "revoke_role"@,
            seq![ValueView::Address(account), role_value(role)],
            salt,
            predecessor,
            false,
        ).is_none() ==> !executed(
            lock,
            lock.address,
            "revoke_role"@,
            seq![ValueView::Address(account), role_value(role)],
            salt,
            predecessor,
        ).holds(account, role),
        execute_error(
            lock,
            now,
            lock.address,
            "update_owner"@,
            seq![ValueView::Address(account)],
            salt,
            predecessor,
            false,
        ).is_none() ==> executed(
            lock,
            lock.address,
            "update_owner"@,
            seq![ValueView::Address(account)],
            salt,
            predecessor,
        ).owner == Some(account),
{
    theorem_admin_call_round_trip(account, role, delay);
}

/// Where the controller is not self-managed, nobody administers it
/// directly, the owner included.
pub proof fn theorem_delegated_administration(lock: TimeLockView, caller: Address)
    requires
        !lock.self_managed,
    ensures
        admin_error(lock, caller) == Some(TimeLockError::NotPermitted),
{
}

} // verus!
