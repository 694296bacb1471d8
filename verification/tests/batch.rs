use time_lock::{
    hash_call, hash_call_batch, Address, CallExecutedEvent, CallScheduledEvent, Event,
    IncrementContract, OperationState, RoleLabel, Symbol, TimeLockController, TimeLockError,
    Value,
};

const MIN_DELAY: u64 = 259200; // 60 * 60 * 24 * 3 => 3 days

const DONE_TIMESTAMP: u64 = 1;

/// A clock reading long after every lock time of these tests.
const LATER: u64 = 1_700_000_000;

fn generate(n: u8) -> Address {
    Address::contract([n; 32])
}

fn symbol(text: &str) -> Symbol {
    Symbol::new(text).unwrap()
}

fn random(n: u8) -> [u8; 32] {
    let mut bytes = [n; 32];
    bytes[0] = 0xa5;
    bytes[31] = n.wrapping_mul(7);
    bytes
}

fn lily() -> Vec<Value> {
    vec![Value::Symbol(symbol("lily"))]
}

fn lucy() -> Vec<Value> {
    vec![Value::Symbol(symbol("lucy"))]
}

fn contract_id() -> Address {
    generate(100)
}

fn proposer() -> Address {
    generate(1)
}

fn executor() -> Address {
    generate(2)
}

fn admin() -> Address {
    generate(3)
}

fn example_contract_id() -> Address {
    generate(50)
}

fn unregistered() -> TimeLockController {
    TimeLockController::new(contract_id())
}

/// A controller with one proposer, one executor and an owner who
/// administers it directly.
fn initialized() -> TimeLockController {
    let mut client = unregistered();
    client.initialize(MIN_DELAY, &vec![proposer()], &vec![executor()], &admin(), true).unwrap();
    client
}

/// Plays the host for one execution: asks the controller, invokes the
/// counter where the controller allows it, and reports how the call went.
fn execute(
    client: &mut TimeLockController,
    example: &mut IncrementContract,
    now: u64,
    executor: &Address,
    target: &Address,
    fn_name: &Symbol,
    data: &Vec<Value>,
    salt: &[u8; 32],
    predecessor: &Option<[u8; 32]>,
) -> Result<(), TimeLockError> {
    let own = client.lock().current_contract_address();
    let mut succeeded = false;
    if client.prepare_execute(now, executor, target, fn_name, data, salt, predecessor).is_ok()
        && *target == example_contract_id()
    {
        succeeded = example.invoke(&own, fn_name, data).is_some();
    }
    client.execute(now, executor, target, fn_name, data, salt, predecessor, succeeded)
}

/// Plays the host for one batch: asks the controller, invokes the counter
/// call by call up to the first failure, and reports how the calls went.
fn execute_batch(
    client: &mut TimeLockController,
    example: &mut IncrementContract,
    now: u64,
    executor: &Address,
    targets: &Vec<Address>,
    fn_names: &Vec<Symbol>,
    datas: &Vec<Vec<Value>>,
    salt: &[u8; 32],
    predecessor: &Option<[u8; 32]>,
) -> Result<(), TimeLockError> {
    let own = client.lock().current_contract_address();
    let mut outcomes: Vec<bool> = vec![];
    if client
        .prepare_execute_batch(now, executor, targets, fn_names, datas, salt, predecessor)
        .is_ok()
    {
        for i in 0..targets.len() {
            let succeeded = targets[i] == own
                || (targets[i] == example_contract_id()
                    && example.invoke(&own, &fn_names[i], &datas[i]).is_some());
            outcomes.push(succeeded);
            if !succeeded {
                break;
            }
        }
    }
    client.execute_batch(now, executor, targets, fn_names, datas, salt, predecessor, &outcomes)
}

fn increment_twice() -> (Vec<Address>, Vec<Symbol>, Vec<Vec<Value>>) {
    (
        vec![example_contract_id(), example_contract_id()],
        vec![symbol("increment"), symbol("increment")],
        vec![vec![Value::U32(1000)], vec![Value::U32(2000)]],
    )
}

#[test]
fn test_initialize() {
    let client = initialized();
    assert_eq!(client.get_min_delay(), MIN_DELAY);
    assert_eq!(client.has_role(&proposer(), &RoleLabel::Proposer), true);
    assert_eq!(client.has_role(&proposer(), &RoleLabel::Canceller), true);
    assert_eq!(client.has_role(&executor(), &RoleLabel::Executor), true);
    assert_eq!(client.has_role(&executor(), &RoleLabel::Proposer), false);
    assert_eq!(client.has_role(&proposer(), &RoleLabel::Executor), false);
    assert_eq!(client.is_owner(&admin()), true);

    let all_actual_events = client.events();
    assert_eq!(all_actual_events.len(), 6);
    assert_eq!(all_actual_events[2], Event::OwnerSet { account: admin() });
    assert_eq!(
        all_actual_events[3..],
        [
            Event::RoleGranted { role: RoleLabel::Proposer, account: proposer() },
            Event::RoleGranted { role: RoleLabel::Canceller, account: proposer() },
            Event::RoleGranted { role: RoleLabel::Executor, account: executor() },
        ]
    );
}

#[test]
fn test_initialize_twice_should_panic() {
    let mut client = initialized();
    assert_eq!(
        client.initialize(MIN_DELAY, &vec![proposer()], &vec![executor()], &generate(4), true),
        Err(TimeLockError::AlreadyInitialized)
    );
    assert_eq!(client.is_owner(&admin()), true);
}

#[test]
fn test_initialize_with_0_min_delay_should_panic() {
    let mut client = unregistered();
    assert_eq!(
        client.initialize(0, &vec![proposer()], &vec![executor()], &admin(), true),
        Err(TimeLockError::InvalidParams)
    );
}

#[test]
fn test_initialize_without_proposer_should_panic() {
    let mut client = unregistered();
    assert_eq!(
        client.initialize(MIN_DELAY, &vec![], &vec![executor()], &admin(), true),
        Err(TimeLockError::InvalidParams)
    );
}

#[test]
fn test_initialize_without_executor_should_panic() {
    let mut client = unregistered();
    assert_eq!(
        client.initialize(MIN_DELAY, &vec![proposer()], &vec![], &admin(), true),
        Err(TimeLockError::InvalidParams)
    );
}

#[test]
fn test_initialize_without_proposer_and_executor_should_panic() {
    let mut client = unregistered();
    assert_eq!(
        client.initialize(MIN_DELAY, &vec![], &vec![], &admin(), true),
        Err(TimeLockError::InvalidParams)
    );
}

#[test]
fn test_initialize_proposer_exceed_should_panic() {
    let mut client = unregistered();
    assert_eq!(
        client.initialize(MIN_DELAY, &vec![proposer(); 11], &vec![executor()], &admin(), true),
        Err(TimeLockError::ExceedMaxCount)
    );
}

#[test]
fn test_initialize_executor_exceed_should_panic() {
    let mut client = unregistered();
    assert_eq!(
        client.initialize(MIN_DELAY, &vec![proposer()], &vec![executor(); 11], &admin(), true),
        Err(TimeLockError::ExceedMaxCount)
    );
}

#[test]
fn test_initialize_proposer_and_executor_exceed_should_panic() {
    let mut client = unregistered();
    assert_eq!(
        client.initialize(MIN_DELAY, &vec![proposer(); 11], &vec![executor(); 11], &admin(), true),
        Err(TimeLockError::ExceedMaxCount)
    );
}

#[test]
fn initialize_accepts_the_most_accounts() {
    let mut client = unregistered();
    let proposers: Vec<Address> = (10..20).map(generate).collect();
    let executors: Vec<Address> = (20..30).map(generate).collect();
    assert_eq!(client.initialize(1, &proposers, &executors, &admin(), false), Ok(()));
    assert_eq!(client.events().len(), 3 + 20 + 10);
    for account in &proposers {
        assert!(client.has_role(account, &RoleLabel::Proposer));
        assert!(client.has_role(account, &RoleLabel::Canceller));
        assert!(!client.has_role(account, &RoleLabel::Executor));
    }
    for account in &executors {
        assert!(client.has_role(account, &RoleLabel::Executor));
        assert!(!client.has_role(account, &RoleLabel::Canceller));
    }
}

#[test]
fn test_schedule() {
    let mut client = initialized();

    let target = generate(10);
    let fn_name = symbol("hello");
    let data = lily();
    let salt = random(1);
    let delay: u64 = MIN_DELAY + 10;

    let ledger_time: u64 = 0;
    let expect_lock_time = ledger_time + delay;

    let predecessor: Option<[u8; 32]> = None;
    let (operation_id, lock_time) = client
        .schedule(ledger_time, &proposer(), &target, &fn_name, &data, &salt, &predecessor, delay)
        .unwrap();

    assert_eq!(lock_time, expect_lock_time);

    let expected_operation_id = hash_call(&target, &fn_name, &data, &salt, &predecessor).unwrap();
    assert_eq!(operation_id, expected_operation_id);

    let actual_lock_time = client.get_schedule_lock_time(&operation_id);
    assert_eq!(actual_lock_time, expect_lock_time);

    let actual_events = client.events();
    let event_len = actual_events.len();
    assert_eq!(event_len, 7);
    assert_eq!(
        actual_events[event_len - 1],
        Event::CallScheduled(CallScheduledEvent {
            opt_id: operation_id,
            index: 0_u32,
            target,
            fn_name: fn_name.clone(),
            data: data.clone(),
            predecessor: [0_u8; 32],
            delay,
        })
    );
}

#[test]
fn test_schedule_without_proposer_should_panic() {
    let mut client = initialized();
    let caller = generate(20);
    assert_eq!(
        client.schedule(0, &caller, &generate(10), &symbol("hello"), &lily(), &random(1), &None, 259201),
        Err(TimeLockError::NotPermitted)
    );
}

#[test]
fn test_schedule_without_initialize() {
    let mut client = unregistered();
    let caller = generate(20);
    assert_eq!(
        client.schedule(LATER, &caller, &generate(10), &symbol("hello"), &lily(), &random(1), &None, 259201),
        Err(TimeLockError::NotPermitted)
    );
}

#[test]
fn test_schedule_twice_should_panic() {
    let mut client = initialized();
    let target = generate(10);
    let fn_name = symbol("hello");
    let delay: u64 = 259201;
    assert!(client.schedule(0, &proposer(), &target, &fn_name, &lily(), &random(1), &None, delay).is_ok());
    assert_eq!(
        client.schedule(0, &proposer(), &target, &fn_name, &lily(), &random(1), &None, delay),
        Err(TimeLockError::AlreadyExists)
    );
}

#[test]
fn test_schedule_insufficient_delay_should_panic() {
    let mut client = initialized();
    let delay: u64 = MIN_DELAY - 1;
    assert_eq!(
        client.schedule(0, &proposer(), &generate(10), &symbol("hello"), &lily(), &random(1), &None, delay),
        Err(TimeLockError::InsufficientDelay)
    );
}

#[test]
fn test_schedule_batch() {
    let mut client = initialized();

    let target1 = generate(10);
    let target2 = generate(11);
    let targets = vec![target1, target2];
    let fn_name = symbol("hello");
    let fn_names = vec![fn_name.clone(), fn_name.clone()];
    let data1 = lily();
    let data2 = lucy();
    let datas = vec![data1.clone(), data2.clone()];
    let salt = random(1);
    let delay: u64 = MIN_DELAY + 10;
    let predecessor: Option<[u8; 32]> = None;

    let ledger_time: u64 = 0;
    let expect_lock_time = ledger_time + delay;

    let (operation_id, lock_time) = client
        .schedule_batch(
            ledger_time,
            &proposer(),
            &targets,
            &fn_names,
            &datas,
            &salt,
            &predecessor,
            delay,
        )
        .unwrap();

    assert_eq!(lock_time, expect_lock_time);
    assert_eq!(
        operation_id,
        hash_call_batch(&targets, &fn_names, &datas, &salt, &predecessor).unwrap()
    );

    let actual_lock_time = client.get_schedule_lock_time(&operation_id);
    assert_eq!(actual_lock_time, expect_lock_time);

    let actual_events = client.events();
    let event_len = actual_events.len();
    assert_eq!(event_len, 8);

    assert_eq!(
        actual_events[event_len - 2..],
        [
            Event::CallScheduled(CallScheduledEvent {
                opt_id: operation_id,
                index: 0_u32,
                target: target1,
                fn_name: fn_name.clone(),
                data: data1.clone(),
                predecessor: [0_u8; 32],
                delay,
            }),
            Event::CallScheduled(CallScheduledEvent {
                opt_id: operation_id,
                index: 1_u32,
                target: target2,
                fn_name: fn_name.clone(),
                data: data2.clone(),
                predecessor: [0_u8; 32],
                delay,
            }),
        ]
    );
}

fn hello_twice() -> (Vec<Address>, Vec<Symbol>, Vec<Vec<Value>>) {
    (
        vec![generate(10), generate(11)],
        vec![symbol("hello"), symbol("hello")],
        vec![lily(), lucy()],
    )
}

#[test]
fn test_schedule_batch_without_proposer_should_panic() {
    let mut client = initialized();
    let (targets, fn_names, datas) = hello_twice();
    let caller = generate(20);
    assert_eq!(
        client.schedule_batch(0, &caller, &targets, &fn_names, &datas, &random(1), &None, MIN_DELAY + 10),
        Err(TimeLockError::NotPermitted)
    );
}

#[test]
fn test_schedule_batch_twice_should_panic() {
    let mut client = initialized();
    let (targets, fn_names, datas) = hello_twice();
    let delay = MIN_DELAY + 10;
    assert!(client
        .schedule_batch(0, &proposer(), &targets, &fn_names, &datas, &random(1), &None, delay)
        .is_ok());
    assert_eq!(
        client.schedule_batch(0, &proposer(), &targets, &fn_names, &datas, &random(1), &None, delay),
        Err(TimeLockError::AlreadyExists)
    );
}

#[test]
fn test_schedule_batch_insufficient_delay_should_panic() {
    let mut client = initialized();
    let (targets, fn_names, datas) = hello_twice();
    let delay = MIN_DELAY - 1;
    assert_eq!(
        client.schedule_batch(0, &proposer(), &targets, &fn_names, &datas, &random(1), &None, delay),
        Err(TimeLockError::InsufficientDelay)
    );
}

#[test]
fn test_schedule_batch_exceed_should_panic() {
    let mut client = initialized();
    let targets = vec![generate(10); 6];
    let fn_names = vec![symbol("hello"); 6];
    let datas = vec![lily(); 6];
    assert_eq!(
        client.schedule_batch(0, &proposer(), &targets, &fn_names, &datas, &random(1), &None, MIN_DELAY + 10),
        Err(TimeLockError::ExceedMaxCount)
    );
}

#[test]
fn schedule_batch_accepts_the_most_calls() {
    let mut client = initialized();
    let targets = vec![generate(10); 5];
    let fn_names = vec![symbol("hello"); 5];
    let datas = vec![lily(); 5];
    assert!(client
        .schedule_batch(0, &proposer(), &targets, &fn_names, &datas, &random(1), &None, MIN_DELAY)
        .is_ok());
    assert_eq!(client.events().len(), 6 + 5);
}

#[test]
fn test_schedule_batch_params_length_mismatch_should_panic() {
    let mut client = initialized();
    let target = generate(10);
    let targets = vec![target, target];
    let fn_names = vec![symbol("hello"), symbol("hello"), symbol("hello")];
    let datas = vec![lily(), lucy()];
    assert_eq!(
        client.schedule_batch(0, &proposer(), &targets, &fn_names, &datas, &random(1), &None, MIN_DELAY + 10),
        Err(TimeLockError::InvalidParams)
    );
}

#[test]
fn time_lock_controller_tests_1_test_execute_work() {
    let mut client = initialized();
    let mut example_client = IncrementContract::new();

    let target = example_contract_id();
    let fn_name = symbol("increment");
    let sum: u32 = 1000;
    let data = vec![Value::U32(sum)];
    let delay: u64 = 259201;
    let salt = random(1);
    let predecessor: Option<[u8; 32]> = None;

    let (operation_id, _) = client
        .schedule(0, &proposer(), &target, &fn_name, &data, &salt, &predecessor, delay)
        .unwrap();

    assert_eq!(
        execute(&mut client, &mut example_client, LATER, &executor(), &target, &fn_name, &data, &salt, &predecessor),
        Ok(())
    );

    assert_eq!(example_client.get_count(), 1000);
    assert_eq!(client.get_schedule_state(&operation_id, LATER), OperationState::Executed);
    assert_eq!(client.get_schedule_lock_time(&operation_id), DONE_TIMESTAMP);

    let actual_events = client.events();
    let event_len = actual_events.len();
    assert_eq!(event_len, 8);
    assert_eq!(
        actual_events[event_len - 1],
        Event::CallExecuted(CallExecutedEvent {
            opt_id: operation_id,
            index: 0_u32,
            target,
            fn_name: fn_name.clone(),
            data: data.clone(),
        })
    );
}

#[test]
fn test_execute_work_with_predecessor() {
    let mut client = initialized();
    let mut example_client = IncrementContract::new();

    let target = example_contract_id();
    let fn_name = symbol("increment");
    let data = vec![Value::U32(1000)];
    let delay: u64 = 259201;
    let salt = random(1);

    let (pre_operation_id, _) =
        client.schedule(0, &proposer(), &target, &fn_name, &data, &salt, &None, delay).unwrap();

    let salt2 = random(2);
    let predecessor: Option<[u8; 32]> = Some(pre_operation_id);
    let (operation_id, _) = client
        .schedule(0, &proposer(), &target, &fn_name, &data, &salt2, &predecessor, delay)
        .unwrap();

    assert_eq!(
        execute(&mut client, &mut example_client, LATER, &executor(), &target, &fn_name, &data, &salt, &None),
        Ok(())
    );
    assert_eq!(
        execute(&mut client, &mut example_client, LATER, &executor(), &target, &fn_name, &data, &salt2, &predecessor),
        Ok(())
    );

    assert_eq!(example_client.get_count(), 2000);
    assert_eq!(client.get_schedule_state(&pre_operation_id, LATER), OperationState::Executed);
    assert_eq!(client.get_schedule_state(&operation_id, LATER), OperationState::Executed);
}

#[test]
fn test_execute_revert_with_predecessor_not_ready() {
    let mut client = initialized();
    let mut example_client = IncrementContract::new();

    let target = example_contract_id();
    let fn_name = symbol("increment");
    let data = vec![Value::U32(1000)];
    let delay: u64 = 259201;
    let salt = random(1);

    let (pre_operation_id, _) =
        client.schedule(0, &proposer(), &target, &fn_name, &data, &salt, &None, delay).unwrap();

    let salt2 = random(2);
    let predecessor: Option<[u8; 32]> = Some(pre_operation_id);
    client.schedule(0, &proposer(), &target, &fn_name, &data, &salt2, &predecessor, delay).unwrap();

    assert_eq!(
        execute(&mut client, &mut example_client, LATER, &executor(), &target, &fn_name, &data, &salt2, &predecessor),
        Err(TimeLockError::PredecessorNotDone)
    );
}

#[test]
fn test_execute_revert_with_predecessor_not_exist() {
    let mut client = initialized();
    let mut example_client = IncrementContract::new();

    let target = example_contract_id();
    let fn_name = symbol("increment");
    let data = vec![Value::U32(1000)];
    let delay: u64 = 259201;
    let salt = random(1);

    client.schedule(0, &proposer(), &target, &fn_name, &data, &salt, &None, delay).unwrap();

    let predecessor: Option<[u8; 32]> = Some(random(9));
    assert_eq!(
        execute(&mut client, &mut example_client, LATER, &executor(), &target, &fn_name, &data, &salt, &predecessor),
        Err(TimeLockError::TimeNotReady)
    );
}

#[test]
fn execute_with_a_predecessor_that_was_never_scheduled() {
    let mut client = initialized();
    let mut example_client = IncrementContract::new();

    let target = example_contract_id();
    let fn_name = symbol("increment");
    let data = vec![Value::U32(1000)];
    let salt = random(1);
    let predecessor: Option<[u8; 32]> = Some(random(9));

    client.schedule(0, &proposer(), &target, &fn_name, &data, &salt, &predecessor, MIN_DELAY).unwrap();

    assert_eq!(
        execute(&mut client, &mut example_client, LATER, &executor(), &target, &fn_name, &data, &salt, &predecessor),
        Err(TimeLockError::PredecessorNotDone)
    );
    assert_eq!(example_client.get_count(), 0);
}

#[test]
fn test_execute_without_executor_should_panic() {
    let mut client = initialized();
    let mut example_client = IncrementContract::new();

    let target = example_contract_id();
    let fn_name = symbol("increment");
    let data = vec![Value::U32(1000)];
    let salt = random(1);

    client.schedule(0, &proposer(), &target, &fn_name, &data, &salt, &None, 259201).unwrap();

    assert_eq!(
        execute(&mut client, &mut example_client, LATER, &proposer(), &target, &fn_name, &data, &salt, &None),
        Err(TimeLockError::NotPermitted)
    );
}

#[test]
fn test_execute_with_not_scheduled_operation_should_panic() {
    let mut client = initialized();
    let mut example_client = IncrementContract::new();
    assert_eq!(
        execute(
            &mut client,
            &mut example_client,
            LATER,
            &executor(),
            &example_contract_id(),
            &symbol("increment"),
            &vec![Value::U32(1000)],
            &random(1),
            &None
        ),
        Err(TimeLockError::TimeNotReady)
    );
}

#[test]
fn test_execute_with_operation_not_ready_should_panic() {
    let mut client = initialized();
    let mut example_client = IncrementContract::new();

    let target = example_contract_id();
    let fn_name = symbol("increment");
    let data = vec![Value::U32(1000)];
    let salt = random(1);
    let delay: u64 = 259201;

    client.schedule(0, &proposer(), &target, &fn_name, &data, &salt, &None, delay).unwrap();

    // One second before the lock time.
    assert_eq!(
        execute(&mut client, &mut example_client, delay - 1, &executor(), &target, &fn_name, &data, &salt, &None),
        Err(TimeLockError::TimeNotReady)
    );
    // At the lock time.
    assert_eq!(
        execute(&mut client, &mut example_client, delay, &executor(), &target, &fn_name, &data, &salt, &None),
        Ok(())
    );
}

#[test]
fn test_execute_twice_operation_should_panic() {
    let mut client = initialized();
    let mut example_client = IncrementContract::new();

    let target = example_contract_id();
    let fn_name = symbol("increment");
    let data = vec![Value::U32(1000)];
    let salt = random(1);

    client.schedule(0, &proposer(), &target, &fn_name, &data, &salt, &None, 259201).unwrap();

    assert_eq!(
        execute(&mut client, &mut example_client, LATER, &executor(), &target, &fn_name, &data, &salt, &None),
        Ok(())
    );
    assert_eq!(
        execute(&mut client, &mut example_client, LATER, &executor(), &target, &fn_name, &data, &salt, &None),
        Err(TimeLockError::TimeNotReady)
    );
    assert_eq!(example_client.get_count(), 1000);
}

#[test]
fn test_execute_batch_work() {
    let mut client = initialized();
    let mut example_client = IncrementContract::new();

    let (targets, fn_names, datas) = increment_twice();
    let delay: u64 = MIN_DELAY + 10;
    let salt = random(1);
    let predecessor: Option<[u8; 32]> = None;

    let (operation_id, _) = client
        .schedule_batch(0, &proposer(), &targets, &fn_names, &datas, &salt, &predecessor, delay)
        .unwrap();

    assert_eq!(
        execute_batch(&mut client, &mut example_client, LATER, &executor(), &targets, &fn_names, &datas, &salt, &predecessor),
        Ok(())
    );

    assert_eq!(example_client.get_count(), 3000);
    assert_eq!(client.get_schedule_state(&operation_id, LATER), OperationState::Executed);

    let actual_events = client.events();
    let event_len = actual_events.len();
    assert_eq!(event_len, 10);
    assert_eq!(
        actual_events[event_len - 2..],
        [
            Event::CallExecuted(CallExecutedEvent {
                opt_id: operation_id,
                index: 0_u32,
                target: example_contract_id(),
                fn_name: symbol("increment"),
                data: vec![Value::U32(1000)],
            }),
            Event::CallExecuted(CallExecutedEvent {
                opt_id: operation_id,
                index: 1_u32,
                target: example_contract_id(),
                fn_name: symbol("increment"),
                data: vec![Value::U32(2000)],
            }),
        ]
    );
    // One ledger entry stands for the whole batch: neither call has an
    // operation of its own.
    for i in 0..2 {
        let single = hash_call(&targets[i], &fn_names[i], &datas[i], &salt, &predecessor).unwrap();
        assert_eq!(client.get_schedule_lock_time(&single), 0);
    }
    let executed = actual_events
        .iter()
        .filter(|event| matches!(event, Event::CallExecuted(_)))
        .count();
    assert_eq!(executed, 2);
}

#[test]
fn test_execute_batch_work_with_predecessor() {
    let mut client = initialized();
    let mut example_client = IncrementContract::new();

    let target = example_contract_id();
    let fn_name = symbol("increment");
    let data = vec![Value::U32(1000)];
    let salt = random(1);
    let delay: u64 = MIN_DELAY + 10;

    let (pre_operation_id, _) =
        client.schedule(0, &proposer(), &target, &fn_name, &data, &salt, &None, delay).unwrap();

    let (targets, fn_names, datas) = increment_twice();
    let salt2 = random(2);
    let predecessor: Option<[u8; 32]> = Some(pre_operation_id);

    let (operation_id, _) = client
        .schedule_batch(0, &proposer(), &targets, &fn_names, &datas, &salt2, &predecessor, delay)
        .unwrap();

    assert_eq!(
        execute(&mut client, &mut example_client, LATER, &executor(), &target, &fn_name, &data, &salt, &None),
        Ok(())
    );
    assert_eq!(
        execute_batch(&mut client, &mut example_client, LATER, &executor(), &targets, &fn_names, &datas, &salt2, &predecessor),
        Ok(())
    );

    assert_eq!(example_client.get_count(), 4000);
    assert_eq!(client.get_schedule_state(&pre_operation_id, LATER), OperationState::Executed);
    assert_eq!(client.get_schedule_state(&operation_id, LATER), OperationState::Executed);
}

#[test]
fn test_execute_batch_without_executor_should_panic() {
    let mut client = initialized();
    let mut example_client = IncrementContract::new();
    let (targets, fn_names, datas) = increment_twice();
    let salt = random(1);
    client
        .schedule_batch(0, &proposer(), &targets, &fn_names, &datas, &salt, &None, MIN_DELAY + 10)
        .unwrap();
    assert_eq!(
        execute_batch(&mut client, &mut example_client, LATER, &generate(20), &targets, &fn_names, &datas, &salt, &None),
        Err(TimeLockError::NotPermitted)
    );
    assert_eq!(example_client.get_count(), 0);
}

#[test]
fn test_execute_batch_params_length_mismatch_should_panic() {
    let mut client = initialized();
    let mut example_client = IncrementContract::new();
    let (targets, _, datas) = increment_twice();
    let fn_names = vec![symbol("increment"), symbol("increment"), symbol("increment")];
    assert_eq!(
        execute_batch(&mut client, &mut example_client, LATER, &executor(), &targets, &fn_names, &datas, &random(1), &None),
        Err(TimeLockError::InvalidParams)
    );
}

#[test]
fn test_execute_batch_with_not_scheduled_operation_should_panic() {
    let mut client = initialized();
    let mut example_client = IncrementContract::new();
    let (targets, fn_names, datas) = increment_twice();
    assert_eq!(
        execute_batch(&mut client, &mut example_client, LATER, &executor(), &targets, &fn_names, &datas, &random(1), &None),
        Err(TimeLockError::TimeNotReady)
    );
}

#[test]
fn test_execute_batch_with_operation_not_ready_should_panic() {
    let mut client = initialized();
    let mut example_client = IncrementContract::new();
    let (targets, fn_names, datas) = increment_twice();
    let salt = random(1);
    client
        .schedule_batch(0, &proposer(), &targets, &fn_names, &datas, &salt, &None, MIN_DELAY + 10)
        .unwrap();
    assert_eq!(
        execute_batch(&mut client, &mut example_client, 0, &executor(), &targets, &fn_names, &datas, &salt, &None),
        Err(TimeLockError::TimeNotReady)
    );
}

#[test]
fn test_execute_batch_twice_operation_should_panic() {
    let mut client = initialized();
    let mut example_client = IncrementContract::new();
    let (targets, fn_names, datas) = increment_twice();
    let salt = random(1);
    client
        .schedule_batch(0, &proposer(), &targets, &fn_names, &datas, &salt, &None, MIN_DELAY + 10)
        .unwrap();
    assert_eq!(
        execute_batch(&mut client, &mut example_client, LATER, &executor(), &targets, &fn_names, &datas, &salt, &None),
        Ok(())
    );
    assert_eq!(
        execute_batch(&mut client, &mut example_client, LATER, &executor(), &targets, &fn_names, &datas, &salt, &None),
        Err(TimeLockError::TimeNotReady)
    );
    assert_eq!(example_client.get_count(), 3000);
}

#[test]
fn test_execute_batch_when_predecessor_not_executed_should_panic() {
    let mut client = initialized();
    let mut example_client = IncrementContract::new();

    let target = example_contract_id();
    let fn_name = symbol("increment");
    let data = vec![Value::U32(1000)];
    let salt = random(1);
    let delay: u64 = MIN_DELAY + 10;

    let (pre_operation_id, _) =
        client.schedule(0, &proposer(), &target, &fn_name, &data, &salt, &None, delay).unwrap();

    let (targets, fn_names, datas) = increment_twice();
    let salt2 = random(2);
    let predecessor: Option<[u8; 32]> = Some(pre_operation_id);
    client
        .schedule_batch(0, &proposer(), &targets, &fn_names, &datas, &salt2, &predecessor, delay)
        .unwrap();

    assert_eq!(
        execute_batch(&mut client, &mut example_client, LATER, &executor(), &targets, &fn_names, &datas, &salt2, &predecessor),
        Err(TimeLockError::PredecessorNotDone)
    );
}

#[test]
fn execute_batch_commits_nothing_where_a_call_fails() {
    let mut client = initialized();
    let mut example_client = IncrementContract::new();

    let targets = vec![example_contract_id(), example_contract_id()];
    let fn_names = vec![symbol("increment"), symbol("no_such_function")];
    let datas = vec![vec![Value::U32(1000)], vec![]];
    let salt = random(1);
    let (operation_id, lock_time) = client
        .schedule_batch(0, &proposer(), &targets, &fn_names, &datas, &salt, &None, MIN_DELAY)
        .unwrap();
    let before = client.events().len();

    assert_eq!(
        execute_batch(&mut client, &mut example_client, LATER, &executor(), &targets, &fn_names, &datas, &salt, &None),
        Err(TimeLockError::ExecuteFailed)
    );
    assert_eq!(client.get_schedule_lock_time(&operation_id), lock_time);
    assert_eq!(client.get_schedule_state(&operation_id, LATER), OperationState::Ready);
    assert_eq!(client.events().len(), before);
}

#[test]
fn execute_batch_counts_a_missing_outcome_as_a_failure() {
    let mut client = initialized();
    let (targets, fn_names, datas) = increment_twice();
    let salt = random(1);
    client
        .schedule_batch(0, &proposer(), &targets, &fn_names, &datas, &salt, &None, MIN_DELAY)
        .unwrap();
    assert_eq!(
        client.execute_batch(LATER, &executor(), &targets, &fn_names, &datas, &salt, &None, &vec![true]),
        Err(TimeLockError::ExecuteFailed)
    );
    assert_eq!(
        client.execute_batch(LATER, &executor(), &targets, &fn_names, &datas, &salt, &None, &vec![true, false]),
        Err(TimeLockError::ExecuteFailed)
    );
    assert_eq!(
        client.execute_batch(LATER, &executor(), &targets, &fn_names, &datas, &salt, &None, &vec![true, true]),
        Ok(())
    );
}

#[test]
fn batch_of_calls_to_the_controller_itself() {
    let mut client = unregistered();
    client.initialize(MIN_DELAY, &vec![proposer()], &vec![executor()], &admin(), false).unwrap();
    let mut example_client = IncrementContract::new();

    let newcomer = generate(30);
    let targets = vec![contract_id(), example_contract_id(), contract_id()];
    let fn_names = vec![symbol("grant_role"), symbol("increment"), symbol("update_min_delay")];
    let datas = vec![
        vec![Value::Address(newcomer), Value::U32(2)],
        vec![Value::U32(7)],
        vec![Value::U64(10)],
    ];
    let salt = random(1);

    // A batch that reaches the controller itself is the owner's.
    assert_eq!(
        client.schedule_batch(0, &proposer(), &targets, &fn_names, &datas, &salt, &None, MIN_DELAY),
        Err(TimeLockError::NotPermitted)
    );
    let (operation_id, _) = client
        .schedule_batch(0, &admin(), &targets, &fn_names, &datas, &salt, &None, MIN_DELAY)
        .unwrap();
    assert_eq!(
        execute_batch(&mut client, &mut example_client, LATER, &executor(), &targets, &fn_names, &datas, &salt, &None),
        Err(TimeLockError::NotPermitted)
    );
    let before = client.events().len();
    assert_eq!(
        execute_batch(&mut client, &mut example_client, LATER, &admin(), &targets, &fn_names, &datas, &salt, &None),
        Ok(())
    );

    assert_eq!(client.has_role(&newcomer, &RoleLabel::Executor), true);
    assert_eq!(client.get_min_delay(), 10);
    assert_eq!(example_client.get_count(), 7);
    assert_eq!(client.get_schedule_lock_time(&operation_id), DONE_TIMESTAMP);

    let events = &client.events()[before..];
    assert_eq!(events.len(), 5);
    assert_eq!(events[0], Event::RoleGranted { role: RoleLabel::Executor, account: newcomer });
    assert!(matches!(&events[1], Event::CallExecuted(event) if event.index == 0));
    assert!(matches!(&events[2], Event::CallExecuted(event) if event.index == 1));
    assert_eq!(events[3], Event::MinDelayUpdated { delay: 10 });
    assert!(matches!(&events[4], Event::CallExecuted(event) if event.index == 2));
}

#[test]
fn batch_with_an_unknown_call_to_the_controller_itself() {
    let mut client = initialized();
    let targets = vec![example_contract_id(), contract_id()];
    let fn_names = vec![symbol("increment"), symbol("initialize")];
    let datas = vec![vec![Value::U32(7)], vec![]];
    assert_eq!(
        client.schedule_batch(0, &admin(), &targets, &fn_names, &datas, &random(1), &None, MIN_DELAY),
        Err(TimeLockError::InvalidFuncName)
    );
}

#[test]
fn batch_with_undecodable_arguments_commits_nothing() {
    let mut client = initialized();
    let mut example_client = IncrementContract::new();
    let newcomer = generate(30);
    let targets = vec![contract_id(), contract_id()];
    let fn_names = vec![symbol("grant_role"), symbol("update_min_delay")];
    let datas = vec![vec![Value::Address(newcomer), Value::U32(2)], vec![Value::U32(10)]];
    let salt = random(1);
    client.schedule_batch(0, &admin(), &targets, &fn_names, &datas, &salt, &None, MIN_DELAY).unwrap();
    assert_eq!(
        execute_batch(&mut client, &mut example_client, LATER, &admin(), &targets, &fn_names, &datas, &salt, &None),
        Err(TimeLockError::InvalidParams)
    );
    assert_eq!(client.has_role(&newcomer, &RoleLabel::Executor), false);
    assert_eq!(client.get_min_delay(), MIN_DELAY);
}

#[test]
fn batch_to_an_account_is_refused() {
    let mut client = initialized();
    let targets = vec![example_contract_id(), Address::account([9; 32])];
    let fn_names = vec![symbol("increment"), symbol("increment")];
    let datas = vec![vec![Value::U32(7)], vec![Value::U32(7)]];
    assert_eq!(
        client.schedule_batch(0, &proposer(), &targets, &fn_names, &datas, &random(1), &None, MIN_DELAY),
        Err(TimeLockError::InvalidParams)
    );
}

#[test]
fn test_cancel_operation_with_ready() {
    let mut client = initialized();

    let delay: u64 = MIN_DELAY + 10;
    let (operation_id, _) = client
        .schedule(0, &proposer(), &generate(10), &symbol("hello"), &lily(), &random(1), &None, delay)
        .unwrap();

    assert_eq!(client.get_schedule_lock_time(&operation_id), delay);
    assert_eq!(client.get_schedule_state(&operation_id, LATER), OperationState::Ready);

    assert_eq!(client.cancel(LATER, &proposer(), &operation_id), Ok(()));

    assert_eq!(client.get_schedule_lock_time(&operation_id), 0);
    assert_eq!(client.get_schedule_state(&operation_id, LATER), OperationState::Unset);

    let actual_events = client.events();
    let event_len = actual_events.len();
    assert_eq!(event_len, 8);
    assert_eq!(actual_events[event_len - 1], Event::OperationCancelled { id: operation_id });
}

#[test]
fn test_cancel_operation_with_waiting() {
    let mut client = initialized();

    let delay: u64 = MIN_DELAY + 10;
    let (operation_id, _) = client
        .schedule(LATER, &proposer(), &generate(10), &symbol("hello"), &lily(), &random(1), &None, delay)
        .unwrap();

    assert_eq!(client.get_schedule_lock_time(&operation_id), LATER + delay);
    assert_eq!(client.get_schedule_state(&operation_id, LATER), OperationState::Waiting);

    assert_eq!(client.cancel(LATER, &proposer(), &operation_id), Ok(()));

    assert_eq!(client.get_schedule_lock_time(&operation_id), 0);
    assert_eq!(client.get_schedule_state(&operation_id, LATER), OperationState::Unset);

    let actual_events = client.events();
    let event_len = actual_events.len();
    assert_eq!(event_len, 8);
    assert_eq!(actual_events[event_len - 1], Event::OperationCancelled { id: operation_id });
}

#[test]
fn test_cancel_without_canceler_should_panic() {
    let mut client = initialized();
    let (operation_id, _) = client
        .schedule(0, &proposer(), &generate(10), &symbol("hello"), &lily(), &random(1), &None, MIN_DELAY + 10)
        .unwrap();
    assert_eq!(client.cancel(LATER, &executor(), &operation_id), Err(TimeLockError::NotPermitted));
}

#[test]
fn test_cancel_with_unset_operation_should_panic() {
    let mut client = initialized();
    assert_eq!(client.cancel(0, &proposer(), &random(9)), Err(TimeLockError::InvalidStatus));
}

#[test]
fn test_cancel_with_executed_operation_should_panic() {
    let mut client = initialized();
    let mut example_client = IncrementContract::new();

    let target = example_contract_id();
    let fn_name = symbol("increment");
    let data = vec![Value::U32(1000)];
    let salt = random(1);

    let (operation_id, _) =
        client.schedule(0, &proposer(), &target, &fn_name, &data, &salt, &None, MIN_DELAY + 10).unwrap();
    execute(&mut client, &mut example_client, LATER, &executor(), &target, &fn_name, &data, &salt, &None)
        .unwrap();

    assert_eq!(client.cancel(LATER, &proposer(), &operation_id), Err(TimeLockError::InvalidStatus));
}

#[test]
fn test_update_min_delay() {
    let mut client = unregistered();
    client.initialize(MIN_DELAY, &vec![proposer()], &vec![executor()], &admin(), false).unwrap();
    let mut example_client = IncrementContract::new();

    let target = contract_id();
    let fn_name = symbol("update_min_delay");
    let delay: u64 = 300000;
    let salt = random(1);
    let data = vec![Value::U64(delay), Value::Bytes(salt.to_vec())];
    let predecessor: Option<[u8; 32]> = None;

    let (operation_id, _) = client
        .schedule(0, &admin(), &target, &fn_name, &data, &salt, &predecessor, delay)
        .unwrap();

    assert_eq!(
        execute(&mut client, &mut example_client, LATER, &admin(), &target, &fn_name, &data, &salt, &predecessor),
        Ok(())
    );

    let actual_delay = client.get_min_delay();
    assert_eq!(actual_delay, delay);

    assert_eq!(client.get_schedule_state(&operation_id, LATER), OperationState::Executed);

    let actual_events = client.events();
    let event_len = actual_events.len();
    assert_eq!(event_len, 9);
    assert_eq!(actual_events[event_len - 2], Event::MinDelayUpdated { delay });
}

#[test]
fn test_update_min_delay_when_waiting() {
    let mut client = unregistered();
    client.initialize(MIN_DELAY, &vec![proposer()], &vec![executor()], &admin(), false).unwrap();
    let mut example_client = IncrementContract::new();

    let target = contract_id();
    let fn_name = symbol("update_min_delay");
    let delay: u64 = 300000;
    let salt = random(1);
    let data = vec![Value::U64(delay), Value::Bytes(salt.to_vec())];

    client.schedule(0, &admin(), &target, &fn_name, &data, &salt, &None, delay).unwrap();
    assert_eq!(
        execute(&mut client, &mut example_client, 0, &admin(), &target, &fn_name, &data, &salt, &None),
        Err(TimeLockError::TimeNotReady)
    );
    assert_eq!(client.get_min_delay(), MIN_DELAY);
}

#[test]
fn test_update_min_delay_without_schedule() {
    let mut client = unregistered();
    client.initialize(MIN_DELAY, &vec![proposer()], &vec![executor()], &admin(), false).unwrap();
    let mut example_client = IncrementContract::new();

    let delay: u64 = 300000;
    let salt = random(1);
    let data = vec![Value::U64(delay), Value::Bytes(salt.to_vec())];
    assert_eq!(
        execute(
            &mut client,
            &mut example_client,
            LATER,
            &admin(),
            &contract_id(),
            &symbol("update_min_delay"),
            &data,
            &salt,
            &None
        ),
        Err(TimeLockError::TimeNotReady)
    );
}

fn grant(role: RoleLabel) {
    let mut client = initialized();
    let account = generate(30);
    assert_eq!(client.grant_role(&admin(), &account, &role), Ok(true));
    assert_eq!(client.has_role(&account, &role), true);
    let events = client.events();
    assert_eq!(events.len(), 7);
    assert_eq!(events[6], Event::RoleGranted { role, account });
}

fn grant_duplicate_add(role: RoleLabel) {
    let mut client = initialized();
    let account = generate(30);
    assert_eq!(client.grant_role(&admin(), &account, &role), Ok(true));
    assert_eq!(client.grant_role(&admin(), &account, &role), Ok(false));
    assert_eq!(client.has_role(&account, &role), true);
    // One revocation undoes both.
    assert_eq!(client.revoke_role(&admin(), &account, &role), Ok(true));
    assert_eq!(client.has_role(&account, &role), false);
}

fn grant_not_initialized(role: RoleLabel) {
    let mut client = unregistered();
    assert_eq!(client.grant_role(&admin(), &generate(30), &role), Err(TimeLockError::NotPermitted));
}

fn revoke(role: RoleLabel) {
    let mut client = initialized();
    let account = generate(30);
    assert_eq!(client.grant_role(&admin(), &account, &role), Ok(true));
    assert_eq!(client.has_role(&account, &role), true);
    assert_eq!(client.revoke_role(&admin(), &account, &role), Ok(true));
    assert_eq!(client.has_role(&account, &role), false);
    let events = client.events();
    assert_eq!(events.len(), 8);
    assert_eq!(events[7], Event::RoleRevoked { role, account });
}

fn revoke_duplicate_revoke(role: RoleLabel) {
    let mut client = initialized();
    let account = generate(30);
    assert_eq!(client.grant_role(&admin(), &account, &role), Ok(true));
    assert_eq!(client.revoke_role(&admin(), &account, &role), Ok(true));
    assert_eq!(client.revoke_role(&admin(), &account, &role), Ok(false));
    assert_eq!(client.has_role(&account, &role), false);
}

fn revoke_not_initialized(role: RoleLabel) {
    let mut client = unregistered();
    assert_eq!(client.revoke_role(&admin(), &generate(30), &role), Err(TimeLockError::NotPermitted));
}

#[test]
fn test_grant_proposer_role() {
    grant(RoleLabel::Proposer);
}

#[test]
fn test_grant_proposer_role_duplicate_add() {
    grant_duplicate_add(RoleLabel::Proposer);
}

#[test]
fn test_grant_proposer_role_not_initialized_should_panic() {
    grant_not_initialized(RoleLabel::Proposer);
}

#[test]
fn test_revoke_proposer_role() {
    revoke(RoleLabel::Proposer);
}

#[test]
fn test_revoke_proposer_role_duplicate_revoke() {
    revoke_duplicate_revoke(RoleLabel::Proposer);
}

#[test]
fn test_revoke_proposer_role_not_initialized_should_panic() {
    revoke_not_initialized(RoleLabel::Proposer);
}

#[test]
fn test_grant_executor_role() {
    grant(RoleLabel::Executor);
}

#[test]
fn test_grant_executor_role_duplicate_add() {
    grant_duplicate_add(RoleLabel::Executor);
}

#[test]
fn test_grant_executor_role_not_initialized_should_panic() {
    grant_not_initialized(RoleLabel::Executor);
}

#[test]
fn test_revoke_executor_role() {
    revoke(RoleLabel::Executor);
}

#[test]
fn test_revoke_executor_role_duplicate_revoke() {
    revoke_duplicate_revoke(RoleLabel::Executor);
}

#[test]
fn test_revoke_executor_role_not_initialized_should_panic() {
    revoke_not_initialized(RoleLabel::Executor);
}

#[test]
fn test_grant_canceller_role() {
    grant(RoleLabel::Canceller);
}

#[test]
fn test_grant_canceller_role_duplicate_add() {
    grant_duplicate_add(RoleLabel::Canceller);
}

#[test]
fn test_grant_canceller_role_not_initialized_should_panic() {
    grant_not_initialized(RoleLabel::Canceller);
}

#[test]
fn test_revoke_canceller_role() {
    revoke(RoleLabel::Canceller);
}

#[test]
fn test_revoke_canceller_role_duplicate_revoke() {
    revoke_duplicate_revoke(RoleLabel::Canceller);
}

#[test]
fn test_revoke_canceller_role_not_initialized_should_panic() {
    revoke_not_initialized(RoleLabel::Canceller);
}
