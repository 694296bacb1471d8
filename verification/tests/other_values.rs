use time_lock::encoding::MAX_ENCODED_LEN;
use time_lock::hasher::{encode_value, encode_values};
use time_lock::{
    hash_call, Address, Encoded, Symbol, TimeLockController, TimeLockError, Value,
};

fn symbol(text: &str) -> Symbol {
    Symbol::new(text).unwrap()
}

fn generate(n: u8) -> Address {
    Address::contract([n; 32])
}

/// The encoding of a map with the entries `name: "counter"` and
/// `owner: <the contract with the key 9, 9, ...>`.
fn config() -> Vec<u8> {
    let mut bytes = vec![
        0, 0, 0, 17, 0, 0, 0, 1, 0, 0, 0, 2, 0, 0, 0, 15, 0, 0, 0, 4, 110, 97, 109, 101, 0, 0, 0,
        14, 0, 0, 0, 7, 99, 111, 117, 110, 116, 101, 114, 0, 0, 0, 0, 15, 0, 0, 0, 5, 111, 119,
        110, 101, 114, 0, 0, 0, 0, 0, 0, 18, 0, 0, 0, 1,
    ];
    bytes.extend_from_slice(&[9u8; 32]);
    bytes
}

/// The encoding of a vector nested `levels` deep around the number 1.
fn nested(levels: usize) -> Vec<u8> {
    let mut bytes = vec![0, 0, 0, 4, 0, 0, 0, 1];
    for _ in 0..levels {
        let mut outer = vec![0, 0, 0, 16, 0, 0, 0, 1, 0, 0, 0, 1];
        outer.extend_from_slice(&bytes);
        bytes = outer;
    }
    bytes
}

#[test]
fn values_of_other_kinds_are_taken_as_they_are_encoded() {
    let void = vec![0, 0, 0, 1];
    let int = vec![0, 0, 0, 4, 255, 255, 255, 255];
    let text = vec![0, 0, 0, 14, 0, 0, 0, 2, 104, 105, 0, 0];
    let wide = vec![0, 0, 0, 9, 0, 0, 0, 0, 0, 0, 0, 1, 0, 0, 0, 0, 0, 0, 0, 2];
    let list = vec![0, 0, 0, 16, 0, 0, 0, 1, 0, 0, 0, 1, 0, 0, 0, 3, 0, 0, 0, 5];
    for bytes in [void, int, text, wide, list, config(), nested(3)] {
        let encoded = Encoded::new(bytes.clone()).unwrap();
        assert_eq!(encoded.as_bytes(), &bytes);
        let value = Value::Other(encoded);
        assert_eq!(encode_value(&value).unwrap(), bytes);
        assert_eq!(value.clone(), value);
    }
}

#[test]
fn bytes_that_are_no_value_are_turned_away() {
    // Nothing, too little, and a kind that does not exist.
    assert!(Encoded::new(vec![]).is_none());
    assert!(Encoded::new(vec![0, 0, 0]).is_none());
    assert!(Encoded::new(vec![0, 0, 0, 99]).is_none());
    assert!(Encoded::new(vec![0, 0, 0, 4]).is_none());
    // Bytes after the value.
    assert!(Encoded::new(vec![0, 0, 0, 1, 0]).is_none());
    assert!(Encoded::new(vec![0, 0, 0, 4, 0, 0, 0, 1, 0, 0, 0, 0]).is_none());
    // Padding that is not zero.
    assert!(Encoded::new(vec![0, 0, 0, 14, 0, 0, 0, 2, 104, 105, 0, 1]).is_none());
    // A length that the bytes do not hold.
    assert!(Encoded::new(vec![0, 0, 0, 14, 255, 255, 255, 255, 104, 105, 0, 0]).is_none());
    assert!(Encoded::new(vec![0, 0, 0, 16, 0, 0, 0, 1, 255, 255, 255, 255]).is_none());
    // A vector that is marked as absent.
    assert!(Encoded::new(vec![0, 0, 0, 16, 0, 0, 0, 0]).is_none());
    // A symbol with a character that no symbol has, inside a vector.
    assert!(Encoded::new(vec![
        0, 0, 0, 16, 0, 0, 0, 1, 0, 0, 0, 1, 0, 0, 0, 15, 0, 0, 0, 1, 45, 0, 0, 0
    ])
    .is_none());
    // A boolean in a vector that is written as another word than 0 or 1:
    // the SDK reads it, and would not have written it.
    assert!(Encoded::new(vec![0, 0, 0, 16, 0, 0, 0, 1, 0, 0, 0, 1, 0, 0, 0, 0, 0, 0, 0, 1])
        .is_some());
    assert!(Encoded::new(vec![0, 0, 0, 16, 0, 0, 0, 1, 0, 0, 0, 1, 0, 0, 0, 0, 0, 0, 0, 2])
        .is_none());
    // A map whose keys are not in order.
    assert!(Encoded::new(vec![
        0, 0, 0, 17, 0, 0, 0, 1, 0, 0, 0, 2, 0, 0, 0, 3, 0, 0, 0, 1, 0, 0, 0, 1, 0, 0, 0, 3, 0,
        0, 0, 2, 0, 0, 0, 1
    ])
    .is_some());
    assert!(Encoded::new(vec![
        0, 0, 0, 17, 0, 0, 0, 1, 0, 0, 0, 2, 0, 0, 0, 3, 0, 0, 0, 2, 0, 0, 0, 1, 0, 0, 0, 3, 0,
        0, 0, 1, 0, 0, 0, 1
    ])
    .is_none());
    // Too long.
    let mut long = vec![0, 0, 0, 14, 0, 1, 0, 0];
    long.extend_from_slice(&vec![104; 65536]);
    assert!(long.len() > MAX_ENCODED_LEN);
    assert!(Encoded::new(long).is_none());
    // Nested too deep.
    assert!(Encoded::new(nested(10)).is_some());
    assert!(Encoded::new(nested(1000)).is_none());
}

#[test]
fn kinds_with_a_variant_of_their_own_are_written_in_it() {
    for value in [
        Value::Bool(true),
        Value::U32(5),
        Value::U64(5),
        Value::I64(-5),
        Value::I128(5),
        Value::Bytes(vec![1, 2, 3]),
        Value::Symbol(symbol("lily")),
        Value::Address(generate(1)),
        Value::Address(Address::account([1; 32])),
    ] {
        let bytes = encode_value(&value).unwrap();
        assert!(Encoded::new(bytes).is_none(), "{:?}", value);
    }
}

#[test]
fn the_longest_value_of_another_kind() {
    let mut text = vec![0, 0, 0, 14, 0, 0, 255, 248];
    text.extend_from_slice(&vec![104; 65528]);
    assert_eq!(text.len(), MAX_ENCODED_LEN);
    let value = Value::Other(Encoded::new(text.clone()).unwrap());
    assert_eq!(encode_value(&value).unwrap(), text);
    // It is too long to be the argument of a call: the rest of the call
    // takes room too.
    let data = vec![value];
    assert!(encode_values(&data).is_some());
    assert!(hash_call(&generate(7), &symbol("hello"), &data, &[1u8; 32], &None).is_none());

    let mut text = vec![0, 0, 0, 14, 0, 0, 255, 132];
    text.extend_from_slice(&vec![104; 65412]);
    let data = vec![Value::Other(Encoded::new(text).unwrap())];
    assert!(hash_call(&generate(7), &symbol("hello"), &data, &[1u8; 32], &None).is_some());

    // The deepest nesting that is read, as an argument of a batch.
    let mut levels = 10;
    while Encoded::new(nested(levels + 1)).is_some() {
        levels += 1;
    }
    assert!(levels < 100);
    let deep = Value::Other(Encoded::new(nested(levels)).unwrap());
    assert!(time_lock::hash_call_batch(
        &vec![generate(7)],
        &vec![symbol("hello")],
        &vec![vec![deep]],
        &[1u8; 32],
        &None
    )
    .is_some());
}

#[test]
fn hash_of_a_call_with_a_map() {
    let data = vec![Value::Bytes(vec![4u8; 32]), Value::Other(Encoded::new(config()).unwrap())];
    let id =
        hash_call(&generate(7), &symbol("set_contract_info"), &data, &[1u8; 32], &None).unwrap();
    assert_eq!(
        id,
        [
            69, 22, 43, 252, 132, 24, 83, 39, 128, 185, 164, 223, 33, 180, 154, 179, 96, 98, 146,
            1, 153, 22, 12, 39, 169, 84, 36, 223, 72, 238, 174, 17
        ]
    );
}

#[test]
fn a_value_of_another_kind_is_no_argument_of_administration() {
    let own = generate(100);
    let owner = generate(3);
    let mut client = TimeLockController::new(own);
    client.initialize(10, &vec![generate(1)], &vec![generate(2)], &owner, false).unwrap();

    // A 128-bit unsigned 500 is no 64-bit delay.
    let wide = vec![0, 0, 0, 9, 0, 0, 0, 0, 0, 0, 0, 0, 0, 0, 0, 0, 0, 0, 1, 244];
    let data = vec![Value::Other(Encoded::new(wide).unwrap())];
    let fn_name = symbol("update_min_delay");
    client.schedule(0, &owner, &own, &fn_name, &data, &[1u8; 32], &None, 10).unwrap();
    assert_eq!(
        client.execute(10, &owner, &own, &fn_name, &data, &[1u8; 32], &None, false),
        Err(TimeLockError::InvalidParams)
    );
    assert_eq!(client.get_min_delay(), 10);
}
