//! Operation identity: the digest of a call description.

use crate::encoding::{
    address_xdr, append_bytes, bool_xdr, bytes_xdr, encodes_value, encodes_values, i128_xdr,
    i64_xdr, list_fits, sha256, sha256_of, symbol_xdr, total_len, u32_xdr, u64_xdr, value_fits,
    value_xdr, value_xdrs, values_fit, values_xdr, vec_xdr, views, xdr_of_address, xdr_of_bytes,
    xdr_of_symbol, xdr_of_vec, MAX_ENCODED_LEN, MAX_ITEMS,
};
use crate::types::{
    symbol_views, value_list_views, value_views, Address, Symbol, Value, ValueView,
};
use vstd::prelude::*;

verus! {

broadcast use vstd::array::group_array_axioms;

/// The encodings of the given addresses.
pub open spec fn address_xdrs(addresses: Seq<Address>) -> Seq<Seq<u8>> {
    addresses.map_values(|address: Address| xdr_of_address(address))
}

/// The encodings of the given symbols.
pub open spec fn symbol_xdrs(symbols: Seq<Seq<char>>) -> Seq<Seq<u8>> {
    symbols.map_values(|text: Seq<char>| xdr_of_symbol(text))
}

/// The encodings of the given lists of values.
pub open spec fn values_xdrs(lists: Seq<Seq<ValueView>>) -> Seq<Seq<u8>> {
    lists.map_values(|values: Seq<ValueView>| values_xdr(values))
}

/// Whether lists of values can be encoded as a vector of vectors.
pub open spec fn value_lists_fit(lists: Seq<Seq<ValueView>>) -> bool {
    (forall|i: int| 0 <= i < lists.len() ==> values_fit(#[trigger] lists[i])) && list_fits(
        values_xdrs(lists),
    )
}

/// The encoding of a predecessor: nothing when there is none.
pub open spec fn predecessor_xdr(predecessor: Option<[u8; 32]>) -> Seq<u8> {
    match predecessor {
        Some(id) => xdr_of_bytes(id@),
        None => Seq::empty(),
    }
}

/// The bytes that identify a call: the encodings of target, function name,
/// arguments, predecessor (if any) and salt, in this order.
pub open spec fn call_data(
    target: Address,
    fn_name: Seq<char>,
    data: Seq<ValueView>,
    salt: [u8; 32],
    predecessor: Option<[u8; 32]>,
) -> Seq<u8> {
    xdr_of_address(target) + xdr_of_symbol(fn_name) + values_xdr(data) + predecessor_xdr(
        predecessor,
    ) + xdr_of_bytes(salt@)
}

/// Whether a call is small enough to be given an identity.
pub open spec fn call_fits(
    target: Address,
    fn_name: Seq<char>,
    data: Seq<ValueView>,
    salt: [u8; 32],
    predecessor: Option<[u8; 32]>,
) -> bool {
    values_fit(data) && call_data(target, fn_name, data, salt, predecessor).len()
        <= MAX_ENCODED_LEN
}

/// The identity of a call: the SHA-256 digest of its bytes.
pub open spec fn call_id(
    target: Address,
    fn_name: Seq<char>,
    data: Seq<ValueView>,
    salt: [u8; 32],
    predecessor: Option<[u8; 32]>,
) -> [u8; 32] {
    sha256_of(call_data(target, fn_name, data, salt, predecessor))
}

/// The bytes that identify a batch: the encodings of the targets, the
/// function names, the argument lists, the predecessor (if any) and the salt.
pub open spec fn batch_data(
    targets: Seq<Address>,
    fn_names: Seq<Seq<char>>,
    datas: Seq<Seq<ValueView>>,
    salt: [u8; 32],
    predecessor: Option<[u8; 32]>,
) -> Seq<u8> {
    xdr_of_vec(address_xdrs(targets)) + xdr_of_vec(symbol_xdrs(fn_names)) + xdr_of_vec(
        values_xdrs(datas),
    ) + predecessor_xdr(predecessor) + xdr_of_bytes(salt@)
}

/// Whether a batch is small enough to be given an identity.
pub open spec fn batch_fits(
    targets: Seq<Address>,
    fn_names: Seq<Seq<char>>,
    datas: Seq<Seq<ValueView>>,
    salt: [u8; 32],
    predecessor: Option<[u8; 32]>,
) -> bool {
    list_fits(address_xdrs(targets)) && list_fits(symbol_xdrs(fn_names)) && value_lists_fit(datas)
        && batch_data(targets, fn_names, datas, salt, predecessor).len() <= MAX_ENCODED_LEN
}

/// The identity of a batch: the SHA-256 digest of its bytes.
pub open spec fn batch_id(
    targets: Seq<Address>,
    fn_names: Seq<Seq<char>>,
    datas: Seq<Seq<ValueView>>,
    salt: [u8; 32],
    predecessor: Option<[u8; 32]>,
) -> [u8; 32] {
    sha256_of(batch_data(targets, fn_names, datas, salt, predecessor))
}

/// A prefix of a list of byte strings is no longer than the list.
pub proof fn lemma_total_len_prefix(items: Seq<Seq<u8>>, n: int)
    requires
        0 <= n <= items.len(),
    ensures
        total_len(items.subrange(0, n)) <= total_len(items),
    decreases items.len(),
{
    if n == items.len() {
        assert(items.subrange(0, n) == items);
    } else {
        lemma_total_len_prefix(items.drop_last(), n);
        assert(items.drop_last().subrange(0, n) == items.subrange(0, n));
    }
}

/// The encoding of a value; `None` when the value is a byte string that is
/// too long.
pub fn encode_value(value: &Value) -> (out: Option<Vec<u8>>)
    ensures
        out.is_some() == value_fits(value@),
        out matches Some(bytes) ==> bytes@ == value_xdr(value@),
{
    match value {
        Value::Bool(b) => Some(bool_xdr(*b)),
        Value::U32(x) => Some(u32_xdr(*x)),
        Value::U64(x) => Some(u64_xdr(*x)),
        Value::I64(x) => Some(i64_xdr(*x)),
        Value::I128(x) => Some(i128_xdr(*x)),
        Value::Bytes(bytes) => {
            if bytes.len() > MAX_ENCODED_LEN {
                None
            } else {
                Some(bytes_xdr(bytes.as_slice()))
            }
        },
        Value::Symbol(symbol) => Some(symbol_xdr(symbol.as_str())),
        Value::Address(address) => Some(address_xdr(address)),
        Value::Other(encoded) => Some(encoded.as_bytes().clone()),
    }
}

/// The encoding of the vector whose items have the given encodings; `None`
/// when they are too many or too long.
pub fn encode_list(items: &Vec<Vec<u8>>) -> (out: Option<Vec<u8>>)
    requires
        forall|i: int|
            0 <= i < items@.len() ==> encodes_value(#[trigger] items@[i]@) || encodes_values(
                items@[i]@,
            ),
    ensures
        out.is_some() == list_fits(views(items@)),
        out matches Some(bytes) ==> bytes@ == xdr_of_vec(views(items@)),
{
    if items.len() > MAX_ITEMS {
        return None;
    }
    let ghost all = views(items@);
    let mut total: usize = 0;
    let mut i: usize = 0;
    while i < items.len()
        invariant
            i <= items@.len(),
            all == views(items@),
            total == total_len(all.subrange(0, i as int)),
            total <= MAX_ENCODED_LEN,
        decreases items@.len() - i,
    {
        let n: usize = items[i].len();
        proof {
            assert(all.subrange(0, i + 1).drop_last() == all.subrange(0, i as int));
            assert(all.subrange(0, i + 1).last() == items@[i as int]@);
        }
        if n > MAX_ENCODED_LEN - total {
            proof {
                lemma_total_len_prefix(all, i + 1);
            }
            return None;
        }
        total += n;
        i += 1;
    }
    assert(all.subrange(0, i as int) == all);
    Some(vec_xdr(items))
}

/// The encoding of a list of values; `None` when it cannot be encoded.
pub fn encode_values(values: &Vec<Value>) -> (out: Option<Vec<u8>>)
    ensures
        out.is_some() == values_fit(value_views(values@)),
        out matches Some(bytes) ==> bytes@ == values_xdr(value_views(values@)),
{
    let ghost all = value_views(values@);
    let mut items: Vec<Vec<u8>> = Vec::new();
    let mut i: usize = 0;
    while i < values.len()
        invariant
            i <= values@.len(),
            all == value_views(values@),
            items@.len() == i,
            forall|j: int| 0 <= j < i ==> value_fits(#[trigger] all[j]),
            forall|j: int| 0 <= j < i ==> (#[trigger] items@[j])@ == value_xdr(all[j]),
            forall|j: int| 0 <= j < i ==> encodes_value(#[trigger] items@[j]@),
        decreases values@.len() - i,
    {
        match encode_value(&values[i]) {
            Some(bytes) => {
                assert(bytes@ == value_xdr(all[i as int]));
                assert(encodes_value(bytes@));
                items.push(bytes);
            },
            None => {
                assert(!value_fits(all[i as int]));
                return None;
            },
        }
        i += 1;
    }
    assert(views(items@) =~= value_xdrs(all));
    encode_list(&items)
}

/// The encoding of a list of addresses; `None` when it cannot be encoded.
pub fn encode_addresses(addresses: &Vec<Address>) -> (out: Option<Vec<u8>>)
    ensures
        out.is_some() == list_fits(address_xdrs(addresses@)),
        out matches Some(bytes) ==> bytes@ == xdr_of_vec(address_xdrs(addresses@)),
{
    let mut items: Vec<Vec<u8>> = Vec::new();
    let mut i: usize = 0;
    while i < addresses.len()
        invariant
            i <= addresses@.len(),
            items@.len() == i,
            forall|j: int| 0 <= j < i ==> (#[trigger] items@[j])@ == xdr_of_address(addresses@[j]),
            forall|j: int| 0 <= j < i ==> encodes_value(#[trigger] items@[j]@),
        decreases addresses@.len() - i,
    {
        let bytes = address_xdr(&addresses[i]);
        assert(bytes@ == value_xdr(ValueView::Address(addresses@[i as int])));
        assert(encodes_value(bytes@));
        items.push(bytes);
        i += 1;
    }
    assert(views(items@) =~= address_xdrs(addresses@));
    encode_list(&items)
}

/// The encoding of a list of symbols; `None` when it cannot be encoded.
pub fn encode_symbols(symbols: &Vec<Symbol>) -> (out: Option<Vec<u8>>)
    ensures
        out.is_some() == list_fits(symbol_xdrs(symbol_views(symbols@))),
        out matches Some(bytes) ==> bytes@ == xdr_of_vec(symbol_xdrs(symbol_views(symbols@))),
{
    let mut items: Vec<Vec<u8>> = Vec::new();
    let mut i: usize = 0;
    while i < symbols.len()
        invariant
            i <= symbols@.len(),
            items@.len() == i,
            forall|j: int| 0 <= j < i ==> (#[trigger] items@[j])@ == xdr_of_symbol(symbols@[j]@),
            forall|j: int| 0 <= j < i ==> encodes_value(#[trigger] items@[j]@),
        decreases symbols@.len() - i,
    {
        let bytes = symbol_xdr(symbols[i].as_str());
        assert(bytes@ == value_xdr(ValueView::Symbol(symbols@[i as int]@)));
        assert(encodes_value(bytes@));
        items.push(bytes);
        i += 1;
    }
    assert(views(items@) =~= symbol_xdrs(symbol_views(symbols@)));
    encode_list(&items)
}

/// The encoding of a list of lists of values; `None` when it cannot be
/// encoded.
pub fn encode_value_lists(lists: &Vec<Vec<Value>>) -> (out: Option<Vec<u8>>)
    ensures
        out.is_some() == value_lists_fit(value_list_views(lists@)),
        out matches Some(bytes) ==> bytes@ == xdr_of_vec(values_xdrs(value_list_views(lists@))),
{
    let ghost all = value_list_views(lists@);
    let mut items: Vec<Vec<u8>> = Vec::new();
    let mut i: usize = 0;
    while i < lists.len()
        invariant
            i <= lists@.len(),
            all == value_list_views(lists@),
            items@.len() == i,
            forall|j: int| 0 <= j < i ==> values_fit(#[trigger] all[j]),
            forall|j: int| 0 <= j < i ==> (#[trigger] items@[j])@ == values_xdr(all[j]),
            forall|j: int| 0 <= j < i ==> encodes_values(#[trigger] items@[j]@),
        decreases lists@.len() - i,
    {
        match encode_values(&lists[i]) {
            Some(bytes) => {
                assert(bytes@ == values_xdr(all[i as int]));
                assert(encodes_values(bytes@));
                items.push(bytes);
            },
            None => {
                assert(!values_fit(all[i as int]));
                return None;
            },
        }
        i += 1;
    }
    assert(views(items@) =~= values_xdrs(all));
    encode_list(&items)
}

/// Appends the encodings of predecessor (if any) and salt to `calldata` and
/// digests the whole; `None` when it is too long.
fn digest_with_tail(
    calldata: Vec<u8>,
    salt: &[u8; 32],
    predecessor: &Option<[u8; 32]>,
) -> (out: Option<[u8; 32]>)
    ensures
        out.is_some() == ((calldata@ + predecessor_xdr(*predecessor) + xdr_of_bytes(salt@)).len()
            <= MAX_ENCODED_LEN),
        out matches Some(id) ==> id == sha256_of(
            calldata@ + predecessor_xdr(*predecessor) + xdr_of_bytes(salt@),
        ),
{
    let mut calldata = calldata;
    match predecessor {
        Some(id) => {
            let bytes = bytes_xdr(id.as_slice());
            append_bytes(&mut calldata, &bytes);
        },
        None => {
            assert(calldata@ + predecessor_xdr(*predecessor) == calldata@);
        },
    }
    let bytes = bytes_xdr(salt.as_slice());
    append_bytes(&mut calldata, &bytes);
    if calldata.len() > MAX_ENCODED_LEN {
        None
    } else {
        Some(sha256(&calldata))
    }
}

/// The identity of a call; `None` when the call is too large to be encoded.
pub fn hash_call(
    target: &Address,
    fn_name: &Symbol,
    data: &Vec<Value>,
    salt: &[u8; 32],
    predecessor: &Option<[u8; 32]>,
) -> (out: Option<[u8; 32]>)
    ensures
        out.is_some() == call_fits(*target, fn_name@, value_views(data@), *salt, *predecessor),
        out matches Some(id) ==> id == call_id(
            *target,
            fn_name@,
            value_views(data@),
            *salt,
            *predecessor,
        ),
{
    let mut calldata: Vec<u8> = address_xdr(target);
    let name = symbol_xdr(fn_name.as_str());
    append_bytes(&mut calldata, &name);
    match encode_values(data) {
        Some(args) => {
            append_bytes(&mut calldata, &args);
            digest_with_tail(calldata, salt, predecessor)
        },
        None => None,
    }
}

/// The identity of a batch; `None` when the batch is too large to be encoded.
pub fn hash_call_batch(
    targets: &Vec<Address>,
    fn_names: &Vec<Symbol>,
    datas: &Vec<Vec<Value>>,
    salt: &[u8; 32],
    predecessor: &Option<[u8; 32]>,
) -> (out: Option<[u8; 32]>)
    ensures
        out.is_some() == batch_fits(
            targets@,
            symbol_views(fn_names@),
            value_list_views(datas@),
            *salt,
            *predecessor,
        ),
        out matches Some(id) ==> id == batch_id(
            targets@,
            symbol_views(fn_names@),
            value_list_views(datas@),
            *salt,
            *predecessor,
        ),
{
    let encoded_targets = encode_addresses(targets);
    let encoded_names = encode_symbols(fn_names);
    let encoded_datas = encode_value_lists(datas);
    match (encoded_targets, encoded_names, encoded_datas) {
        (Some(first), Some(second), Some(third)) => {
            let mut calldata: Vec<u8> = first;
            append_bytes(&mut calldata, &second);
            append_bytes(&mut calldata, &third);
            digest_with_tail(calldata, salt, predecessor)
        },
        _ => None,
    }
}

} // verus!
