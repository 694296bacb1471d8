//! The byte strings that identify a call: the canonical encoding of each
//! value, as the Soroban SDK computes it, and the SHA-256 digest.
//!
//! Every call into the SDK runs on a host of its own, made for the call. A
//! host meters its work and gives up beyond 100 million instructions or 40
//! MiB; the SDK charges below a hundred instructions for a byte that it
//! copies, encodes, decodes or digests, and some sixty thousand for a value
//! that it decodes. `MAX_ENCODED_LEN` and `MAX_ITEMS` keep every call far
//! below that.

use crate::types::{is_other_value, is_symbol_text, Address, AddressKind, ValueView};
use soroban_sdk::xdr::{AccountId, Limits, PublicKey, ReadXdr, ScAddress, ScVal, ToXdr, Uint256};
use soroban_sdk::{Bytes, Env, TryFromVal, Val};
use vstd::prelude::*;

verus! {

/// The most bytes that are handed to the SDK in one piece.
pub const MAX_ENCODED_LEN: usize = 65536;

/// The most items that are handed to the SDK as one vector.
pub const MAX_ITEMS: usize = 64;

/// The deepest nesting at which the SDK is asked to read a value that comes
/// as bytes.
pub const MAX_NESTING: u32 = 100;

/// The four bytes that open an encoding: the number of the value's kind.
pub open spec fn kind_word(kind: u8) -> Seq<u8> {
    seq![0u8, 0u8, 0u8, kind]
}

/// A number below 2^32 in four bytes, the most significant first.
pub open spec fn be32(x: int) -> Seq<u8> {
    seq![
        ((x / 0x100_0000) % 0x100) as u8,
        ((x / 0x1_0000) % 0x100) as u8,
        ((x / 0x100) % 0x100) as u8,
        (x % 0x100) as u8,
    ]
}

/// A number below 2^64 in eight bytes, the most significant first.
pub open spec fn be64(x: int) -> Seq<u8> {
    be32(x / 0x1_0000_0000) + be32(x % 0x1_0000_0000)
}

/// The number below 2^64 that has the bits of `x` in two's complement.
pub open spec fn unsigned64(x: int) -> int {
    if x >= 0 {
        x
    } else {
        x + 0x1_0000_0000_0000_0000
    }
}

/// `n` zero bytes.
pub open spec fn zeros(n: int) -> Seq<u8> {
    Seq::new(n as nat, |i: int| 0u8)
}

/// How many zero bytes fill `len` bytes up to a multiple of four.
pub open spec fn padding(len: int) -> int {
    (4 - len % 4) % 4
}

/// The bytes of a text whose characters are all below 128.
pub open spec fn ascii(text: Seq<char>) -> Seq<u8> {
    text.map_values(|c: char| c as u8)
}

/// The given byte strings, one after the other.
pub open spec fn joined(items: Seq<Seq<u8>>) -> Seq<u8>
    decreases items.len(),
{
    if items.len() == 0 {
        Seq::empty()
    } else {
        joined(items.drop_last()) + items.last()
    }
}

/// The canonical encoding of a boolean value: kind 0, then the word 1 or 0.
pub open spec fn xdr_of_bool(b: bool) -> Seq<u8> {
    kind_word(0) + be32(if b { 1 } else { 0 })
}

/// The canonical encoding of a 32-bit unsigned value: kind 3, then the
/// number.
pub open spec fn xdr_of_u32(x: u32) -> Seq<u8> {
    kind_word(3) + be32(x as int)
}

/// The canonical encoding of a 64-bit unsigned value: kind 5, then the
/// number.
pub open spec fn xdr_of_u64(x: u64) -> Seq<u8> {
    kind_word(5) + be64(x as int)
}

/// The canonical encoding of a 64-bit signed value: kind 6, then the number
/// in two's complement.
pub open spec fn xdr_of_i64(x: i64) -> Seq<u8> {
    kind_word(6) + be64(unsigned64(x as int))
}

/// The canonical encoding of a 128-bit signed value: kind 10, then the
/// number in two's complement, the upper 64 bits first.
pub open spec fn xdr_of_i128(x: i128) -> Seq<u8> {
    let lower = (x as int) % 0x1_0000_0000_0000_0000;
    let upper = ((x as int) - lower) / 0x1_0000_0000_0000_0000;
    kind_word(10) + be64(unsigned64(upper)) + be64(lower)
}

/// The canonical encoding of a byte string: kind 13, the length, the bytes,
/// and zero bytes up to a multiple of four.
pub open spec fn xdr_of_bytes(bytes: Seq<u8>) -> Seq<u8> {
    kind_word(13) + be32(bytes.len() as int) + bytes + zeros(padding(bytes.len() as int))
}

/// The canonical encoding of a symbol: kind 15, the length, the characters,
/// and zero bytes up to a multiple of four.
pub open spec fn xdr_of_symbol(text: Seq<char>) -> Seq<u8> {
    kind_word(15) + be32(text.len() as int) + ascii(text) + zeros(padding(text.len() as int))
}

/// The canonical encoding of an address: kind 18, then the word 1 and the
/// key for a contract, the words 0 and 0 and the key for an account.
pub open spec fn xdr_of_address(address: Address) -> Seq<u8> {
    kind_word(18) + (match address.kind {
        AddressKind::Account => be32(0) + be32(0),
        AddressKind::Contract => be32(1),
    }) + address.key@
}

/// The canonical encoding of the vector whose items have the given
/// encodings: kind 16, the word 1, the number of items, and the items.
pub open spec fn xdr_of_vec(items: Seq<Seq<u8>>) -> Seq<u8> {
    kind_word(16) + be32(1) + be32(items.len() as int) + joined(items)
}

/// What the SDK writes for the value that it reads from the bytes, whole and
/// without nesting deeper than `depth`; `None` where it reads no value.
pub uninterp spec fn xdr_read(bytes: Seq<u8>, depth: u32) -> Option<Seq<u8>>;

/// The SHA-256 digest of a byte string.
pub uninterp spec fn sha256_of(data: Seq<u8>) -> [u8; 32];

/// The lengths of the given byte strings, added up.
pub open spec fn total_len(items: Seq<Seq<u8>>) -> nat
    decreases items.len(),
{
    if items.len() == 0 {
        0
    } else {
        total_len(items.drop_last()) + items.last().len()
    }
}

/// The views of the given byte vectors.
pub open spec fn views(items: Seq<Vec<u8>>) -> Seq<Seq<u8>> {
    items.map_values(|item: Vec<u8>| item@)
}

/// The canonical encoding of a value. A value that comes as bytes is
/// encoded in just those bytes.
pub open spec fn value_xdr(value: ValueView) -> Seq<u8> {
    match value {
        ValueView::Bool(b) => xdr_of_bool(b),
        ValueView::U32(x) => xdr_of_u32(x),
        ValueView::U64(x) => xdr_of_u64(x),
        ValueView::I64(x) => xdr_of_i64(x),
        ValueView::I128(x) => xdr_of_i128(x),
        ValueView::Bytes(bytes) => xdr_of_bytes(bytes),
        ValueView::Symbol(text) => xdr_of_symbol(text),
        ValueView::Address(address) => xdr_of_address(address),
        ValueView::Other(bytes) => bytes,
    }
}

/// Whether a value can be encoded: a byte string has to be short enough, a
/// symbol has to have a symbol's text, and a value that comes as bytes has
/// to be one of another kind, as the SDK writes it.
pub open spec fn value_fits(value: ValueView) -> bool {
    match value {
        ValueView::Bytes(bytes) => bytes.len() <= MAX_ENCODED_LEN,
        ValueView::Symbol(text) => is_symbol_text(text),
        ValueView::Other(bytes) => is_other_value(bytes),
        _ => true,
    }
}

/// Whether item encodings are few and short enough to be encoded as a vector.
pub open spec fn list_fits(items: Seq<Seq<u8>>) -> bool {
    items.len() <= MAX_ITEMS && total_len(items) <= MAX_ENCODED_LEN
}

/// The encodings of the given values.
pub open spec fn value_xdrs(values: Seq<ValueView>) -> Seq<Seq<u8>> {
    values.map_values(|value: ValueView| value_xdr(value))
}

/// Whether a list of values can be encoded.
pub open spec fn values_fit(values: Seq<ValueView>) -> bool {
    (forall|i: int| 0 <= i < values.len() ==> value_fits(#[trigger] values[i])) && list_fits(
        value_xdrs(values),
    )
}

/// The canonical encoding of a list of values.
pub open spec fn values_xdr(values: Seq<ValueView>) -> Seq<u8> {
    xdr_of_vec(value_xdrs(values))
}

/// Whether the bytes are the encoding of a value that can be encoded.
pub open spec fn encodes_value(bytes: Seq<u8>) -> bool {
    exists|value: ValueView| value_fits(value) && bytes == #[trigger] value_xdr(value)
}

/// Whether the bytes are the encoding of a list of values that can be
/// encoded.
pub open spec fn encodes_values(bytes: Seq<u8>) -> bool {
    exists|values: Seq<ValueView>| values_fit(values) && bytes == #[trigger] values_xdr(values)
}

/// `bool::to_xdr` of the SDK: the result is the encoding of the value.
#[verifier::external_body]
pub(crate) fn bool_xdr(b: bool) -> (out: Vec<u8>)
    ensures
        out@ == xdr_of_bool(b),
{
    let env = Env::default();
    let xdr = b.to_xdr(&env);
    let mut out = vec![0u8; xdr.len() as usize];
    xdr.copy_into_slice(&mut out);
    out
}

/// `u32::to_xdr` of the SDK: the result is the encoding of the value.
#[verifier::external_body]
pub(crate) fn u32_xdr(x: u32) -> (out: Vec<u8>)
    ensures
        out@ == xdr_of_u32(x),
{
    let env = Env::default();
    let xdr = x.to_xdr(&env);
    let mut out = vec![0u8; xdr.len() as usize];
    xdr.copy_into_slice(&mut out);
    out
}

/// `u64::to_xdr` of the SDK: the result is the encoding of the value.
#[verifier::external_body]
pub(crate) fn u64_xdr(x: u64) -> (out: Vec<u8>)
    ensures
        out@ == xdr_of_u64(x),
{
    let env = Env::default();
    let xdr = x.to_xdr(&env);
    let mut out = vec![0u8; xdr.len() as usize];
    xdr.copy_into_slice(&mut out);
    out
}

/// `i64::to_xdr` of the SDK: the result is the encoding of the value.
#[verifier::external_body]
pub(crate) fn i64_xdr(x: i64) -> (out: Vec<u8>)
    ensures
        out@ == xdr_of_i64(x),
{
    let env = Env::default();
    let xdr = x.to_xdr(&env);
    let mut out = vec![0u8; xdr.len() as usize];
    xdr.copy_into_slice(&mut out);
    out
}

/// `i128::to_xdr` of the SDK: the result is the encoding of the value.
#[verifier::external_body]
pub(crate) fn i128_xdr(x: i128) -> (out: Vec<u8>)
    ensures
        out@ == xdr_of_i128(x),
{
    let env = Env::default();
    let xdr = x.to_xdr(&env);
    let mut out = vec![0u8; xdr.len() as usize];
    xdr.copy_into_slice(&mut out);
    out
}

/// `Bytes::to_xdr` of the SDK, on the byte string built by
/// `Bytes::from_slice`: the result is the encoding of the byte string. The
/// bound keeps the call within what a host allows.
#[verifier::external_body]
pub(crate) fn bytes_xdr(bytes: &[u8]) -> (out: Vec<u8>)
    requires
        bytes@.len() <= MAX_ENCODED_LEN,
    ensures
        out@ == xdr_of_bytes(bytes@),
{
    let env = Env::default();
    let xdr = Bytes::from_slice(&env, bytes).to_xdr(&env);
    let mut out = vec![0u8; xdr.len() as usize];
    xdr.copy_into_slice(&mut out);
    out
}

/// `Symbol::to_xdr` of the SDK, on the symbol built by `Symbol::new`, which
/// accepts at most 32 characters out of `a-zA-Z0-9_`: the result is the
/// encoding of the symbol.
#[verifier::external_body]
pub(crate) fn symbol_xdr(text: &str) -> (out: Vec<u8>)
    requires
        is_symbol_text(text@),
    ensures
        out@ == xdr_of_symbol(text@),
{
    let env = Env::default();
    let xdr = soroban_sdk::Symbol::new(&env, text).to_xdr(&env);
    let mut out = vec![0u8; xdr.len() as usize];
    xdr.copy_into_slice(&mut out);
    out
}

/// `Address::to_xdr` of the SDK, on the address that the SDK builds from the
/// kind and the key: the result is the encoding of the address.
#[verifier::external_body]
pub(crate) fn address_xdr(address: &Address) -> (out: Vec<u8>)
    ensures
        out@ == xdr_of_address(*address),
{
    let env = Env::default();
    let raw = match address.kind {
        AddressKind::Account => ScAddress::Account(
            AccountId(PublicKey::PublicKeyTypeEd25519(Uint256(address.key))),
        ),
        AddressKind::Contract => ScAddress::Contract(soroban_sdk::xdr::Hash(address.key)),
    };
    let sdk_address = soroban_sdk::Address::try_from_val(&env, &raw).unwrap();
    let xdr = sdk_address.to_xdr(&env);
    let mut out = vec![0u8; xdr.len() as usize];
    xdr.copy_into_slice(&mut out);
    out
}

/// `ScVal::from_xdr`, `Val::try_from_val` and `to_xdr` of the SDK: a host
/// reads a value from `bytes`, whole and without nesting deeper than
/// `depth`, and writes it again. The result is what it wrote; `None` where
/// it read no value. The bounds keep the call within what a host allows.
#[verifier::external_body]
pub(crate) fn reread(bytes: &[u8], depth: u32) -> (out: Option<Vec<u8>>)
    requires
        bytes@.len() <= MAX_ENCODED_LEN,
        depth <= MAX_NESTING,
    ensures
        out.is_some() == xdr_read(bytes@, depth).is_some(),
        out matches Some(again) ==> xdr_read(bytes@, depth) == Some(again@),
{
    let env = Env::default();
    let read = ScVal::from_xdr(bytes, Limits { depth, len: bytes.len() }).ok()?;
    let xdr = Val::try_from_val(&env, &read).ok()?.to_xdr(&env);
    let mut out = vec![0u8; xdr.len() as usize];
    xdr.copy_into_slice(&mut out);
    Some(out)
}

/// `Vec::<Val>::to_xdr` of the SDK, on the vector whose items
/// `ScVal::from_xdr` and `Val::try_from_val` read from the given encodings,
/// in order: the result is the encoding of that vector, which holds the
/// items as they were given. Each item is the encoding of a value or of a
/// list of values, all of which the SDK reads back and writes the same: it
/// wrote them itself, or was seen before to write them so. The bounds keep
/// the call within what a host allows.
#[verifier::external_body]
pub(crate) fn vec_xdr(items: &Vec<Vec<u8>>) -> (out: Vec<u8>)
    requires
        items@.len() <= MAX_ITEMS,
        total_len(views(items@)) <= MAX_ENCODED_LEN,
        forall|i: int|
            0 <= i < items@.len() ==> encodes_value(#[trigger] items@[i]@) || encodes_values(
                items@[i]@,
            ),
    ensures
        out@ == xdr_of_vec(views(items@)),
{
    let env = Env::default();
    let mut vals: soroban_sdk::Vec<Val> = soroban_sdk::Vec::new(&env);
    for item in items.iter() {
        let value = ScVal::from_xdr(item, Limits::len(item.len())).unwrap();
        vals.push_back(Val::try_from_val(&env, &value).unwrap());
    }
    let xdr = vals.to_xdr(&env);
    let mut out = vec![0u8; xdr.len() as usize];
    xdr.copy_into_slice(&mut out);
    out
}

/// `Crypto::sha256` of the SDK: the result is the SHA-256 digest of the
/// data. The bound keeps the call within what a host allows.
#[verifier::external_body]
pub(crate) fn sha256(data: &Vec<u8>) -> (out: [u8; 32])
    requires
        data@.len() <= MAX_ENCODED_LEN,
    ensures
        out == sha256_of(data@),
{
    let env = Env::default();
    env.crypto().sha256(&Bytes::from_slice(&env, data)).to_array()
}

/// Appends `src` to `dst`.
pub fn append_bytes(dst: &mut Vec<u8>, src: &Vec<u8>)
    ensures
        final(dst)@ == old(dst)@ + src@,
{
    let mut i: usize = 0;
    while i < src.len()
        invariant
            i <= src@.len(),
            dst@ == old(dst)@ + src@.subrange(0, i as int),
        decreases src@.len() - i,
    {
        dst.push(src[i]);
        i += 1;
        assert(src@.subrange(0, i as int) == src@.subrange(0, i - 1).push(src@[i - 1]));
    }
    assert(src@.subrange(0, i as int) == src@);
}

} // verus!
