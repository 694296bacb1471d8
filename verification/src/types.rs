//! The values that a call is made of: addresses, symbols and arguments.

use crate::encoding::{reread, xdr_read, MAX_ENCODED_LEN, MAX_NESTING};
use vstd::prelude::*;

verus! {

broadcast use vstd::array::group_array_axioms;

/// Whether an address names an account or a contract.
#[derive(Copy, Clone, Debug, PartialEq, Eq, Structural)]
pub enum AddressKind {
    Account,
    Contract,
}

/// An account or contract identifier: its kind and its 32-byte key.
#[derive(Copy, Clone, Debug, PartialEq, Eq)]
pub struct Address {
    pub kind: AddressKind,
    pub key: [u8; 32],
}

/// Compares two 32-byte strings.
pub fn bytes32_eq(a: &[u8; 32], b: &[u8; 32]) -> (same: bool)
    ensures
        same == (*a == *b),
{
    let mut i: usize = 0;
    while i < 32
        invariant
            i <= 32,
            forall|j: int| 0 <= j < i ==> a@[j] == b@[j],
        decreases 32 - i,
    {
        if a[i] != b[i] {
            return false;
        }
        i += 1;
    }
    assert(*a =~= *b);
    true
}

impl Address {
    /// The address of the account with the given key.
    pub fn account(key: [u8; 32]) -> (out: Address)
        ensures
            out == (Address { kind: AddressKind::Account, key }),
    {
        Address { kind: AddressKind::Account, key }
    }

    /// The address of the contract with the given key.
    pub fn contract(key: [u8; 32]) -> (out: Address)
        ensures
            out == (Address { kind: AddressKind::Contract, key }),
    {
        Address { kind: AddressKind::Contract, key }
    }

    /// Whether the address names a contract.
    pub fn is_contract(&self) -> (out: bool)
        ensures
            out == (self.kind == AddressKind::Contract),
    {
        self.kind == AddressKind::Contract
    }

    /// Whether two addresses are the same.
    pub fn same(&self, other: &Address) -> (out: bool)
        ensures
            out == (*self == *other),
    {
        self.kind == other.kind && bytes32_eq(&self.key, &other.key)
    }
}

/// Whether a character may stand in a symbol: a letter, a digit or `_`.
pub open spec fn is_symbol_char(c: char) -> bool {
    ('a' <= c && c <= 'z') || ('A' <= c && c <= 'Z') || ('0' <= c && c <= '9') || c == '_'
}

/// Whether a text can be a symbol: at most 32 symbol characters.
pub open spec fn is_symbol_text(text: Seq<char>) -> bool {
    text.len() <= 32 && forall|i: int| 0 <= i < text.len() ==> is_symbol_char(#[trigger] text[i])
}

/// A function name: at most 32 characters, each a letter, a digit or `_`.
#[derive(Debug, PartialEq, Eq)]
pub struct Symbol {
    name: String,
}

impl View for Symbol {
    type V = Seq<char>;

    closed spec fn view(&self) -> Seq<char> {
        self.name@
    }
}

impl Symbol {
    #[verifier::type_invariant]
    spec fn valid(self) -> bool {
        is_symbol_text(self.name@)
    }

    /// The symbol with the given text, if the text can be one.
    pub fn new(text: &str) -> (out: Option<Symbol>)
        ensures
            out.is_some() == is_symbol_text(text@),
            out.is_some() ==> out.unwrap()@ == text@,
    {
        let n: usize = text.unicode_len();
        if n > 32 {
            return None;
        }
        let mut i: usize = 0;
        while i < n
            invariant
                n == text@.len(),
                i <= n,
                forall|j: int| 0 <= j < i ==> is_symbol_char(#[trigger] text@[j]),
            decreases n - i,
        {
            let c: char = text.get_char(i);
            let ok = ('a' <= c && c <= 'z') || ('A' <= c && c <= 'Z') || ('0' <= c && c <= '9')
                || c == '_';
            if !ok {
                return None;
            }
            i += 1;
        }
        Some(Symbol { name: text.to_owned() })
    }

    /// The symbol's text.
    pub fn as_str(&self) -> (out: &str)
        ensures
            out@ == self@,
            is_symbol_text(out@),
    {
        proof {
            use_type_invariant(self);
        }
        self.name.as_str()
    }

    /// Whether the symbol's text is `text`.
    pub fn is(&self, text: &str) -> (out: bool)
        ensures
            out == (self@ == text@),
    {
        let other: String = text.to_owned();
        self.name == other
    }

    /// Whether two symbols are the same.
    pub fn same(&self, other: &Symbol) -> (out: bool)
        ensures
            out == (self@ == other@),
    {
        self.name == other.name
    }

}

impl Clone for Symbol {
    fn clone(&self) -> (out: Symbol)
        ensures
            out@ == self@,
    {
        proof {
            use_type_invariant(self);
        }
        Symbol { name: self.name.clone() }
    }
}

/// Whether the bytes start as the encoding of a value does whose kind has a
/// variant of its own in `Value`: a boolean, a 32-bit unsigned number, a
/// 64-bit number, a 128-bit signed number, a byte string, a symbol or an
/// address. An encoding starts with the number of the kind, in four bytes.
pub open spec fn has_own_kind(bytes: Seq<u8>) -> bool {
    bytes.len() >= 4 && bytes[0] == 0 && bytes[1] == 0 && bytes[2] == 0 && (bytes[3] == 0
        || bytes[3] == 3 || bytes[3] == 5 || bytes[3] == 6 || bytes[3] == 10 || bytes[3] == 13
        || bytes[3] == 15 || bytes[3] == 18)
}

/// Whether the bytes can stand for a value of another kind: they are short
/// enough, the kind has no variant of its own, and the SDK reads them as a
/// value that it writes in just these bytes.
pub open spec fn is_other_value(bytes: Seq<u8>) -> bool {
    bytes.len() <= MAX_ENCODED_LEN && !has_own_kind(bytes) && xdr_read(bytes, MAX_NESTING)
        == Some(bytes)
}

/// Compares two byte strings.
pub fn bytes_eq(a: &Vec<u8>, b: &Vec<u8>) -> (same: bool)
    ensures
        same == (a@ == b@),
{
    if a.len() != b.len() {
        return false;
    }
    let mut i: usize = 0;
    while i < a.len()
        invariant
            i <= a@.len(),
            a@.len() == b@.len(),
            forall|j: int| 0 <= j < i ==> a@[j] == b@[j],
        decreases a@.len() - i,
    {
        if a[i] != b[i] {
            return false;
        }
        i += 1;
    }
    assert(a@ =~= b@);
    true
}

/// A value in its canonical encoding, of a kind that `Value` has no variant
/// for: a map, a vector, a text, a number of another width, and so on.
#[derive(Debug, PartialEq, Eq)]
pub struct Encoded {
    bytes: Vec<u8>,
}

impl View for Encoded {
    type V = Seq<u8>;

    closed spec fn view(&self) -> Seq<u8> {
        self.bytes@
    }
}

impl Encoded {
    #[verifier::type_invariant]
    spec fn valid(self) -> bool {
        is_other_value(self.bytes@)
    }

    /// The value that the bytes encode, if they encode one of another kind.
    pub fn new(bytes: Vec<u8>) -> (out: Option<Encoded>)
        ensures
            out.is_some() == is_other_value(bytes@),
            out matches Some(encoded) ==> encoded@ == bytes@,
    {
        if bytes.len() > MAX_ENCODED_LEN {
            return None;
        }
        if bytes.len() >= 4 && bytes[0] == 0 && bytes[1] == 0 && bytes[2] == 0 {
            let kind: u8 = bytes[3];
            if kind == 0 || kind == 3 || kind == 5 || kind == 6 || kind == 10 || kind == 13
                || kind == 15 || kind == 18 {
                return None;
            }
        }
        match reread(bytes.as_slice(), MAX_NESTING) {
            Some(again) => {
                if bytes_eq(&again, &bytes) {
                    Some(Encoded { bytes })
                } else {
                    None
                }
            },
            None => None,
        }
    }

    /// The encoding.
    pub fn as_bytes(&self) -> (out: &Vec<u8>)
        ensures
            out@ == self@,
            is_other_value(out@),
    {
        proof {
            use_type_invariant(self);
        }
        &self.bytes
    }
}

impl Clone for Encoded {
    fn clone(&self) -> (out: Encoded)
        ensures
            out@ == self@,
    {
        proof {
            use_type_invariant(self);
        }
        Encoded { bytes: self.bytes.clone() }
    }
}

/// One argument of a call.
#[derive(Debug, PartialEq, Eq)]
pub enum Value {
    Bool(bool),
    U32(u32),
    U64(u64),
    I64(i64),
    I128(i128),
    Bytes(Vec<u8>),
    Symbol(Symbol),
    Address(Address),
    /// A value of any other kind.
    Other(Encoded),
}

/// What a `Value` holds.
pub enum ValueView {
    Bool(bool),
    U32(u32),
    U64(u64),
    I64(i64),
    I128(i128),
    Bytes(Seq<u8>),
    Symbol(Seq<char>),
    Address(Address),
    Other(Seq<u8>),
}

impl View for Value {
    type V = ValueView;

    open spec fn view(&self) -> ValueView {
        match *self {
            Value::Bool(b) => ValueView::Bool(b),
            Value::U32(x) => ValueView::U32(x),
            Value::U64(x) => ValueView::U64(x),
            Value::I64(x) => ValueView::I64(x),
            Value::I128(x) => ValueView::I128(x),
            Value::Bytes(bytes) => ValueView::Bytes(bytes@),
            Value::Symbol(symbol) => ValueView::Symbol(symbol@),
            Value::Address(address) => ValueView::Address(address),
            Value::Other(encoded) => ValueView::Other(encoded@),
        }
    }
}

impl Clone for Value {
    fn clone(&self) -> (out: Value)
        ensures
            out@ == self@,
    {
        match self {
            Value::Bool(b) => Value::Bool(*b),
            Value::U32(x) => Value::U32(*x),
            Value::U64(x) => Value::U64(*x),
            Value::I64(x) => Value::I64(*x),
            Value::I128(x) => Value::I128(*x),
            Value::Bytes(bytes) => Value::Bytes(bytes.clone()),
            Value::Symbol(symbol) => Value::Symbol(symbol.clone()),
            Value::Address(address) => Value::Address(*address),
            Value::Other(encoded) => Value::Other(encoded.clone()),
        }
    }
}

/// What each of the given values holds.
pub open spec fn value_views(values: Seq<Value>) -> Seq<ValueView> {
    values.map_values(|value: Value| value@)
}

/// What each value of each of the given lists holds.
pub open spec fn value_list_views(lists: Seq<Vec<Value>>) -> Seq<Seq<ValueView>> {
    lists.map_values(|list: Vec<Value>| value_views(list@))
}

/// The texts of the given symbols.
pub open spec fn symbol_views(symbols: Seq<Symbol>) -> Seq<Seq<char>> {
    symbols.map_values(|symbol: Symbol| symbol@)
}

/// A copy of a list of values.
pub fn clone_values(values: &Vec<Value>) -> (out: Vec<Value>)
    ensures
        value_views(out@) == value_views(values@),
{
    let mut out: Vec<Value> = Vec::new();
    let mut i: usize = 0;
    while i < values.len()
        invariant
            i <= values@.len(),
            out@.len() == i,
            forall|j: int| 0 <= j < i ==> out@[j]@ == values@[j]@,
        decreases values@.len() - i,
    {
        out.push(values[i].clone());
        i += 1;
    }
    assert(value_views(out@) =~= value_views(values@));
    out
}

} // verus!
