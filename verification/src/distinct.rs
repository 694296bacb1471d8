//! Different calls are made of different bytes: the encodings tell values
//! apart, and each tells where it ends.

use crate::encoding::{
    ascii, be32, be64, joined, kind_word, padding, sha256_of, total_len, unsigned64, value_fits,
    value_xdr, value_xdrs, xdr_of_address, xdr_of_bytes, xdr_of_symbol, xdr_of_vec, zeros,
};
use crate::hasher::{
    address_xdrs, batch_data, batch_id, call_data, call_id, predecessor_xdr, symbol_xdrs,
    values_xdrs,
};
use crate::types::{has_own_kind, is_symbol_char, is_symbol_text, Address, AddressKind, ValueView};
use vstd::prelude::*;

verus! {

broadcast use vstd::array::group_array_axioms;

/// Two byte strings that are equal and start with parts of one length have
/// equal parts.
pub proof fn lemma_cancel(a1: Seq<u8>, b1: Seq<u8>, a2: Seq<u8>, b2: Seq<u8>)
    requires
        a1 + b1 == a2 + b2,
        a1.len() == a2.len(),
    ensures
        a1 == a2,
        b1 == b2,
{
    assert((a1 + b1).len() == (a2 + b2).len());
    assert forall|i: int| 0 <= i < a1.len() implies a1[i] == a2[i] by {
        assert((a1 + b1)[i] == a1[i]);
        assert((a2 + b2)[i] == a2[i]);
    }
    assert(a1 =~= a2);
    assert((a1 + b1).len() == a1.len() + b1.len());
    assert((a2 + b2).len() == a2.len() + b2.len());
    assert(b1.len() == b2.len());
    assert forall|i: int| 0 <= i < b1.len() implies b1[i] == b2[i] by {
        assert((a1 + b1)[a1.len() + i] == b1[i]);
        assert((a2 + b2)[a2.len() + i] == b2[i]);
    }
    assert(b1 =~= b2);
}

/// The number that four bytes hold, the most significant first.
pub open spec fn word_at(s: Seq<u8>, at: int) -> int {
    s[at] * 0x100_0000 + s[at + 1] * 0x1_0000 + s[at + 2] * 0x100 + s[at + 3]
}

/// Four bytes hold the number that was written into them.
pub proof fn lemma_be32_read(x: int)
    requires
        0 <= x < 0x1_0000_0000,
    ensures
        be32(x).len() == 4,
        word_at(be32(x), 0) == x,
{
    let b0 = (x / 0x100_0000) % 0x100;
    let b1 = (x / 0x1_0000) % 0x100;
    let b2 = (x / 0x100) % 0x100;
    let b3 = x % 0x100;
    assert(be32(x)[0] == b0 as u8);
    assert(be32(x)[1] == b1 as u8);
    assert(be32(x)[2] == b2 as u8);
    assert(be32(x)[3] == b3 as u8);
    assert(x == b0 * 0x100_0000 + b1 * 0x1_0000 + b2 * 0x100 + b3);
}

/// Different numbers below 2^32 are written differently.
pub proof fn lemma_be32_injective(x: int, y: int)
    requires
        0 <= x < 0x1_0000_0000,
        0 <= y < 0x1_0000_0000,
        be32(x) == be32(y),
    ensures
        x == y,
{
    lemma_be32_read(x);
    lemma_be32_read(y);
}

/// Different numbers below 2^64 are written differently.
pub proof fn lemma_be64_injective(x: int, y: int)
    requires
        0 <= x < 0x1_0000_0000_0000_0000,
        0 <= y < 0x1_0000_0000_0000_0000,
        be64(x) == be64(y),
    ensures
        x == y,
{
    lemma_be32_read(x / 0x1_0000_0000);
    lemma_be32_read(x % 0x1_0000_0000);
    lemma_be32_read(y / 0x1_0000_0000);
    lemma_be32_read(y % 0x1_0000_0000);
    lemma_cancel(
        be32(x / 0x1_0000_0000),
        be32(x % 0x1_0000_0000),
        be32(y / 0x1_0000_0000),
        be32(y % 0x1_0000_0000),
    );
    lemma_be32_injective(x / 0x1_0000_0000, y / 0x1_0000_0000);
    lemma_be32_injective(x % 0x1_0000_0000, y % 0x1_0000_0000);
}



/// What an encoding that starts with a kind and a word looks like: the
/// first three bytes are 0, the fourth is the kind, the next four hold the
/// word, and the rest follows. So does the encoding with more bytes after
/// it.
pub proof fn lemma_header(kind: u8, word: int, rest: Seq<u8>, tail: Seq<u8>)
    requires
        0 <= word < 0x1_0000_0000,
    ensures
        ({
            let s = kind_word(kind) + be32(word) + rest + tail;
            &&& s.len() == 8 + rest.len() + tail.len()
            &&& s[0] == 0 && s[1] == 0 && s[2] == 0 && s[3] == kind
            &&& word_at(s, 4) == word
        }),
{
    lemma_be32_read(word);
    let s = kind_word(kind) + be32(word) + rest + tail;
    assert(s[0] == kind_word(kind)[0]);
    assert(s[1] == kind_word(kind)[1]);
    assert(s[2] == kind_word(kind)[2]);
    assert(s[3] == kind_word(kind)[3]);
    assert(s[4] == be32(word)[0]);
    assert(s[5] == be32(word)[1]);
    assert(s[6] == be32(word)[2]);
    assert(s[7] == be32(word)[3]);
}

/// Whether a value has a variant of its own, and is not given as bytes.
pub open spec fn is_plain(value: ValueView) -> bool {
    !(value is Other)
}

/// The number of the kind of a value that has a variant of its own.
pub open spec fn kind_of(value: ValueView) -> u8 {
    match value {
        ValueView::Bool(_) => 0,
        ValueView::U32(_) => 3,
        ValueView::U64(_) => 5,
        ValueView::I64(_) => 6,
        ValueView::I128(_) => 10,
        ValueView::Bytes(_) => 13,
        ValueView::Symbol(_) => 15,
        ValueView::Address(_) => 18,
        ValueView::Other(_) => 0,
    }
}

/// The word that follows the kind in the encoding of a value that has a
/// variant of its own.
pub open spec fn word_of(value: ValueView) -> int {
    match value {
        ValueView::Bool(b) => if b {
            1
        } else {
            0
        },
        ValueView::U32(x) => x as int,
        ValueView::U64(x) => (x as int) / 0x1_0000_0000,
        ValueView::I64(x) => unsigned64(x as int) / 0x1_0000_0000,
        ValueView::I128(x) => unsigned64(
            ((x as int) - (x as int) % 0x1_0000_0000_0000_0000) / 0x1_0000_0000_0000_0000,
        ) / 0x1_0000_0000,
        ValueView::Bytes(bytes) => bytes.len() as int,
        ValueView::Symbol(text) => text.len() as int,
        ValueView::Address(address) => match address.kind {
            AddressKind::Account => 0,
            AddressKind::Contract => 1,
        },
        ValueView::Other(_) => 0,
    }
}

/// What follows the kind and the word in the encoding of a value that has a
/// variant of its own.
pub open spec fn rest_of(value: ValueView) -> Seq<u8> {
    match value {
        ValueView::Bool(_) => Seq::empty(),
        ValueView::U32(_) => Seq::empty(),
        ValueView::U64(x) => be32((x as int) % 0x1_0000_0000),
        ValueView::I64(x) => be32(unsigned64(x as int) % 0x1_0000_0000),
        ValueView::I128(x) => be32(
            unsigned64(
                ((x as int) - (x as int) % 0x1_0000_0000_0000_0000) / 0x1_0000_0000_0000_0000,
            ) % 0x1_0000_0000,
        ) + be64((x as int) % 0x1_0000_0000_0000_0000),
        ValueView::Bytes(bytes) => bytes + zeros(padding(bytes.len() as int)),
        ValueView::Symbol(text) => ascii(text) + zeros(padding(text.len() as int)),
        ValueView::Address(address) => match address.kind {
            AddressKind::Account => be32(0) + address.key@,
            AddressKind::Contract => address.key@,
        },
        ValueView::Other(_) => Seq::empty(),
    }
}

/// How long the encoding is with which the bytes start, as its kind and its
/// word tell.
pub open spec fn frame_len(s: Seq<u8>) -> int {
    let kind = s[3];
    if kind == 0 || kind == 3 {
        8
    } else if kind == 5 || kind == 6 {
        12
    } else if kind == 10 {
        20
    } else if kind == 13 || kind == 15 {
        8 + word_at(s, 4) + padding(word_at(s, 4))
    } else if s[7] == 1 {
        40
    } else {
        44
    }
}

/// How long the rest of the encoding of a value is that has a variant of
/// its own.
pub open spec fn rest_len(value: ValueView) -> int {
    match value {
        ValueView::Bool(_) => 0,
        ValueView::U32(_) => 0,
        ValueView::U64(_) => 4,
        ValueView::I64(_) => 4,
        ValueView::I128(_) => 12,
        ValueView::Bytes(bytes) => bytes.len() + padding(bytes.len() as int),
        ValueView::Symbol(text) => text.len() + padding(text.len() as int),
        ValueView::Address(address) => match address.kind {
            AddressKind::Account => 36,
            AddressKind::Contract => 32,
        },
        ValueView::Other(_) => 0,
    }
}

/// The word of a value is a number below 2^32.
pub proof fn lemma_word_bound(value: ValueView)
    requires
        is_plain(value),
        value_fits(value),
    ensures
        0 <= word_of(value) < 0x1_0000_0000,
{
    match value {
        ValueView::I128(x) => {
            let lower = (x as int) % 0x1_0000_0000_0000_0000;
            let upper = ((x as int) - lower) / 0x1_0000_0000_0000_0000;
            assert(-0x8000_0000_0000_0000 <= upper < 0x8000_0000_0000_0000);
        },
        _ => {},
    }
}

/// The encoding of a value that has a variant of its own is the kind, the
/// word and the rest.
pub proof fn lemma_shape(value: ValueView)
    requires
        is_plain(value),
        value_fits(value),
    ensures
        value_xdr(value) == kind_word(kind_of(value)) + be32(word_of(value)) + rest_of(value),
        rest_of(value).len() == rest_len(value),
{
    match value {
        ValueView::Symbol(text) => {
            assert(ascii(text).len() == text.len());
        },
        _ => {},
    }
    assert(value_xdr(value) =~= kind_word(kind_of(value)) + be32(word_of(value)) + rest_of(
        value,
    ));
}

/// What the length of an encoding is, as its kind and its word tell.
pub proof fn lemma_frame_of_kind(value: ValueView, s: Seq<u8>)
    requires
        is_plain(value),
        value_fits(value),
        s.len() >= 8,
        s[3] == kind_of(value),
        word_at(s, 4) == word_of(value),
        s[7] == (word_of(value) % 0x100) as u8,
    ensures
        frame_len(s) == 8 + rest_len(value),
{
}

/// The encoding of a value that has a variant of its own has one of the
/// kinds that have a variant, and tells its own length, whatever follows it.
pub proof fn lemma_plain_encoding(value: ValueView, tail: Seq<u8>)
    requires
        is_plain(value),
        value_fits(value),
    ensures
        has_own_kind(value_xdr(value)),
        value_xdr(value).len() == 8 + rest_len(value),
        value_xdr(value)[3] == kind_of(value),
        word_at(value_xdr(value), 4) == word_of(value),
        frame_len(value_xdr(value) + tail) == value_xdr(value).len(),
{
    let k = kind_of(value);
    let w = word_of(value);
    let r = rest_of(value);
    lemma_word_bound(value);
    lemma_shape(value);
    lemma_header(k, w, r, Seq::empty());
    lemma_header(k, w, r, tail);
    assert(kind_word(k) + be32(w) + r + Seq::<u8>::empty() =~= value_xdr(value));
    let s = value_xdr(value) + tail;
    assert(kind_word(k) + be32(w) + r + tail =~= s);
    assert(s[7] == be32(w)[3]);
    lemma_frame_of_kind(value, s);
}


/// Different numbers are different in two's complement.
pub proof fn lemma_unsigned64_injective(x: int, y: int)
    requires
        -0x8000_0000_0000_0000 <= x < 0x8000_0000_0000_0000,
        -0x8000_0000_0000_0000 <= y < 0x8000_0000_0000_0000,
        unsigned64(x) == unsigned64(y),
    ensures
        x == y,
        0 <= unsigned64(x) < 0x1_0000_0000_0000_0000,
{
}

/// A 128-bit number is its upper and its lower 64 bits.
pub proof fn lemma_halves(x: int)
    requires
        -0x8000_0000_0000_0000_0000_0000_0000_0000 <= x < 0x8000_0000_0000_0000_0000_0000_0000_0000,
    ensures
        ({
            let lower = x % 0x1_0000_0000_0000_0000;
            let upper = (x - lower) / 0x1_0000_0000_0000_0000;
            &&& 0 <= lower < 0x1_0000_0000_0000_0000
            &&& -0x8000_0000_0000_0000 <= upper < 0x8000_0000_0000_0000
            &&& x == upper * 0x1_0000_0000_0000_0000 + lower
        }),
{
}

/// A number below 2^64 is its upper and its lower 32 bits.
pub proof fn lemma_words(x: int, y: int)
    requires
        0 <= x < 0x1_0000_0000_0000_0000,
        0 <= y < 0x1_0000_0000_0000_0000,
        x / 0x1_0000_0000 == y / 0x1_0000_0000,
        x % 0x1_0000_0000 == y % 0x1_0000_0000,
    ensures
        x == y,
        0 <= x / 0x1_0000_0000 < 0x1_0000_0000,
        0 <= x % 0x1_0000_0000 < 0x1_0000_0000,
{
}

/// Two numbers below 2^64 with one upper word and one written lower word
/// are one number.
pub proof fn lemma_lower_word(x: int, y: int)
    requires
        0 <= x < 0x1_0000_0000_0000_0000,
        0 <= y < 0x1_0000_0000_0000_0000,
        x / 0x1_0000_0000 == y / 0x1_0000_0000,
        be32(x % 0x1_0000_0000) == be32(y % 0x1_0000_0000),
    ensures
        x == y,
{
    lemma_be32_injective(x % 0x1_0000_0000, y % 0x1_0000_0000);
    lemma_words(x, y);
}

/// Different 128-bit numbers have different words or different rests.
pub proof fn lemma_i128_injective(x: i128, y: i128)
    requires
        word_of(ValueView::I128(x)) == word_of(ValueView::I128(y)),
        rest_of(ValueView::I128(x)) == rest_of(ValueView::I128(y)),
    ensures
        x == y,
{
    let lower_x = (x as int) % 0x1_0000_0000_0000_0000;
    let upper_x = ((x as int) - lower_x) / 0x1_0000_0000_0000_0000;
    let lower_y = (y as int) % 0x1_0000_0000_0000_0000;
    let upper_y = ((y as int) - lower_y) / 0x1_0000_0000_0000_0000;
    lemma_halves(x as int);
    lemma_halves(y as int);
    let ux = unsigned64(upper_x);
    let uy = unsigned64(upper_y);
    lemma_unsigned64_injective(upper_x, upper_x);
    lemma_unsigned64_injective(upper_y, upper_y);
    assert(be32(ux % 0x1_0000_0000).len() == 4);
    assert(be32(uy % 0x1_0000_0000).len() == 4);
    lemma_cancel(
        be32(ux % 0x1_0000_0000),
        be64(lower_x),
        be32(uy % 0x1_0000_0000),
        be64(lower_y),
    );
    lemma_lower_word(ux, uy);
    lemma_be64_injective(lower_x, lower_y);
    lemma_unsigned64_injective(upper_x, upper_y);
}

/// Different symbol texts have different bytes.
pub proof fn lemma_ascii_injective(a: Seq<char>, b: Seq<char>)
    requires
        is_symbol_text(a),
        is_symbol_text(b),
        ascii(a) == ascii(b),
    ensures
        a == b,
{
    assert(ascii(a).len() == a.len());
    assert(ascii(b).len() == b.len());
    assert forall|i: int| 0 <= i < a.len() implies a[i] == b[i] by {
        assert(ascii(a)[i] == a[i] as u8);
        assert(ascii(b)[i] == b[i] as u8);
        assert(is_symbol_char(a[i]));
        assert(is_symbol_char(b[i]));
    }
    assert(a =~= b);
}

/// Two byte strings of one length that are filled up alike are one.
pub proof fn lemma_bytes_injective(a: Seq<u8>, b: Seq<u8>)
    requires
        a.len() == b.len(),
        a + zeros(padding(a.len() as int)) == b + zeros(padding(b.len() as int)),
    ensures
        a == b,
{
    lemma_cancel(a, zeros(padding(a.len() as int)), b, zeros(padding(b.len() as int)));
}

/// Two symbol texts of one length whose bytes are filled up alike are one.
pub proof fn lemma_symbol_injective(a: Seq<char>, b: Seq<char>)
    requires
        is_symbol_text(a),
        is_symbol_text(b),
        a.len() == b.len(),
        ascii(a) + zeros(padding(a.len() as int)) == ascii(b) + zeros(padding(b.len() as int)),
    ensures
        a == b,
{
    assert(ascii(a).len() == a.len());
    assert(ascii(b).len() == b.len());
    lemma_cancel(
        ascii(a),
        zeros(padding(a.len() as int)),
        ascii(b),
        zeros(padding(b.len() as int)),
    );
    lemma_ascii_injective(a, b);
}

/// Two addresses of one kind with one rest are one.
pub proof fn lemma_address_injective(a: Address, b: Address)
    requires
        a.kind == b.kind,
        rest_of(ValueView::Address(a)) == rest_of(ValueView::Address(b)),
    ensures
        a == b,
{
    match a.kind {
        AddressKind::Account => {
            assert(be32(0).len() == 4);
            lemma_cancel(be32(0), a.key@, be32(0), b.key@);
        },
        AddressKind::Contract => {},
    }
    assert(a.key@ == b.key@);
    assert(a.key =~= b.key);
}

/// Two values of one kind with one word and one rest are one value.
pub proof fn lemma_same_parts(v: ValueView, w: ValueView)
    requires
        is_plain(v),
        is_plain(w),
        value_fits(v),
        value_fits(w),
        kind_of(v) == kind_of(w),
        word_of(v) == word_of(w),
        rest_of(v) == rest_of(w),
    ensures
        v == w,
{
    match (v, w) {
        (ValueView::U64(x), ValueView::U64(y)) => {
            lemma_lower_word(x as int, y as int);
        },
        (ValueView::I64(x), ValueView::I64(y)) => {
            lemma_unsigned64_injective(x as int, x as int);
            lemma_unsigned64_injective(y as int, y as int);
            lemma_lower_word(unsigned64(x as int), unsigned64(y as int));
            lemma_unsigned64_injective(x as int, y as int);
        },
        (ValueView::I128(x), ValueView::I128(y)) => {
            lemma_i128_injective(x, y);
        },
        (ValueView::Bytes(a), ValueView::Bytes(b)) => {
            lemma_bytes_injective(a, b);
        },
        (ValueView::Symbol(a), ValueView::Symbol(b)) => {
            lemma_symbol_injective(a, b);
        },
        (ValueView::Address(a), ValueView::Address(b)) => {
            lemma_address_injective(a, b);
        },
        _ => {},
    }
}

/// Different values have different encodings.
pub proof fn lemma_value_injective(v: ValueView, w: ValueView)
    requires
        value_fits(v),
        value_fits(w),
        value_xdr(v) == value_xdr(w),
    ensures
        v == w,
{
    if is_plain(v) {
        lemma_plain_encoding(v, Seq::empty());
    }
    if is_plain(w) {
        lemma_plain_encoding(w, Seq::empty());
    }
    if is_plain(v) && is_plain(w) {
        lemma_shape(v);
        lemma_shape(w);
        lemma_word_bound(v);
        lemma_be32_read(word_of(v));
        lemma_cancel(
            kind_word(kind_of(v)) + be32(word_of(v)),
            rest_of(v),
            kind_word(kind_of(w)) + be32(word_of(w)),
            rest_of(w),
        );
        lemma_same_parts(v, w);
    }
}


/// Byte strings joined are the first, and the others joined.
pub proof fn lemma_joined_first(items: Seq<Seq<u8>>)
    requires
        items.len() > 0,
    ensures
        joined(items) == items[0] + joined(items.skip(1)),
    decreases items.len(),
{
    if items.len() == 1 {
        assert(items.drop_last() =~= Seq::<Seq<u8>>::empty());
        assert(items.skip(1) =~= Seq::<Seq<u8>>::empty());
        assert(joined(items.drop_last()) =~= Seq::<u8>::empty());
        assert(joined(items.skip(1)) =~= Seq::<u8>::empty());
        assert(joined(items) =~= items[0] + joined(items.skip(1)));
    } else {
        lemma_joined_first(items.drop_last());
        assert(items.drop_last().skip(1) =~= items.skip(1).drop_last());
        assert(items.skip(1).last() == items.last());
        assert(items.drop_last()[0] == items[0]);
        assert(joined(items) =~= items[0] + joined(items.skip(1)));
    }
}

/// Whether every value of a list can be encoded.
pub open spec fn all_fit(values: Seq<ValueView>) -> bool {
    forall|i: int| 0 <= i < values.len() ==> value_fits(#[trigger] values[i])
}

/// Whether every value of a list has a variant of its own.
pub open spec fn all_plain(values: Seq<ValueView>) -> bool {
    forall|i: int| 0 <= i < values.len() ==> is_plain(#[trigger] values[i])
}

/// Two lists of as many values, each with a variant of its own, whose
/// encodings are joined and followed by more bytes: where the bytes are the
/// same, the lists are the same, and so is what follows.
pub proof fn lemma_items_end(
    d1: Seq<ValueView>,
    d2: Seq<ValueView>,
    t1: Seq<u8>,
    t2: Seq<u8>,
)
    requires
        d1.len() == d2.len(),
        all_fit(d1),
        all_fit(d2),
        all_plain(d1),
        all_plain(d2),
        joined(value_xdrs(d1)) + t1 == joined(value_xdrs(d2)) + t2,
    ensures
        d1 == d2,
        t1 == t2,
    decreases d1.len(),
{
    if d1.len() == 0 {
        assert(joined(value_xdrs(d1)) =~= Seq::<u8>::empty());
        assert(joined(value_xdrs(d2)) =~= Seq::<u8>::empty());
        assert(joined(value_xdrs(d1)) + t1 =~= t1);
        assert(joined(value_xdrs(d2)) + t2 =~= t2);
        assert(d1 =~= d2);
    } else {
        let x = value_xdr(d1[0]);
        let y = value_xdr(d2[0]);
        let r1 = d1.skip(1);
        let r2 = d2.skip(1);
        lemma_joined_first(value_xdrs(d1));
        lemma_joined_first(value_xdrs(d2));
        assert(value_xdrs(d1).skip(1) =~= value_xdrs(r1));
        assert(value_xdrs(d2).skip(1) =~= value_xdrs(r2));
        assert(value_xdrs(d1)[0] == x);
        assert(value_xdrs(d2)[0] == y);
        let u1 = joined(value_xdrs(r1)) + t1;
        let u2 = joined(value_xdrs(r2)) + t2;
        assert(x + u1 =~= joined(value_xdrs(d1)) + t1);
        assert(y + u2 =~= joined(value_xdrs(d2)) + t2);
        assert(value_fits(d1[0]) && is_plain(d1[0]));
        assert(value_fits(d2[0]) && is_plain(d2[0]));
        lemma_plain_encoding(d1[0], u1);
        lemma_plain_encoding(d2[0], u2);
        lemma_cancel(x, u1, y, u2);
        lemma_value_injective(d1[0], d2[0]);
        assert(all_fit(r1)) by {
            assert forall|i: int| 0 <= i < r1.len() implies value_fits(#[trigger] r1[i]) by {
                assert(r1[i] == d1[i + 1]);
            }
        }
        assert(all_fit(r2)) by {
            assert forall|i: int| 0 <= i < r2.len() implies value_fits(#[trigger] r2[i]) by {
                assert(r2[i] == d2[i + 1]);
            }
        }
        assert(all_plain(r1)) by {
            assert forall|i: int| 0 <= i < r1.len() implies is_plain(#[trigger] r1[i]) by {
                assert(r1[i] == d1[i + 1]);
            }
        }
        assert(all_plain(r2)) by {
            assert forall|i: int| 0 <= i < r2.len() implies is_plain(#[trigger] r2[i]) by {
                assert(r2[i] == d2[i + 1]);
            }
        }
        lemma_items_end(r1, r2, t1, t2);
        assert(d1 =~= d2) by {
            assert forall|i: int| 0 <= i < d1.len() implies d1[i] == d2[i] by {
                if i > 0 {
                    assert(r1[i - 1] == d1[i]);
                    assert(r2[i - 1] == d2[i]);
                }
            }
        }
    }
}

/// The encoding of a list of items is its head of twelve bytes, which holds
/// the number of items, and the items.
pub proof fn lemma_vec_shape(items: Seq<Seq<u8>>, tail: Seq<u8>)
    requires
        items.len() < 0x1_0000_0000,
    ensures
        ({
            let s = xdr_of_vec(items) + tail;
            &&& s == kind_word(16) + be32(1) + (be32(items.len() as int) + (joined(items) + tail))
            &&& (kind_word(16) + be32(1)).len() == 8
            &&& be32(items.len() as int).len() == 4
        }),
{
    let s = xdr_of_vec(items) + tail;
    assert(s =~= kind_word(16) + be32(1) + (be32(items.len() as int) + (joined(items) + tail)));
}

/// Two lists of values, each with a variant of its own, whose encodings are
/// followed by more bytes: where the bytes are the same, the lists are the
/// same, and so is what follows.
pub proof fn lemma_values_end(
    d1: Seq<ValueView>,
    d2: Seq<ValueView>,
    t1: Seq<u8>,
    t2: Seq<u8>,
)
    requires
        d1.len() < 0x1_0000_0000,
        d2.len() < 0x1_0000_0000,
        all_fit(d1),
        all_fit(d2),
        all_plain(d1),
        all_plain(d2),
        xdr_of_vec(value_xdrs(d1)) + t1 == xdr_of_vec(value_xdrs(d2)) + t2,
    ensures
        d1 == d2,
        t1 == t2,
{
    let x1 = value_xdrs(d1);
    let x2 = value_xdrs(d2);
    lemma_vec_shape(x1, t1);
    lemma_vec_shape(x2, t2);
    lemma_cancel(
        kind_word(16) + be32(1),
        be32(x1.len() as int) + (joined(x1) + t1),
        kind_word(16) + be32(1),
        be32(x2.len() as int) + (joined(x2) + t2),
    );
    lemma_cancel(
        be32(x1.len() as int),
        joined(x1) + t1,
        be32(x2.len() as int),
        joined(x2) + t2,
    );
    lemma_be32_injective(x1.len() as int, x2.len() as int);
    lemma_items_end(d1, d2, t1, t2);
}


/// An id is encoded in 40 bytes, and different ids differently.
pub proof fn lemma_id(a: [u8; 32], b: [u8; 32])
    ensures
        xdr_of_bytes(a@).len() == 40,
        xdr_of_bytes(a@) == xdr_of_bytes(b@) ==> a == b,
{
    lemma_plain_encoding(ValueView::Bytes(a@), Seq::empty());
    lemma_plain_encoding(ValueView::Bytes(b@), Seq::empty());
    if xdr_of_bytes(a@) == xdr_of_bytes(b@) {
        lemma_value_injective(ValueView::Bytes(a@), ValueView::Bytes(b@));
        assert(a@ == b@);
        assert(a =~= b);
    }
}

/// The end of the bytes of a call, the predecessor (if any) and the salt,
/// tells both.
pub proof fn lemma_tail(
    p1: Option<[u8; 32]>,
    s1: [u8; 32],
    p2: Option<[u8; 32]>,
    s2: [u8; 32],
)
    requires
        predecessor_xdr(p1) + xdr_of_bytes(s1@) == predecessor_xdr(p2) + xdr_of_bytes(s2@),
    ensures
        p1 == p2,
        s1 == s2,
{
    lemma_id(s1, s2);
    lemma_id(s2, s1);
    if p1.is_some() {
        lemma_id(p1.unwrap(), p1.unwrap());
    }
    if p2.is_some() {
        lemma_id(p2.unwrap(), p2.unwrap());
    }
    let a1 = predecessor_xdr(p1);
    let a2 = predecessor_xdr(p2);
    assert((a1 + xdr_of_bytes(s1@)).len() == a1.len() + 40);
    assert((a2 + xdr_of_bytes(s2@)).len() == a2.len() + 40);
    assert(a1.len() == a2.len());
    lemma_cancel(a1, xdr_of_bytes(s1@), a2, xdr_of_bytes(s2@));
    if p1.is_some() {
        lemma_id(p1.unwrap(), p2.unwrap());
    }
}

/// Two byte strings that are equal and end with the same bytes begin with
/// the same bytes.
pub proof fn lemma_cancel_end(a1: Seq<u8>, a2: Seq<u8>, b: Seq<u8>)
    requires
        a1 + b == a2 + b,
    ensures
        a1 == a2,
{
    assert((a1 + b).len() == a1.len() + b.len());
    assert((a2 + b).len() == a2.len() + b.len());
    lemma_cancel(a1, b, a2, b);
}

/// Five byte strings in a row are the first and the four others in a row.
pub proof fn lemma_row(a: Seq<u8>, b: Seq<u8>, c: Seq<u8>, d: Seq<u8>, e: Seq<u8>)
    ensures
        a + b + c + d + e == a + (b + (c + (d + e))),
{
    assert(a + b + c + d + e =~= a + (b + (c + (d + e))));
}

/// The bytes of a call are the encodings of its target, its function name
/// and its arguments, and its end.
pub proof fn lemma_call_parts(
    target: Address,
    fn_name: Seq<char>,
    data: Seq<ValueView>,
    salt: [u8; 32],
    predecessor: Option<[u8; 32]>,
)
    ensures
        call_data(target, fn_name, data, salt, predecessor) == value_xdr(
            ValueView::Address(target),
        ) + (value_xdr(ValueView::Symbol(fn_name)) + (xdr_of_vec(value_xdrs(data)) + (
            predecessor_xdr(predecessor) + xdr_of_bytes(salt@)))),
{
    lemma_row(
        xdr_of_address(target),
        xdr_of_symbol(fn_name),
        xdr_of_vec(value_xdrs(data)),
        predecessor_xdr(predecessor),
        xdr_of_bytes(salt@),
    );
}

/// Two values with a variant of their own whose encodings are followed by
/// more bytes: where the bytes are the same, the values are the same, and
/// so is what follows.
pub proof fn lemma_first_value(v: ValueView, w: ValueView, r1: Seq<u8>, r2: Seq<u8>)
    requires
        is_plain(v),
        is_plain(w),
        value_fits(v),
        value_fits(w),
        value_xdr(v) + r1 == value_xdr(w) + r2,
    ensures
        v == w,
        r1 == r2,
{
    lemma_plain_encoding(v, r1);
    lemma_plain_encoding(w, r2);
    lemma_cancel(value_xdr(v), r1, value_xdr(w), r2);
    lemma_value_injective(v, w);
}

/// Two calls that are made of the same bytes are the same call, where
/// their arguments have variants of their own: the bytes tell the target,
/// the function name, every argument, the predecessor and the salt. So two
/// such calls that differ in anything differ in their bytes, and have one
/// identity only if SHA-256 gives two byte strings one digest.
pub proof fn theorem_bytes_tell_the_call(
    target: Address,
    fn_name: Seq<char>,
    data: Seq<ValueView>,
    salt: [u8; 32],
    predecessor: Option<[u8; 32]>,
    other_target: Address,
    other_fn_name: Seq<char>,
    other_data: Seq<ValueView>,
    other_salt: [u8; 32],
    other_predecessor: Option<[u8; 32]>,
)
    requires
        is_symbol_text(fn_name),
        is_symbol_text(other_fn_name),
        data.len() < 0x1_0000_0000,
        other_data.len() < 0x1_0000_0000,
        all_fit(data),
        all_fit(other_data),
        all_plain(data),
        all_plain(other_data),
        call_data(target, fn_name, data, salt, predecessor) == call_data(
            other_target,
            other_fn_name,
            other_data,
            other_salt,
            other_predecessor,
        ),
    ensures
        target == other_target,
        fn_name == other_fn_name,
        data == other_data,
        salt == other_salt,
        predecessor == other_predecessor,
{
    let a1 = ValueView::Address(target);
    let a2 = ValueView::Address(other_target);
    let n1 = ValueView::Symbol(fn_name);
    let n2 = ValueView::Symbol(other_fn_name);
    let v1 = xdr_of_vec(value_xdrs(data));
    let v2 = xdr_of_vec(value_xdrs(other_data));
    let e1 = predecessor_xdr(predecessor) + xdr_of_bytes(salt@);
    let e2 = predecessor_xdr(other_predecessor) + xdr_of_bytes(other_salt@);
    lemma_call_parts(target, fn_name, data, salt, predecessor);
    lemma_call_parts(other_target, other_fn_name, other_data, other_salt, other_predecessor);
    lemma_first_value(a1, a2, value_xdr(n1) + (v1 + e1), value_xdr(n2) + (v2 + e2));
    lemma_first_value(n1, n2, v1 + e1, v2 + e2);
    lemma_values_end(data, other_data, e1, e2);
    lemma_tail(predecessor, salt, other_predecessor, other_salt);
}


/// Two rows of as many byte strings that are the same but in one place:
/// where the rows joined are the same, the strings in that place are too.
pub proof fn lemma_joined_one(xs: Seq<Seq<u8>>, ys: Seq<Seq<u8>>, place: int)
    requires
        xs.len() == ys.len(),
        0 <= place < xs.len(),
        forall|i: int| 0 <= i < xs.len() && i != place ==> xs[i] == ys[i],
        joined(xs) == joined(ys),
    ensures
        xs[place] == ys[place],
    decreases xs.len(),
{
    lemma_joined_first(xs);
    lemma_joined_first(ys);
    if place == 0 {
        assert(xs.skip(1) =~= ys.skip(1)) by {
            assert forall|i: int| 0 <= i < xs.skip(1).len() implies xs.skip(1)[i] == ys.skip(
                1,
            )[i] by {
                assert(xs.skip(1)[i] == xs[i + 1]);
                assert(ys.skip(1)[i] == ys[i + 1]);
            }
        }
        lemma_cancel_end(xs[0], ys[0], joined(xs.skip(1)));
    } else {
        assert(xs[0] == ys[0]);
        lemma_cancel(xs[0], joined(xs.skip(1)), ys[0], joined(ys.skip(1)));
        assert forall|i: int| 0 <= i < xs.skip(1).len() && i != place - 1 implies xs.skip(1)[i]
            == ys.skip(1)[i] by {
            assert(xs.skip(1)[i] == xs[i + 1]);
            assert(ys.skip(1)[i] == ys[i + 1]);
        }
        lemma_joined_one(xs.skip(1), ys.skip(1), place - 1);
        assert(xs.skip(1)[place - 1] == xs[place]);
        assert(ys.skip(1)[place - 1] == ys[place]);
    }
}

/// A list of values with another value in one place has other bytes.
pub proof fn lemma_one_value(data: Seq<ValueView>, place: int, value: ValueView)
    requires
        data.len() < 0x1_0000_0000,
        0 <= place < data.len(),
        value_fits(data[place]),
        value_fits(value),
        value != data[place],
    ensures
        xdr_of_vec(value_xdrs(data)) != xdr_of_vec(value_xdrs(data.update(place, value))),
{
    let other = data.update(place, value);
    let x1 = value_xdrs(data);
    let x2 = value_xdrs(other);
    if xdr_of_vec(x1) == xdr_of_vec(x2) {
        lemma_vec_shape(x1, Seq::empty());
        lemma_vec_shape(x2, Seq::empty());
        assert(xdr_of_vec(x1) + Seq::<u8>::empty() =~= xdr_of_vec(x1));
        assert(xdr_of_vec(x2) + Seq::<u8>::empty() =~= xdr_of_vec(x2));
        lemma_cancel(
            kind_word(16) + be32(1),
            be32(x1.len() as int) + (joined(x1) + Seq::<u8>::empty()),
            kind_word(16) + be32(1),
            be32(x2.len() as int) + (joined(x2) + Seq::<u8>::empty()),
        );
        lemma_cancel(
            be32(x1.len() as int),
            joined(x1) + Seq::<u8>::empty(),
            be32(x2.len() as int),
            joined(x2) + Seq::<u8>::empty(),
        );
        assert(joined(x1) + Seq::<u8>::empty() =~= joined(x1));
        assert(joined(x2) + Seq::<u8>::empty() =~= joined(x2));
        assert forall|i: int| 0 <= i < x1.len() && i != place implies x1[i] == x2[i] by {
            assert(other[i] == data[i]);
        }
        lemma_joined_one(x1, x2, place);
        assert(x1[place] == value_xdr(data[place]));
        assert(x2[place] == value_xdr(value));
        lemma_value_injective(data[place], value);
    }
}

/// A call with one thing changed has other bytes, whatever its arguments
/// are: another target, another function name, another value in one place
/// of the arguments, another salt, or another predecessor (one for none,
/// none for one, or one for another). So it has another identity, unless
/// SHA-256 gives two byte strings one digest.
pub proof fn theorem_one_change_changes_the_bytes(
    target: Address,
    fn_name: Seq<char>,
    data: Seq<ValueView>,
    salt: [u8; 32],
    predecessor: Option<[u8; 32]>,
    other_target: Address,
    other_fn_name: Seq<char>,
    place: int,
    other_value: ValueView,
    other_salt: [u8; 32],
    other_predecessor: Option<[u8; 32]>,
)
    requires
        is_symbol_text(fn_name),
        is_symbol_text(other_fn_name),
        data.len() < 0x1_0000_0000,
        all_fit(data),
    ensures
        other_target != target ==> call_data(other_target, fn_name, data, salt, predecessor)
            != call_data(target, fn_name, data, salt, predecessor),
        other_fn_name != fn_name ==> call_data(target, other_fn_name, data, salt, predecessor)
            != call_data(target, fn_name, data, salt, predecessor),
        0 <= place < data.len() && value_fits(other_value) && other_value != data[place]
            ==> call_data(target, fn_name, data.update(place, other_value), salt, predecessor)
            != call_data(target, fn_name, data, salt, predecessor),
        other_salt != salt ==> call_data(target, fn_name, data, other_salt, predecessor)
            != call_data(target, fn_name, data, salt, predecessor),
        other_predecessor != predecessor ==> call_data(
            target,
            fn_name,
            data,
            salt,
            other_predecessor,
        ) != call_data(target, fn_name, data, salt, predecessor),
{
    let a = value_xdr(ValueView::Address(target));
    let n = value_xdr(ValueView::Symbol(fn_name));
    let v = xdr_of_vec(value_xdrs(data));
    let e = predecessor_xdr(predecessor) + xdr_of_bytes(salt@);
    lemma_call_parts(target, fn_name, data, salt, predecessor);
    if other_target != target && call_data(other_target, fn_name, data, salt, predecessor)
        == call_data(target, fn_name, data, salt, predecessor) {
        lemma_call_parts(other_target, fn_name, data, salt, predecessor);
        lemma_cancel_end(value_xdr(ValueView::Address(other_target)), a, n + (v + e));
        lemma_value_injective(ValueView::Address(other_target), ValueView::Address(target));
    }
    if other_fn_name != fn_name && call_data(target, other_fn_name, data, salt, predecessor)
        == call_data(target, fn_name, data, salt, predecessor) {
        lemma_call_parts(target, other_fn_name, data, salt, predecessor);
        let m = value_xdr(ValueView::Symbol(other_fn_name));
        lemma_cancel(a, m + (v + e), a, n + (v + e));
        lemma_cancel_end(m, n, v + e);
        lemma_value_injective(ValueView::Symbol(other_fn_name), ValueView::Symbol(fn_name));
    }
    if 0 <= place < data.len() && value_fits(other_value) && other_value != data[place] {
        let changed = data.update(place, other_value);
        if call_data(target, fn_name, changed, salt, predecessor) == call_data(
            target,
            fn_name,
            data,
            salt,
            predecessor,
        ) {
            lemma_call_parts(target, fn_name, changed, salt, predecessor);
            let u = xdr_of_vec(value_xdrs(changed));
            lemma_cancel(a, n + (u + e), a, n + (v + e));
            lemma_cancel(n, u + e, n, v + e);
            lemma_cancel_end(u, v, e);
            lemma_one_value(data, place, other_value);
        }
    }
    if other_salt != salt && call_data(target, fn_name, data, other_salt, predecessor)
        == call_data(target, fn_name, data, salt, predecessor) {
        lemma_call_parts(target, fn_name, data, other_salt, predecessor);
        let f = predecessor_xdr(predecessor) + xdr_of_bytes(other_salt@);
        lemma_cancel(a, n + (v + f), a, n + (v + e));
        lemma_cancel(n, v + f, n, v + e);
        lemma_cancel(v, f, v, e);
        lemma_tail(predecessor, other_salt, predecessor, salt);
    }
    if other_predecessor != predecessor && call_data(
        target,
        fn_name,
        data,
        salt,
        other_predecessor,
    ) == call_data(target, fn_name, data, salt, predecessor) {
        lemma_call_parts(target, fn_name, data, salt, other_predecessor);
        let f = predecessor_xdr(other_predecessor) + xdr_of_bytes(salt@);
        lemma_cancel(a, n + (v + f), a, n + (v + e));
        lemma_cancel(n, v + f, n, v + e);
        lemma_cancel(v, f, v, e);
        lemma_tail(other_predecessor, salt, predecessor, salt);
    }
}


/// Whether every list of a list of lists can be encoded and is made of
/// values with a variant of their own.
pub open spec fn all_lists_plain(lists: Seq<Seq<ValueView>>) -> bool {
    forall|i: int|
        0 <= i < lists.len() ==> (#[trigger] lists[i]).len() < 0x1_0000_0000 && all_fit(lists[i])
            && all_plain(lists[i])
}

/// Whether every text of a list is a symbol's.
pub open spec fn all_symbol_texts(texts: Seq<Seq<char>>) -> bool {
    forall|i: int| 0 <= i < texts.len() ==> is_symbol_text(#[trigger] texts[i])
}

/// Two lists of as many lists of values, each value with a variant of its
/// own, whose encodings are joined and followed by more bytes: where the
/// bytes are the same, the lists are the same, and so is what follows.
pub proof fn lemma_lists_end(
    l1: Seq<Seq<ValueView>>,
    l2: Seq<Seq<ValueView>>,
    t1: Seq<u8>,
    t2: Seq<u8>,
)
    requires
        l1.len() == l2.len(),
        all_lists_plain(l1),
        all_lists_plain(l2),
        joined(values_xdrs(l1)) + t1 == joined(values_xdrs(l2)) + t2,
    ensures
        l1 == l2,
        t1 == t2,
    decreases l1.len(),
{
    if l1.len() == 0 {
        assert(joined(values_xdrs(l1)) =~= Seq::<u8>::empty());
        assert(joined(values_xdrs(l2)) =~= Seq::<u8>::empty());
        assert(joined(values_xdrs(l1)) + t1 =~= t1);
        assert(joined(values_xdrs(l2)) + t2 =~= t2);
        assert(l1 =~= l2);
    } else {
        let r1 = l1.skip(1);
        let r2 = l2.skip(1);
        lemma_joined_first(values_xdrs(l1));
        lemma_joined_first(values_xdrs(l2));
        assert(values_xdrs(l1).skip(1) =~= values_xdrs(r1));
        assert(values_xdrs(l2).skip(1) =~= values_xdrs(r2));
        let x = xdr_of_vec(value_xdrs(l1[0]));
        let y = xdr_of_vec(value_xdrs(l2[0]));
        assert(values_xdrs(l1)[0] == x);
        assert(values_xdrs(l2)[0] == y);
        let u1 = joined(values_xdrs(r1)) + t1;
        let u2 = joined(values_xdrs(r2)) + t2;
        assert(x + u1 =~= joined(values_xdrs(l1)) + t1);
        assert(y + u2 =~= joined(values_xdrs(l2)) + t2);
        assert(all_fit(l1[0]) && all_plain(l1[0]));
        assert(all_fit(l2[0]) && all_plain(l2[0]));
        lemma_values_end(l1[0], l2[0], u1, u2);
        assert(all_lists_plain(r1)) by {
            assert forall|i: int| 0 <= i < r1.len() implies (#[trigger] r1[i]).len()
                < 0x1_0000_0000 && all_fit(r1[i]) && all_plain(r1[i]) by {
                assert(r1[i] == l1[i + 1]);
            }
        }
        assert(all_lists_plain(r2)) by {
            assert forall|i: int| 0 <= i < r2.len() implies (#[trigger] r2[i]).len()
                < 0x1_0000_0000 && all_fit(r2[i]) && all_plain(r2[i]) by {
                assert(r2[i] == l2[i + 1]);
            }
        }
        lemma_lists_end(r1, r2, t1, t2);
        assert(l1 =~= l2) by {
            assert forall|i: int| 0 <= i < l1.len() implies l1[i] == l2[i] by {
                if i > 0 {
                    assert(r1[i - 1] == l1[i]);
                    assert(r2[i - 1] == l2[i]);
                }
            }
        }
    }
}

/// Two lists of lists of values, each value with a variant of its own,
/// whose encodings are followed by more bytes: where the bytes are the same,
/// the lists are the same, and so is what follows.
pub proof fn lemma_value_lists_end(
    l1: Seq<Seq<ValueView>>,
    l2: Seq<Seq<ValueView>>,
    t1: Seq<u8>,
    t2: Seq<u8>,
)
    requires
        l1.len() < 0x1_0000_0000,
        l2.len() < 0x1_0000_0000,
        all_lists_plain(l1),
        all_lists_plain(l2),
        xdr_of_vec(values_xdrs(l1)) + t1 == xdr_of_vec(values_xdrs(l2)) + t2,
    ensures
        l1 == l2,
        t1 == t2,
{
    let x1 = values_xdrs(l1);
    let x2 = values_xdrs(l2);
    lemma_vec_shape(x1, t1);
    lemma_vec_shape(x2, t2);
    lemma_cancel(
        kind_word(16) + be32(1),
        be32(x1.len() as int) + (joined(x1) + t1),
        kind_word(16) + be32(1),
        be32(x2.len() as int) + (joined(x2) + t2),
    );
    lemma_cancel(
        be32(x1.len() as int),
        joined(x1) + t1,
        be32(x2.len() as int),
        joined(x2) + t2,
    );
    lemma_be32_injective(x1.len() as int, x2.len() as int);
    lemma_lists_end(l1, l2, t1, t2);
}

/// Two lists of addresses whose encodings are followed by more bytes: where
/// the bytes are the same, the lists are the same, and so is what follows.
pub proof fn lemma_addresses_end(a1: Seq<Address>, a2: Seq<Address>, t1: Seq<u8>, t2: Seq<u8>)
    requires
        a1.len() < 0x1_0000_0000,
        a2.len() < 0x1_0000_0000,
        xdr_of_vec(address_xdrs(a1)) + t1 == xdr_of_vec(address_xdrs(a2)) + t2,
    ensures
        a1 == a2,
        t1 == t2,
{
    let d1 = a1.map_values(|a: Address| ValueView::Address(a));
    let d2 = a2.map_values(|a: Address| ValueView::Address(a));
    assert(value_xdrs(d1) =~= address_xdrs(a1));
    assert(value_xdrs(d2) =~= address_xdrs(a2));
    lemma_values_end(d1, d2, t1, t2);
    assert(a1 =~= a2) by {
        assert forall|i: int| 0 <= i < a1.len() implies a1[i] == a2[i] by {
            assert(d1[i] == ValueView::Address(a1[i]));
            assert(d2[i] == ValueView::Address(a2[i]));
        }
    }
}

/// Two lists of symbols whose encodings are followed by more bytes: where
/// the bytes are the same, the lists are the same, and so is what follows.
pub proof fn lemma_symbols_end(
    n1: Seq<Seq<char>>,
    n2: Seq<Seq<char>>,
    t1: Seq<u8>,
    t2: Seq<u8>,
)
    requires
        n1.len() < 0x1_0000_0000,
        n2.len() < 0x1_0000_0000,
        all_symbol_texts(n1),
        all_symbol_texts(n2),
        xdr_of_vec(symbol_xdrs(n1)) + t1 == xdr_of_vec(symbol_xdrs(n2)) + t2,
    ensures
        n1 == n2,
        t1 == t2,
{
    let d1 = n1.map_values(|text: Seq<char>| ValueView::Symbol(text));
    let d2 = n2.map_values(|text: Seq<char>| ValueView::Symbol(text));
    assert(value_xdrs(d1) =~= symbol_xdrs(n1));
    assert(value_xdrs(d2) =~= symbol_xdrs(n2));
    assert(all_fit(d1)) by {
        assert forall|i: int| 0 <= i < d1.len() implies value_fits(#[trigger] d1[i]) by {
            assert(is_symbol_text(n1[i]));
        }
    }
    assert(all_fit(d2)) by {
        assert forall|i: int| 0 <= i < d2.len() implies value_fits(#[trigger] d2[i]) by {
            assert(is_symbol_text(n2[i]));
        }
    }
    lemma_values_end(d1, d2, t1, t2);
    assert(n1 =~= n2) by {
        assert forall|i: int| 0 <= i < n1.len() implies n1[i] == n2[i] by {
            assert(d1[i] == ValueView::Symbol(n1[i]));
            assert(d2[i] == ValueView::Symbol(n2[i]));
        }
    }
}

/// Two batches that are made of the same bytes are the same batch, where
/// their arguments have variants of their own: the bytes tell every target,
/// every function name and every argument in its place, the predecessor
/// and the salt. So two such batches that differ in anything, be it the
/// order of two calls, differ in their bytes, and have one identity only if
/// SHA-256 gives two byte strings one digest.
pub proof fn theorem_bytes_tell_the_batch(
    targets: Seq<Address>,
    fn_names: Seq<Seq<char>>,
    datas: Seq<Seq<ValueView>>,
    salt: [u8; 32],
    predecessor: Option<[u8; 32]>,
    other_targets: Seq<Address>,
    other_fn_names: Seq<Seq<char>>,
    other_datas: Seq<Seq<ValueView>>,
    other_salt: [u8; 32],
    other_predecessor: Option<[u8; 32]>,
)
    requires
        targets.len() < 0x1_0000_0000,
        fn_names.len() < 0x1_0000_0000,
        datas.len() < 0x1_0000_0000,
        other_targets.len() < 0x1_0000_0000,
        other_fn_names.len() < 0x1_0000_0000,
        other_datas.len() < 0x1_0000_0000,
        all_symbol_texts(fn_names),
        all_symbol_texts(other_fn_names),
        all_lists_plain(datas),
        all_lists_plain(other_datas),
        batch_data(targets, fn_names, datas, salt, predecessor) == batch_data(
            other_targets,
            other_fn_names,
            other_datas,
            other_salt,
            other_predecessor,
        ),
    ensures
        targets == other_targets,
        fn_names == other_fn_names,
        datas == other_datas,
        salt == other_salt,
        predecessor == other_predecessor,
{
    let n1 = xdr_of_vec(symbol_xdrs(fn_names));
    let n2 = xdr_of_vec(symbol_xdrs(other_fn_names));
    let v1 = xdr_of_vec(values_xdrs(datas));
    let v2 = xdr_of_vec(values_xdrs(other_datas));
    let e1 = predecessor_xdr(predecessor) + xdr_of_bytes(salt@);
    let e2 = predecessor_xdr(other_predecessor) + xdr_of_bytes(other_salt@);
    lemma_row(
        xdr_of_vec(address_xdrs(targets)),
        n1,
        v1,
        predecessor_xdr(predecessor),
        xdr_of_bytes(salt@),
    );
    lemma_row(
        xdr_of_vec(address_xdrs(other_targets)),
        n2,
        v2,
        predecessor_xdr(other_predecessor),
        xdr_of_bytes(other_salt@),
    );
    lemma_addresses_end(targets, other_targets, n1 + (v1 + e1), n2 + (v2 + e2));
    lemma_symbols_end(fn_names, other_fn_names, v1 + e1, v2 + e2);
    lemma_value_lists_end(datas, other_datas, e1, e2);
    lemma_tail(predecessor, salt, other_predecessor, other_salt);
}

/// A batch with another salt or another predecessor has other bytes,
/// whatever its calls are.
pub proof fn theorem_batch_end_changes_the_bytes(
    targets: Seq<Address>,
    fn_names: Seq<Seq<char>>,
    datas: Seq<Seq<ValueView>>,
    salt: [u8; 32],
    predecessor: Option<[u8; 32]>,
    other_salt: [u8; 32],
    other_predecessor: Option<[u8; 32]>,
)
    requires
        other_salt != salt || other_predecessor != predecessor,
    ensures
        batch_data(targets, fn_names, datas, other_salt, other_predecessor) != batch_data(
            targets,
            fn_names,
            datas,
            salt,
            predecessor,
        ),
{
    let a = xdr_of_vec(address_xdrs(targets));
    let n = xdr_of_vec(symbol_xdrs(fn_names));
    let v = xdr_of_vec(values_xdrs(datas));
    let e = predecessor_xdr(predecessor) + xdr_of_bytes(salt@);
    let f = predecessor_xdr(other_predecessor) + xdr_of_bytes(other_salt@);
    lemma_row(a, n, v, predecessor_xdr(predecessor), xdr_of_bytes(salt@));
    lemma_row(a, n, v, predecessor_xdr(other_predecessor), xdr_of_bytes(other_salt@));
    if batch_data(targets, fn_names, datas, other_salt, other_predecessor) == batch_data(
        targets,
        fn_names,
        datas,
        salt,
        predecessor,
    ) {
        lemma_cancel(a, n + (v + f), a, n + (v + e));
        lemma_cancel(n, v + f, n, v + e);
        lemma_cancel(v, f, v, e);
        lemma_tail(other_predecessor, other_salt, predecessor, salt);
    }
}


/// A list with the items at two places exchanged.
pub open spec fn swapped<A>(list: Seq<A>, i: int, j: int) -> Seq<A> {
    list.update(i, list[j]).update(j, list[i])
}

/// A batch in which two calls that are not the same call have changed
/// places has other bytes, where the arguments have variants of their own.
pub proof fn theorem_order_changes_the_bytes(
    targets: Seq<Address>,
    fn_names: Seq<Seq<char>>,
    datas: Seq<Seq<ValueView>>,
    salt: [u8; 32],
    predecessor: Option<[u8; 32]>,
    i: int,
    j: int,
)
    requires
        targets.len() < 0x1_0000_0000,
        fn_names.len() == targets.len(),
        datas.len() == targets.len(),
        all_symbol_texts(fn_names),
        all_lists_plain(datas),
        0 <= i < targets.len(),
        0 <= j < targets.len(),
        targets[i] != targets[j] || fn_names[i] != fn_names[j] || datas[i] != datas[j],
    ensures
        batch_data(
            swapped(targets, i, j),
            swapped(fn_names, i, j),
            swapped(datas, i, j),
            salt,
            predecessor,
        ) != batch_data(targets, fn_names, datas, salt, predecessor),
{
    let t = swapped(targets, i, j);
    let n = swapped(fn_names, i, j);
    let d = swapped(datas, i, j);
    if batch_data(t, n, d, salt, predecessor) == batch_data(
        targets,
        fn_names,
        datas,
        salt,
        predecessor,
    ) {
        assert(all_symbol_texts(n)) by {
            assert forall|k: int| 0 <= k < n.len() implies is_symbol_text(#[trigger] n[k]) by {
                if k == j {
                    assert(n[k] == fn_names[i]);
                } else if k == i {
                    assert(n[k] == fn_names[j]);
                } else {
                    assert(n[k] == fn_names[k]);
                }
            }
        }
        assert(all_lists_plain(d)) by {
            assert forall|k: int| 0 <= k < d.len() implies (#[trigger] d[k]).len()
                < 0x1_0000_0000 && all_fit(d[k]) && all_plain(d[k]) by {
                if k == j {
                    assert(d[k] == datas[i]);
                } else if k == i {
                    assert(d[k] == datas[j]);
                } else {
                    assert(d[k] == datas[k]);
                }
            }
        }
        theorem_bytes_tell_the_batch(
            t,
            n,
            d,
            salt,
            predecessor,
            targets,
            fn_names,
            datas,
            salt,
            predecessor,
        );
        assert(t[j] == targets[i]);
        assert(n[j] == fn_names[i]);
        assert(d[j] == datas[i]);
    }
}

/// Byte strings joined are as long as all of them together.
pub proof fn lemma_joined_len(items: Seq<Seq<u8>>)
    ensures
        joined(items).len() == total_len(items),
    decreases items.len(),
{
    if items.len() > 0 {
        lemma_joined_len(items.drop_last());
    }
}

/// How long the bytes of a call are: 40 for a contract as the target and 44
/// for an account, 8 and the name filled up to a multiple of four, 12 and
/// the encodings of the arguments, 40 for a predecessor, and 40 for the
/// salt.
pub proof fn theorem_call_size(
    target: Address,
    fn_name: Seq<char>,
    data: Seq<ValueView>,
    salt: [u8; 32],
    predecessor: Option<[u8; 32]>,
)
    requires
        is_symbol_text(fn_name),
    ensures
        call_data(target, fn_name, data, salt, predecessor).len() == (match target.kind {
            AddressKind::Account => 44int,
            AddressKind::Contract => 40int,
        }) + 8 + fn_name.len() + padding(fn_name.len() as int) + 12 + total_len(value_xdrs(data))
            + (if predecessor.is_some() {
            40int
        } else {
            0int
        }) + 40,
{
    lemma_call_parts(target, fn_name, data, salt, predecessor);
    lemma_plain_encoding(ValueView::Address(target), Seq::empty());
    lemma_plain_encoding(ValueView::Symbol(fn_name), Seq::empty());
    lemma_joined_len(value_xdrs(data));
    lemma_id(salt, salt);
    if predecessor.is_some() {
        lemma_id(predecessor.unwrap(), predecessor.unwrap());
    }
    assert(xdr_of_vec(value_xdrs(data)).len() == 12 + joined(value_xdrs(data)).len());
}

/// How long the encoding of a value is that has a variant of its own: 8
/// bytes for a boolean and a 32-bit number, 12 for a 64-bit number, 20 for
/// a 128-bit number, 8 and the content filled up to a multiple of four for a
/// byte string and a symbol, 40 for a contract's address and 44 for an
/// account's.
pub proof fn theorem_value_size(value: ValueView)
    requires
        is_plain(value),
        value_fits(value),
    ensures
        value_xdr(value).len() == 8 + rest_len(value),
{
    lemma_plain_encoding(value, Seq::empty());
}


/// Whether SHA-256 gives the two byte strings, which are not the same, one
/// digest.
pub open spec fn collide(x: Seq<u8>, y: Seq<u8>) -> bool {
    x != y && sha256_of(x) == sha256_of(y)
}

/// Two calls that differ in anything have different identities, unless
/// SHA-256 gives their bytes, which differ, one digest; this for calls
/// whose arguments have variants of their own.
pub proof fn theorem_calls_have_their_own_identity(
    target: Address,
    fn_name: Seq<char>,
    data: Seq<ValueView>,
    salt: [u8; 32],
    predecessor: Option<[u8; 32]>,
    other_target: Address,
    other_fn_name: Seq<char>,
    other_data: Seq<ValueView>,
    other_salt: [u8; 32],
    other_predecessor: Option<[u8; 32]>,
)
    requires
        is_symbol_text(fn_name),
        is_symbol_text(other_fn_name),
        data.len() < 0x1_0000_0000,
        other_data.len() < 0x1_0000_0000,
        all_fit(data),
        all_fit(other_data),
        all_plain(data),
        all_plain(other_data),
        target != other_target || fn_name != other_fn_name || data != other_data || salt
            != other_salt || predecessor != other_predecessor,
    ensures
        call_id(target, fn_name, data, salt, predecessor) != call_id(
            other_target,
            other_fn_name,
            other_data,
            other_salt,
            other_predecessor,
        ) || collide(
            call_data(target, fn_name, data, salt, predecessor),
            call_data(other_target, other_fn_name, other_data, other_salt, other_predecessor),
        ),
{
    if call_data(target, fn_name, data, salt, predecessor) == call_data(
        other_target,
        other_fn_name,
        other_data,
        other_salt,
        other_predecessor,
    ) {
        theorem_bytes_tell_the_call(
            target,
            fn_name,
            data,
            salt,
            predecessor,
            other_target,
            other_fn_name,
            other_data,
            other_salt,
            other_predecessor,
        );
    }
}

/// Two batches that differ in anything, be it the order of their calls,
/// have different identities, unless SHA-256 gives their bytes, which
/// differ, one digest; this for batches whose arguments have variants of
/// their own.
pub proof fn theorem_batches_have_their_own_identity(
    targets: Seq<Address>,
    fn_names: Seq<Seq<char>>,
    datas: Seq<Seq<ValueView>>,
    salt: [u8; 32],
    predecessor: Option<[u8; 32]>,
    other_targets: Seq<Address>,
    other_fn_names: Seq<Seq<char>>,
    other_datas: Seq<Seq<ValueView>>,
    other_salt: [u8; 32],
    other_predecessor: Option<[u8; 32]>,
)
    requires
        targets.len() < 0x1_0000_0000,
        fn_names.len() < 0x1_0000_0000,
        datas.len() < 0x1_0000_0000,
        other_targets.len() < 0x1_0000_0000,
        other_fn_names.len() < 0x1_0000_0000,
        other_datas.len() < 0x1_0000_0000,
        all_symbol_texts(fn_names),
        all_symbol_texts(other_fn_names),
        all_lists_plain(datas),
        all_lists_plain(other_datas),
        targets != other_targets || fn_names != other_fn_names || datas != other_datas || salt
            != other_salt || predecessor != other_predecessor,
    ensures
        batch_id(targets, fn_names, datas, salt, predecessor) != batch_id(
            other_targets,
            other_fn_names,
            other_datas,
            other_salt,
            other_predecessor,
        ) || collide(
            batch_data(targets, fn_names, datas, salt, predecessor),
            batch_data(other_targets, other_fn_names, other_datas, other_salt, other_predecessor),
        ),
{
    if batch_data(targets, fn_names, datas, salt, predecessor) == batch_data(
        other_targets,
        other_fn_names,
        other_datas,
        other_salt,
        other_predecessor,
    ) {
        theorem_bytes_tell_the_batch(
            targets,
            fn_names,
            datas,
            salt,
            predecessor,
            other_targets,
            other_fn_names,
            other_datas,
            other_salt,
            other_predecessor,
        );
    }
}

} // verus!
