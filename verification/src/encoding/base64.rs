//! Base64 with the standard alphabet and without padding.
//!
//! Every byte string has exactly one text form and [`decode`] accepts no other
//! text: a symbol outside the alphabet, a length that no byte string gives, or
//! unused low bits that are not zero make the text invalid.

use vstd::prelude::*;

verus! {

/// The symbol that stands for the six-bit value `v`.
pub open spec fn symbol(v: int) -> u8
    recommends
        0 <= v < 64,
{
    if v < 26 {
        (65 + v) as u8
    } else if v < 52 {
        (71 + v) as u8
    } else if v < 62 {
        (v - 4) as u8
    } else if v == 62 {
        43
    } else {
        47
    }
}

/// The six-bit value of the symbol `c`, if `c` belongs to the alphabet.
pub open spec fn symbol_value(c: u8) -> Option<int> {
    if 65 <= c <= 90 {
        Some(c - 65)
    } else if 97 <= c <= 122 {
        Some(c - 71)
    } else if 48 <= c <= 57 {
        Some(c + 4)
    } else if c == 43 {
        Some(62)
    } else if c == 47 {
        Some(63)
    } else {
        None
    }
}

/// Whether `c` belongs to the alphabet.
pub open spec fn is_symbol(c: u8) -> bool {
    symbol_value(c) is Some
}

/// The text form of `bytes`: four symbols for every three bytes, and two or
/// three symbols for a last group of one or two bytes.
pub open spec fn encoded(bytes: Seq<u8>) -> Seq<u8>
    decreases bytes.len(),
{
    if bytes.len() == 0 {
        Seq::empty()
    } else if bytes.len() == 1 {
        seq![symbol(bytes[0] as int / 4), symbol(bytes[0] as int % 4 * 16)]
    } else if bytes.len() == 2 {
        seq![
            symbol(bytes[0] as int / 4),
            symbol(bytes[0] as int % 4 * 16 + bytes[1] as int / 16),
            symbol(bytes[1] as int % 16 * 4),
        ]
    } else {
        seq![
            symbol(bytes[0] as int / 4),
            symbol(bytes[0] as int % 4 * 16 + bytes[1] as int / 16),
            symbol(bytes[1] as int % 16 * 4 + bytes[2] as int / 64),
            symbol(bytes[2] as int % 64),
        ] + encoded(bytes.skip(3))
    }
}

/// The bytes that `text` stands for, or `None` where `text` is not the text
/// form of any byte string.
pub open spec fn decoded(text: Seq<u8>) -> Option<Seq<u8>>
    decreases text.len(),
{
    if text.len() == 0 {
        Some(Seq::empty())
    } else if text.len() == 1 {
        None
    } else if text.len() == 2 {
        match (symbol_value(text[0]), symbol_value(text[1])) {
            (Some(a), Some(b)) => if b % 16 == 0 {
                Some(seq![(a * 4 + b / 16) as u8])
            } else {
                None
            },
            _ => None,
        }
    } else if text.len() == 3 {
        match (symbol_value(text[0]), symbol_value(text[1]), symbol_value(text[2])) {
            (Some(a), Some(b), Some(c)) => if c % 4 == 0 {
                Some(seq![(a * 4 + b / 16) as u8, (b % 16 * 16 + c / 4) as u8])
            } else {
                None
            },
            _ => None,
        }
    } else {
        match (
            symbol_value(text[0]),
            symbol_value(text[1]),
            symbol_value(text[2]),
            symbol_value(text[3]),
            decoded(text.skip(4)),
        ) {
            (Some(a), Some(b), Some(c), Some(d), Some(rest)) => Some(
                seq![
                    (a * 4 + b / 16) as u8,
                    (b % 16 * 16 + c / 4) as u8,
                    (c % 4 * 64 + d) as u8,
                ] + rest,
            ),
            _ => None,
        }
    }
}

/// The number of symbols in the text form of `n` bytes.
pub open spec fn encoded_len(n: nat) -> nat {
    (4 * n + 2) / 3
}

/// Each six-bit value is read back from its symbol.
pub proof fn lemma_symbol_value(v: int)
    requires
        0 <= v < 64,
    ensures
        symbol_value(symbol(v)) == Some(v),
        symbol(v) != 36,
        symbol(v) != 44,
        symbol(v) != 61,
{
}

/// Each symbol of the alphabet is the symbol of its value.
pub proof fn lemma_value_symbol(c: u8)
    requires
        is_symbol(c),
    ensures
        0 <= symbol_value(c)->0 < 64,
        symbol(symbol_value(c)->0) == c,
{
}

/// A text form has `encoded_len` symbols, all of them from the alphabet.
pub proof fn lemma_encoded_shape(bytes: Seq<u8>)
    ensures
        encoded(bytes).len() == encoded_len(bytes.len()),
        forall|i: int| 0 <= i < encoded(bytes).len() ==> is_symbol(#[trigger] encoded(bytes)[i]),
    decreases bytes.len(),
{
    if bytes.len() == 1 {
        lemma_symbol_value(bytes[0] as int / 4);
        lemma_symbol_value(bytes[0] as int % 4 * 16);
    } else if bytes.len() == 2 {
        lemma_symbol_value(bytes[0] as int / 4);
        lemma_symbol_value(bytes[0] as int % 4 * 16 + bytes[1] as int / 16);
        lemma_symbol_value(bytes[1] as int % 16 * 4);
    } else if bytes.len() >= 3 {
        lemma_symbol_value(bytes[0] as int / 4);
        lemma_symbol_value(bytes[0] as int % 4 * 16 + bytes[1] as int / 16);
        lemma_symbol_value(bytes[1] as int % 16 * 4 + bytes[2] as int / 64);
        lemma_symbol_value(bytes[2] as int % 64);
        lemma_encoded_shape(bytes.skip(3));
    }
}

/// Decoding undoes encoding: the text form of `bytes` stands for `bytes`.
pub proof fn lemma_decoded_encoded(bytes: Seq<u8>)
    ensures
        decoded(encoded(bytes)) == Some(bytes),
    decreases bytes.len(),
{
    let text = encoded(bytes);
    if bytes.len() == 0 {
        assert(bytes =~= Seq::empty());
    } else if bytes.len() == 1 {
        lemma_symbol_value(bytes[0] as int / 4);
        lemma_symbol_value(bytes[0] as int % 4 * 16);
        assert(decoded(text)->0 =~= bytes);
    } else if bytes.len() == 2 {
        lemma_symbol_value(bytes[0] as int / 4);
        lemma_symbol_value(bytes[0] as int % 4 * 16 + bytes[1] as int / 16);
        lemma_symbol_value(bytes[1] as int % 16 * 4);
        assert(decoded(text)->0 =~= bytes);
    } else {
        lemma_symbol_value(bytes[0] as int / 4);
        lemma_symbol_value(bytes[0] as int % 4 * 16 + bytes[1] as int / 16);
        lemma_symbol_value(bytes[1] as int % 16 * 4 + bytes[2] as int / 64);
        lemma_symbol_value(bytes[2] as int % 64);
        lemma_decoded_encoded(bytes.skip(3));
        assert(text.skip(4) =~= encoded(bytes.skip(3)));
        assert(decoded(text)->0 =~= bytes);
    }
}

/// Encoding undoes decoding: a text that stands for `bytes` is their text form.
pub proof fn lemma_encoded_decoded(text: Seq<u8>)
    requires
        decoded(text) is Some,
    ensures
        encoded(decoded(text)->0) == text,
    decreases text.len(),
{
    let bytes = decoded(text)->0;
    if text.len() == 0 {
    } else if text.len() == 2 {
        lemma_value_symbol(text[0]);
        lemma_value_symbol(text[1]);
        assert(encoded(bytes) =~= text);
    } else if text.len() == 3 {
        lemma_value_symbol(text[0]);
        lemma_value_symbol(text[1]);
        lemma_value_symbol(text[2]);
        assert(encoded(bytes) =~= text);
    } else {
        lemma_value_symbol(text[0]);
        lemma_value_symbol(text[1]);
        lemma_value_symbol(text[2]);
        lemma_value_symbol(text[3]);
        lemma_encoded_decoded(text.skip(4));
        assert(bytes.skip(3) =~= decoded(text.skip(4))->0);
        assert(encoded(bytes) =~= text);
    }
}

/// The text form of a byte string whose first part is made of whole groups is
/// the text form of that part followed by the text form of the rest.
pub proof fn lemma_encoded_append(a: Seq<u8>, b: Seq<u8>)
    requires
        a.len() % 3 == 0,
    ensures
        encoded(a + b) == encoded(a) + encoded(b),
    decreases a.len(),
{
    if a.len() == 0 {
        assert(a + b =~= b);
        assert(encoded(a) + encoded(b) =~= encoded(b));
    } else {
        lemma_encoded_append(a.skip(3), b);
        assert((a + b).skip(3) =~= a.skip(3) + b);
        assert(encoded(a + b) =~= encoded(a) + encoded(b));
    }
}

/// What two texts stand for when the first is made of whole groups.
pub open spec fn joined(first: Option<Seq<u8>>, second: Option<Seq<u8>>) -> Option<Seq<u8>> {
    match (first, second) {
        (Some(x), Some(y)) => Some(x + y),
        _ => None,
    }
}

/// A text whose first part is made of whole groups stands for what that part
/// stands for followed by what the rest stands for, if both stand for anything.
pub proof fn lemma_decoded_append(a: Seq<u8>, b: Seq<u8>)
    requires
        a.len() % 4 == 0,
    ensures
        decoded(a + b) == joined(decoded(a), decoded(b)),
    decreases a.len(),
{
    if a.len() == 0 {
        assert(a + b =~= b);
        if decoded(b) is Some {
            assert(Seq::<u8>::empty() + decoded(b)->0 =~= decoded(b)->0);
        }
    } else {
        lemma_decoded_append(a.skip(4), b);
        assert((a + b).skip(4) =~= a.skip(4) + b);
        if decoded(a + b) is Some {
            assert(decoded(a + b)->0 =~= joined(decoded(a), decoded(b))->0);
        }
    }
}

/// The symbol of a six-bit value.
fn symbol_of(v: u8) -> (c: u8)
    requires
        v < 64,
    ensures
        c == symbol(v as int),
{
    if v < 26 {
        65 + v
    } else if v < 52 {
        71 + v
    } else if v < 62 {
        v - 4
    } else if v == 62 {
        43
    } else {
        47
    }
}

/// The six-bit value of a symbol, or `None` for a byte outside the alphabet.
fn value_of(c: u8) -> (v: Option<u8>)
    ensures
        match v {
            Some(x) => symbol_value(c) == Some(x as int) && x < 64,
            None => symbol_value(c) is None,
        },
{
    if 65 <= c && c <= 90 {
        Some(c - 65)
    } else if 97 <= c && c <= 122 {
        Some(c - 71)
    } else if 48 <= c && c <= 57 {
        Some(c + 4)
    } else if c == 43 {
        Some(62)
    } else if c == 47 {
        Some(63)
    } else {
        None
    }
}

/// Writes `bytes` in their text form.
pub fn encode(bytes: &[u8]) -> (text: Vec<u8>)
    ensures
        text@ == encoded(bytes@),
{
    let mut text: Vec<u8> = Vec::new();
    let mut i: usize = 0;
    proof {
        assert(bytes@.take(0) =~= Seq::empty());
    }
    while bytes.len() - i >= 3
        invariant
            i <= bytes.len(),
            i % 3 == 0,
            text@ == encoded(bytes@.take(i as int)),
        decreases bytes.len() - i,
    {
        let b0: u8 = bytes[i];
        let b1: u8 = bytes[i + 1];
        let b2: u8 = bytes[i + 2];
        let ghost before = text@;
        text.push(symbol_of(b0 / 4));
        text.push(symbol_of(b0 % 4 * 16 + b1 / 16));
        text.push(symbol_of(b1 % 16 * 4 + b2 / 64));
        text.push(symbol_of(b2 % 64));
        proof {
            let group = bytes@.subrange(i as int, i + 3);
            lemma_encoded_append(bytes@.take(i as int), group);
            assert(bytes@.take(i + 3) =~= bytes@.take(i as int) + group);
            assert(group.skip(3) =~= Seq::empty());
            reveal_with_fuel(encoded, 2);
            assert(encoded(group) =~= seq![
                symbol(b0 as int / 4),
                symbol(b0 as int % 4 * 16 + b1 as int / 16),
                symbol(b1 as int % 16 * 4 + b2 as int / 64),
                symbol(b2 as int % 64),
            ]);
            assert(text@ =~= before + encoded(group));
        }
        i = i + 3;
    }
    proof {
        let rest = bytes@.skip(i as int);
        lemma_encoded_append(bytes@.take(i as int), rest);
        assert(bytes@ =~= bytes@.take(i as int) + rest);
    }
    if bytes.len() - i == 1 {
        let b0: u8 = bytes[i];
        text.push(symbol_of(b0 / 4));
        text.push(symbol_of(b0 % 4 * 16));
    } else if bytes.len() - i == 2 {
        let b0: u8 = bytes[i];
        let b1: u8 = bytes[i + 1];
        text.push(symbol_of(b0 / 4));
        text.push(symbol_of(b0 % 4 * 16 + b1 / 16));
        text.push(symbol_of(b1 % 16 * 4));
    }
    text
}

/// Reads the bytes that `text` stands for; `None` where it stands for none.
pub fn decode(text: &[u8]) -> (bytes: Option<Vec<u8>>)
    ensures
        match bytes {
            Some(b) => decoded(text@) == Some(b@),
            None => decoded(text@) is None,
        },
{
    let mut bytes: Vec<u8> = Vec::new();
    let mut i: usize = 0;
    proof {
        assert(text@.take(0) =~= Seq::empty());
    }
    while text.len() - i >= 4
        invariant
            i <= text.len(),
            i % 4 == 0,
            decoded(text@.take(i as int)) == Some(bytes@),
        decreases text.len() - i,
    {
        proof {
            let group = text@.subrange(i as int, i + 4);
            lemma_decoded_append(text@.take(i as int), group);
            assert(text@.take(i + 4) =~= text@.take(i as int) + group);
            assert(group.skip(4) =~= Seq::empty());
            lemma_decoded_append(text@.take(i + 4), text@.skip(i + 4));
            assert(text@ =~= text@.take(i + 4) + text@.skip(i + 4));
        }
        let (a, b, c, d) = match (
            value_of(text[i]),
            value_of(text[i + 1]),
            value_of(text[i + 2]),
            value_of(text[i + 3]),
        ) {
            (Some(a), Some(b), Some(c), Some(d)) => (a, b, c, d),
            _ => { return None; },
        };
        let ghost before = bytes@;
        bytes.push(a * 4 + b / 16);
        bytes.push(b % 16 * 16 + c / 4);
        bytes.push(c % 4 * 64 + d);
        proof {
            let group = text@.subrange(i as int, i + 4);
            let triple = seq![
                (a as int * 4 + b as int / 16) as u8,
                (b as int % 16 * 16 + c as int / 4) as u8,
                (c as int % 4 * 64 + d as int) as u8,
            ];
            assert(decoded(group.skip(4)) == Some(Seq::<u8>::empty()));
            assert(decoded(group) == Some(triple + Seq::<u8>::empty()));
            assert(triple + Seq::<u8>::empty() =~= triple);
            assert(bytes@ =~= before + triple);
        }
        i = i + 4;
    }
    proof {
        let rest = text@.skip(i as int);
        lemma_decoded_append(text@.take(i as int), rest);
        assert(text@ =~= text@.take(i as int) + rest);
    }
    if text.len() - i == 1 {
        return None;
    } else if text.len() - i == 2 {
        let (a, b) = match (value_of(text[i]), value_of(text[i + 1])) {
            (Some(a), Some(b)) => (a, b),
            _ => { return None; },
        };
        if b % 16 != 0 {
            return None;
        }
        bytes.push(a * 4 + b / 16);
    } else if text.len() - i == 3 {
        let (a, b, c) = match (value_of(text[i]), value_of(text[i + 1]), value_of(text[i + 2])) {
            (Some(a), Some(b), Some(c)) => (a, b, c),
            _ => { return None; },
        };
        if c % 4 != 0 {
            return None;
        }
        bytes.push(a * 4 + b / 16);
        bytes.push(b % 16 * 16 + c / 4);
    } else {
        assert(bytes@ + Seq::<u8>::empty() =~= bytes@);
    }
    Some(bytes)
}

} // verus!
