//! Unsigned numbers in plain decimal: digits only, no sign, and no leading
//! zero but for the number zero itself, so that each number has one text form.

use vstd::prelude::*;

verus! {

/// Whether `c` is one of the characters `0` to `9`.
pub open spec fn is_digit(c: u8) -> bool {
    48 <= c <= 57
}

/// The text form of `n`.
pub open spec fn digits(n: nat) -> Seq<u8>
    decreases n,
{
    if n < 10 {
        seq![(48 + n) as u8]
    } else {
        digits(n / 10).push((48 + n % 10) as u8)
    }
}

/// The number that `text` is the text form of, or `None` where it is the text
/// form of no number.
pub open spec fn number(text: Seq<u8>) -> Option<nat>
    decreases text.len(),
{
    if text.len() == 0 || !is_digit(text.last()) {
        None
    } else if text.len() == 1 {
        Some((text.last() - 48) as nat)
    } else {
        match number(text.drop_last()) {
            Some(n) => if n > 0 {
                Some((n * 10 + (text.last() - 48)) as nat)
            } else {
                None
            },
            None => None,
        }
    }
}

/// The number that `text` is the text form of, where it fits in 32 bits.
pub open spec fn number_u32(text: Seq<u8>) -> Option<u32> {
    match number(text) {
        Some(n) => if n <= u32::MAX {
            Some(n as u32)
        } else {
            None
        },
        None => None,
    }
}

/// A text form is not empty and holds digits only.
pub proof fn lemma_digits_shape(n: nat)
    ensures
        digits(n).len() >= 1,
        forall|i: int| 0 <= i < digits(n).len() ==> is_digit(#[trigger] digits(n)[i]),
    decreases n,
{
    if n >= 10 {
        lemma_digits_shape(n / 10);
    }
}

/// Reading undoes writing: the text form of `n` is read as `n`.
pub proof fn lemma_number_digits(n: nat)
    ensures
        number(digits(n)) == Some(n),
    decreases n,
{
    if n >= 10 {
        lemma_number_digits(n / 10);
        lemma_digits_shape(n / 10);
        assert(digits(n).drop_last() =~= digits(n / 10));
    }
}

/// Writing undoes reading: a text that is read as `n` is the text form of `n`.
pub proof fn lemma_digits_number(text: Seq<u8>)
    requires
        number(text) is Some,
    ensures
        digits(number(text)->0) == text,
    decreases text.len(),
{
    if text.len() == 1 {
        assert(digits(number(text)->0) =~= text);
    } else {
        lemma_digits_number(text.drop_last());
        let n = number(text.drop_last())->0;
        let d = (text.last() - 48) as nat;
        assert((n * 10 + d) / 10 == n);
        assert((n * 10 + d) % 10 == d);
        assert(digits(n * 10 + d) =~= text);
    }
}

/// Every non-empty start of a text that is read as a number is read as a
/// number that is no greater.
pub proof fn lemma_number_prefix(text: Seq<u8>, i: int)
    requires
        number(text) is Some,
        1 <= i <= text.len(),
    ensures
        number(text.take(i)) is Some,
        number(text.take(i))->0 <= number(text)->0,
    decreases text.len(),
{
    if i == text.len() {
        assert(text.take(i) =~= text);
    } else {
        lemma_number_prefix(text.drop_last(), i);
        assert(text.drop_last().take(i) =~= text.take(i));
    }
}

/// Appends the text form of `n` to `out`.
pub fn write_u32(n: u32, out: &mut Vec<u8>)
    ensures
        final(out)@ == old(out)@ + digits(n as nat),
    decreases n,
{
    if n >= 10 {
        write_u32(n / 10, out);
    }
    let digit: u8 = (n % 10) as u8;
    out.push(48 + digit);
    proof {
        if n >= 10 {
            assert(final(out)@ =~= old(out)@ + digits(n as nat));
        } else {
            assert(final(out)@ =~= old(out)@ + digits(n as nat));
        }
    }
}

/// Reads the number that `text` is the text form of; `None` where it is the
/// text form of no number, or of one that does not fit in 32 bits.
pub fn parse_u32(text: &[u8]) -> (value: Option<u32>)
    ensures
        value == number_u32(text@),
{
    if text.len() == 0 {
        return None;
    }
    let mut acc: u32 = 0;
    let mut i: usize = 0;
    while i < text.len()
        invariant
            i <= text.len(),
            i == 0 ==> acc == 0,
            i > 0 ==> number(text@.take(i as int)) == Some(acc as nat),
        decreases text.len() - i,
    {
        let c: u8 = text[i];
        proof {
            assert(text@.take(i + 1).drop_last() =~= text@.take(i as int));
            assert(text@.take(i + 1).last() == c);
            if number(text@) is Some {
                lemma_number_prefix(text@, i + 1);
            }
        }
        if c < 48 || c > 57 {
            return None;
        }
        if i > 0 && acc == 0 {
            return None;
        }
        let digit: u32 = (c - 48) as u32;
        if acc > (u32::MAX - digit) / 10 {
            return None;
        }
        acc = acc * 10 + digit;
        i = i + 1;
    }
    proof {
        assert(text@.take(i as int) =~= text@);
    }
    Some(acc)
}

} // verus!
