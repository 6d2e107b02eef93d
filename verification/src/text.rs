//! Small verified helpers for building and comparing text.

use vstd::prelude::*;
use vstd::utf8::{encode_utf8, encode_utf8_decode_utf8};

verus! {

/// The character that writes the decimal digit `d`.
pub open spec fn digit(d: nat) -> char {
    if d == 0 {
        '0'
    } else if d == 1 {
        '1'
    } else if d == 2 {
        '2'
    } else if d == 3 {
        '3'
    } else if d == 4 {
        '4'
    } else if d == 5 {
        '5'
    } else if d == 6 {
        '6'
    } else if d == 7 {
        '7'
    } else if d == 8 {
        '8'
    } else {
        '9'
    }
}

/// The decimal notation of `n`, most significant digit first, without
/// leading zeros (zero itself is written `0`).
pub open spec fn decimal(n: nat) -> Seq<char>
    decreases n,
{
    if n < 10 {
        seq![digit(n)]
    } else {
        decimal(n / 10).push(digit(n % 10))
    }
}

/// True exactly when the two strings hold the same characters.
pub fn str_eq(a: &str, b: &str) -> (same: bool)
    ensures
        same == (a@ == b@),
{
    let x = a.as_bytes();
    let y = b.as_bytes();
    proof {
        encode_utf8_decode_utf8(a@);
        encode_utf8_decode_utf8(b@);
    }
    if x.len() != y.len() {
        return false;
    }
    let mut i: usize = 0;
    while i < x.len()
        invariant
            i <= x.len(),
            x.len() == y.len(),
            x@ == encode_utf8(a@),
            y@ == encode_utf8(b@),
            forall|k: int| 0 <= k < i ==> x@[k] == y@[k],
        decreases x.len() - i,
    {
        if x[i] != y[i] {
            return false;
        }
        i += 1;
    }
    assert(x@ =~= y@);
    true
}

/// The one-character text of a decimal digit.
fn digit_str(d: u64) -> (s: &'static str)
    requires
        d < 10,
    ensures
        s@ == seq![digit(d as nat)],
{
    proof {
        reveal_strlit("0");
        reveal_strlit("1");
        reveal_strlit("2");
        reveal_strlit("3");
        reveal_strlit("4");
        reveal_strlit("5");
        reveal_strlit("6");
        reveal_strlit("7");
        reveal_strlit("8");
        reveal_strlit("9");
    }
    let s = if d == 0 {
        "0"
    } else if d == 1 {
        "1"
    } else if d == 2 {
        "2"
    } else if d == 3 {
        "3"
    } else if d == 4 {
        "4"
    } else if d == 5 {
        "5"
    } else if d == 6 {
        "6"
    } else if d == 7 {
        "7"
    } else if d == 8 {
        "8"
    } else {
        "9"
    };
    assert(s@ =~= seq![digit(d as nat)]);
    s
}

/// Appends the decimal notation of `n` to `out`.
pub fn push_decimal(out: &mut String, n: u64)
    ensures
        final(out)@ == old(out)@ + decimal(n as nat),
    decreases n,
{
    if n >= 10 {
        push_decimal(out, n / 10);
    }
    out.append(digit_str(n % 10));
    assert(out@ =~= old(out)@ + decimal(n as nat));
}

/// The decimal notation of `n` as an owned string.
pub fn decimal_string(n: u64) -> (s: String)
    ensures
        s@ == decimal(n as nat),
{
    let mut s = String::new();
    push_decimal(&mut s, n);
    s
}

/// True for the ten characters that write decimal digits.
pub open spec fn is_digit(c: char) -> bool {
    '0' <= c <= '9'
}

/// The number that a digit character writes.
pub open spec fn digit_value(c: char) -> nat {
    (c as u32 - '0' as u32) as nat
}

/// The number that a text of digits writes, read as decimal notation.
pub open spec fn value_of(text: Seq<char>) -> nat
    decreases text.len(),
{
    if text.len() == 0 {
        0
    } else {
        value_of(text.drop_last()) * 10 + digit_value(text.last())
    }
}

/// True for the texts that are the decimal notation of a number: digits
/// only, at least one, and no zero in front of other digits.
pub open spec fn is_decimal(text: Seq<char>) -> bool {
    &&& text.len() > 0
    &&& forall|i: int| 0 <= i < text.len() ==> is_digit(#[trigger] text[i])
    &&& text.len() > 1 ==> text[0] != '0'
}

/// The decimal notation of a number is a decimal text, and reading it gives
/// the number back.
pub proof fn lemma_decimal_reads_back(n: nat)
    ensures
        is_decimal(decimal(n)),
        value_of(decimal(n)) == n,
        decimal(n)[0] == '0' <==> n == 0,
    decreases n,
{
    if n < 10 {
        assert(decimal(n).drop_last() =~= Seq::empty());
        assert(value_of(decimal(n).drop_last()) == 0);
    } else {
        lemma_decimal_reads_back(n / 10);
        let shorter = decimal(n / 10);
        assert(decimal(n).drop_last() =~= shorter);
        assert(decimal(n).last() == digit(n % 10));
        assert(decimal(n)[0] == shorter[0]);
        assert forall|i: int| 0 <= i < decimal(n).len() implies is_digit(
            #[trigger] decimal(n)[i],
        ) by {
            if i < shorter.len() {
                assert(decimal(n)[i] == shorter[i]);
            }
        }
    }
}

/// A decimal text is the decimal notation of the number it writes.
pub proof fn lemma_decimal_writes_back(text: Seq<char>)
    requires
        is_decimal(text),
    ensures
        decimal(value_of(text)) == text,
    decreases text.len(),
{
    let last = text.last();
    assert(is_digit(last));
    assert(digit(digit_value(last)) == last);
    if text.len() == 1 {
        assert(text.drop_last() =~= Seq::empty());
        assert(value_of(text.drop_last()) == 0);
        assert(decimal(value_of(text)) =~= text);
    } else {
        let shorter = text.drop_last();
        assert(is_digit(text[0]));
        assert(shorter[0] == text[0]);
        if shorter.len() > 1 {
            lemma_decimal_writes_back(shorter);
            lemma_decimal_reads_back(value_of(shorter));
        } else {
            assert(shorter.drop_last() =~= Seq::empty());
            assert(value_of(shorter.drop_last()) == 0);
            assert(value_of(shorter) == digit_value(shorter[0]));
            assert(decimal(value_of(shorter)) =~= shorter);
        }
        assert(value_of(shorter) >= 1);
        let v = value_of(text);
        assert(v == value_of(shorter) * 10 + digit_value(last));
        assert(v >= 10);
        assert(v / 10 == value_of(shorter));
        assert(v % 10 == digit_value(last));
        assert(decimal(v) =~= text);
    }
}

/// Two numbers with the same decimal notation are the same number.
pub proof fn lemma_decimal_is_injective(a: nat, b: nat)
    requires
        decimal(a) == decimal(b),
    ensures
        a == b,
{
    lemma_decimal_reads_back(a);
    lemma_decimal_reads_back(b);
}

/// Reading more digits never gives less.
pub proof fn lemma_value_grows_with_digits(text: Seq<char>, k: int)
    requires
        0 <= k <= text.len(),
    ensures
        value_of(text.take(k)) <= value_of(text),
    decreases text.len() - k,
{
    if k < text.len() {
        lemma_value_grows_with_digits(text, k + 1);
        assert(text.take(k + 1).drop_last() =~= text.take(k));
    } else {
        assert(text.take(k) =~= text);
    }
}

/// Reads `text` as the decimal notation of a number that fits 64 bits.
/// Gives nothing if it is not: for another character, no character, a zero
/// in front, or a number too large.
pub fn parse_decimal(text: &str) -> (number: Option<u64>)
    ensures
        match number {
            Some(n) => decimal(n as nat) == text@,
            None => forall|n: u64| decimal(n as nat) != text@,
        },
{
    let len = text.unicode_len();
    if len == 0 {
        return None;
    }
    if len > 1 && text.get_char(0) == '0' {
        assert forall|n: u64| decimal(n as nat) != text@ by {
            lemma_decimal_reads_back(n as nat);
        }
        return None;
    }
    let mut value: u64 = 0;
    let mut i: usize = 0;
    while i < len
        invariant
            i <= len == text@.len(),
            value == value_of(text@.take(i as int)),
            forall|k: int| 0 <= k < i ==> is_digit(#[trigger] text@[k]),
        decreases len - i,
    {
        let c = text.get_char(i);
        let code = c as u32;
        assert(text@.take(i + 1).drop_last() =~= text@.take(i as int));
        if code < 48 || code > 57 {
            assert forall|n: u64| decimal(n as nat) != text@ by {
                lemma_decimal_reads_back(n as nat);
            }
            return None;
        }
        let d = (code - 48) as u64;
        if value > (u64::MAX - d) / 10 {
            assert forall|n: u64| decimal(n as nat) != text@ by {
                lemma_decimal_reads_back(n as nat);
                lemma_value_grows_with_digits(text@, i + 1);
            }
            return None;
        }
        value = value * 10 + d;
        i += 1;
    }
    assert(text@.take(len as int) =~= text@);
    proof {
        lemma_decimal_writes_back(text@);
    }
    Some(value)
}

} // verus!
