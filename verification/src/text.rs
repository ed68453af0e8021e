//! Whole numbers as decimal text, both ways.

use vstd::prelude::*;

verus! {

/// The character that stands for the digit `d`.
pub open spec fn digit_char(d: int) -> char
    recommends
        0 <= d < 10,
{
    ('0' as int + d) as char
}

/// The digit that `c` stands for.
pub open spec fn digit_of(c: char) -> Option<int> {
    if '0' <= c <= '9' {
        Some(c as int - '0' as int)
    } else {
        None
    }
}

/// The decimal digits of `n`, without leading zeros.
pub open spec fn decimal_digits(n: nat) -> Seq<char>
    decreases n,
{
    if n < 10 {
        seq![digit_char(n as int)]
    } else {
        decimal_digits(n / 10).push(digit_char((n % 10) as int))
    }
}

/// The number that a run of decimal digits stands for; `None` where a character
/// is no digit.
pub open spec fn digits_value(text: Seq<char>) -> Option<nat>
    decreases text.len(),
{
    if text.len() == 0 {
        Some(0)
    } else {
        match (digits_value(text.drop_last()), digit_of(text.last())) {
            (Some(front), Some(d)) => Some((front * 10 + d) as nat),
            _ => None,
        }
    }
}

/// The `u64` that `text` is the decimal notation of: one digit at least,
/// nothing but digits, and a value that a `u64` holds.
pub open spec fn u64_of_text(text: Seq<char>) -> Option<u64> {
    match digits_value(text) {
        Some(value) => if text.len() > 0 && value <= u64::MAX {
            Some(value as u64)
        } else {
            None
        },
        None => None,
    }
}

/// A number is read back from its decimal digits.
pub proof fn lemma_digits_round_trip(n: nat)
    ensures
        decimal_digits(n).len() > 0,
        digits_value(decimal_digits(n)) == Some(n),
    decreases n,
{
    if n < 10 {
        assert(digits_value(decimal_digits(n).drop_last()) == Some(0nat));
    } else {
        lemma_digits_round_trip(n / 10);
        assert(decimal_digits(n).drop_last() =~= decimal_digits(n / 10));
    }
}

/// A `u64` is read back from its decimal digits.
pub proof fn lemma_u64_round_trip(n: u64)
    ensures
        u64_of_text(decimal_digits(n as nat)) == Some(n),
{
    lemma_digits_round_trip(n as nat);
}

/// A run of digits stands for at least as much as any run it starts with.
proof fn lemma_digits_value_grows(text: Seq<char>, len: int)
    requires
        0 <= len <= text.len(),
        digits_value(text) is Some,
    ensures
        digits_value(text.take(len)) is Some,
        digits_value(text.take(len)).unwrap() <= digits_value(text).unwrap(),
    decreases text.len(),
{
    if len == text.len() {
        assert(text.take(len) =~= text);
    } else {
        lemma_digits_value_grows(text.drop_last(), len);
        assert(text.drop_last().take(len) =~= text.take(len));
    }
}

/// The one-character text of the digit `d`.
fn digit_str(d: u64) -> (r: &'static str)
    requires
        d < 10,
    ensures
        r@ == seq![digit_char(d as int)],
{
    proof {
        reveal_strlit("0");
        reveal_strlit("1");
        reveal_strlit("2");
        reveal_strlit("3");
        reveal_strlit("4");
        reveal_strlit("5");
        reveal_strlit("6");
        reveal_strlit("7");
        reveal_strlit("8");
        reveal_strlit("9");
    }
    let r = if d == 0 {
        "0"
    } else if d == 1 {
        "1"
    } else if d == 2 {
        "2"
    } else if d == 3 {
        "3"
    } else if d == 4 {
        "4"
    } else if d == 5 {
        "5"
    } else if d == 6 {
        "6"
    } else if d == 7 {
        "7"
    } else if d == 8 {
        "8"
    } else {
        "9"
    };
    r
}

/// Appends the decimal digits of `n` to `out`.
pub fn push_decimal(out: &mut String, n: u64)
    ensures
        final(out)@ == old(out)@ + decimal_digits(n as nat),
    decreases n,
{
    if n >= 10 {
        push_decimal(out, n / 10);
    }
    out.append(digit_str(n % 10));
}

/// Reads a `u64` from its decimal notation.
pub fn parse_u64(text: &str) -> (r: Option<u64>)
    ensures
        r == u64_of_text(text@),
{
    let len = text.unicode_len();
    if len == 0 {
        return None;
    }
    let mut value: u64 = 0;
    let mut i: usize = 0;
    while i < len
        invariant
            i <= len,
            len == text@.len(),
            digits_value(text@.take(i as int)) == Some(value as nat),
        decreases len - i,
    {
        let c = text.get_char(i);
        proof {
            assert(text@.take(i + 1).drop_last() =~= text@.take(i as int));
            if digits_value(text@) is Some {
                lemma_digits_value_grows(text@, i + 1);
            }
        }
        if c < '0' || c > '9' {
            return None;
        }
        let d: u64 = (c as u32 - '0' as u32) as u64;
        if value > (u64::MAX - d) / 10 {
            return None;
        }
        value = value * 10 + d;
        i = i + 1;
    }
    assert(text@.take(len as int) =~= text@);
    Some(value)
}

} // verus!
