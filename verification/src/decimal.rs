//! Decimal numerals, as the image format writes them.

use vstd::prelude::*;
use vstd::string::StringExecFns;

verus! {

/// The character of the digit `d`.
pub open spec fn digit(d: int) -> char {
    seq!['0', '1', '2', '3', '4', '5', '6', '7', '8', '9'][d]
}

/// The decimal numeral of `n`, without sign, padding or leading zeros.
pub open spec fn decimal(n: nat) -> Seq<char>
    decreases n,
{
    if n < 10 {
        seq![digit(n as int)]
    } else {
        decimal(n / 10).push(digit((n % 10) as int))
    }
}

/// The number that the digit characters `s` spell.
pub open spec fn numeral_value(s: Seq<char>) -> nat
    decreases s.len(),
{
    if s.len() == 0 {
        0
    } else {
        10 * numeral_value(s.drop_last()) + digit_value(s.last())
    }
}

/// The value of a digit character; 0 for any other character.
pub open spec fn digit_value(c: char) -> nat {
    if '0' <= c <= '9' {
        (c as u32 - '0' as u32) as nat
    } else {
        0
    }
}

/// A numeral spells the number it was made from, in digits only, and starts
/// with a zero only where it is the single digit of zero.
pub proof fn decimal_spells(n: nat)
    ensures
        numeral_value(decimal(n)) == n,
        decimal(n).len() >= 1,
        forall|i: int| 0 <= i < decimal(n).len() ==> '0' <= #[trigger] decimal(n)[i] <= '9',
        decimal(n)[0] == '0' <==> n == 0,
    decreases n,
{
    let last = (n % 10) as int;
    assert(digit_value(digit(last)) == last) by {
        assert(forall|d: int| 0 <= d < 10 ==> digit_value(#[trigger] digit(d)) == d);
    }
    if n < 10 {
        assert(decimal(n).drop_last() =~= Seq::<char>::empty());
        assert(numeral_value(decimal(n).drop_last()) == 0);
    } else {
        decimal_spells(n / 10);
        assert(decimal(n).drop_last() =~= decimal(n / 10));
    }
}

/// The one-character text of the digit `d`.
fn digit_str(d: usize) -> (text: &'static str)
    requires
        d < 10,
    ensures
        text@ == seq![digit(d as int)],
{
    proof {
        reveal_strlit("0");
        reveal_strlit("1");
        reveal_strlit("2");
        reveal_strlit("3");
        reveal_strlit("4");
        reveal_strlit("5");
        reveal_strlit("6");
        reveal_strlit("7");
        reveal_strlit("8");
        reveal_strlit("9");
    }
    let text = if d == 0 {
        "0"
    } else if d == 1 {
        "1"
    } else if d == 2 {
        "2"
    } else if d == 3 {
        "3"
    } else if d == 4 {
        "4"
    } else if d == 5 {
        "5"
    } else if d == 6 {
        "6"
    } else if d == 7 {
        "7"
    } else if d == 8 {
        "8"
    } else {
        "9"
    };
    assert(text@ =~= seq![digit(d as int)]);
    text
}

/// Appends the decimal numeral of `n` to `out`.
pub fn push_decimal(out: &mut String, n: usize)
    ensures
        final(out)@ == old(out)@ + decimal(n as nat),
    decreases n,
{
    if n < 10 {
        out.append(digit_str(n));
        assert(out@ =~= old(out)@ + decimal(n as nat));
    } else {
        push_decimal(out, n / 10);
        out.append(digit_str(n % 10));
        assert(out@ =~= old(out)@ + decimal(n as nat));
    }
}

} // verus!
