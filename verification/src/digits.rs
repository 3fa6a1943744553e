//! Natural numbers in decimal notation.

use vstd::prelude::*;
use vstd::string::StringExecFns;

verus! {

/// The character of the digit `d`, for `d` below ten.
pub open spec fn digit(d: nat) -> char {
    (('0' as u8) + d) as char
}

/// The digits of `n` in decimal notation, the most significant first, with
/// no leading zero but for zero itself.
pub open spec fn decimal(n: nat) -> Seq<char>
    decreases n,
{
    if n < 10 {
        seq![digit(n)]
    } else {
        decimal(n / 10).push(digit(n % 10))
    }
}

/// `width` zeros in a row.
pub open spec fn zeros(width: nat) -> Seq<char> {
    Seq::new(width, |i: int| '0')
}

/// The digits of `n`, with zeros in front of them where they are fewer than
/// `width`. A number with more digits than `width` keeps them all.
pub open spec fn padded(n: nat, width: nat) -> Seq<char> {
    if decimal(n).len() >= width {
        decimal(n)
    } else {
        zeros((width - decimal(n).len()) as nat) + decimal(n)
    }
}

/// A number has at least one digit, and a number of `u32` at most ten.
pub proof fn decimal_len(n: nat)
    ensures
        1 <= decimal(n).len(),
        n < 10 <==> decimal(n).len() == 1,
        n <= u32::MAX ==> decimal(n).len() <= 10,
    decreases n,
{
    if n >= 10 {
        decimal_len(n / 10);
        if n <= u32::MAX {
            reveal_with_fuel(decimal, 11);
        }
    }
}

/// Padding fills a number up to `width` characters and never cuts it: the
/// padded number has `width` characters or, where it has more digits than
/// that, its own. At a width of two, a number below ten gets one zero in
/// front and a number of two digits none.
pub proof fn padded_len(n: nat, width: nat)
    ensures
        padded(n, width).len() == if decimal(n).len() >= width {
            decimal(n).len()
        } else {
            width
        },
        n < 10 ==> padded(n, 2) == seq!['0', digit(n)],
        10 <= n < 100 ==> padded(n, 2) == seq![digit(n / 10), digit(n % 10)],
{
    decimal_len(n);
    reveal_with_fuel(decimal, 3);
    if n < 10 {
        assert(padded(n, 2) =~= seq!['0', digit(n)]);
    } else if n < 100 {
        assert(padded(n, 2) =~= seq![digit(n / 10), digit(n % 10)]);
    }
}

/// The text of one digit.
fn digit_text(d: u32) -> (text: &'static str)
    requires
        d < 10,
    ensures
        text@ == seq![digit(d as nat)],
{
    proof {
        reveal_strlit("0");
        reveal_strlit("1");
        reveal_strlit("2");
        reveal_strlit("3");
        reveal_strlit("4");
        reveal_strlit("5");
        reveal_strlit("6");
        reveal_strlit("7");
        reveal_strlit("8");
        reveal_strlit("9");
    }
    let text = if d == 0 {
        "0"
    } else if d == 1 {
        "1"
    } else if d == 2 {
        "2"
    } else if d == 3 {
        "3"
    } else if d == 4 {
        "4"
    } else if d == 5 {
        "5"
    } else if d == 6 {
        "6"
    } else if d == 7 {
        "7"
    } else if d == 8 {
        "8"
    } else {
        "9"
    };
    assert(text@ =~= seq![digit(d as nat)]);
    text
}

/// Appends the digits of `n` to `out`.
pub fn append_decimal(out: &mut String, n: u32)
    ensures
        final(out)@ == old(out)@ + decimal(n as nat),
    decreases n,
{
    if n >= 10 {
        append_decimal(out, n / 10);
    }
    out.append(digit_text(n % 10));
    assert(out@ =~= old(out)@ + decimal(n as nat));
}

/// The number of digits of `n`.
pub fn count_digits(n: u32) -> (count: usize)
    ensures
        count == decimal(n as nat).len(),
        1 <= count <= 10,
    decreases n,
{
    proof {
        decimal_len(n as nat);
    }
    if n >= 10 {
        count_digits(n / 10) + 1
    } else {
        1
    }
}

/// `n` in decimal notation, with zeros in front where it has fewer than
/// `width` digits.
pub fn to_padded(n: u32, width: usize) -> (text: String)
    ensures
        text@ == padded(n as nat, width as nat),
{
    let mut text = String::new();
    let digits = count_digits(n);
    let mut written: usize = digits;
    while written < width
        invariant
            digits == decimal(n as nat).len(),
            digits <= written,
            written <= width || written == digits,
            text@ == zeros((written - digits) as nat),
        decreases width - written,
    {
        proof {
            reveal_strlit("0");
        }
        text.append("0");
        written = written + 1;
        assert(text@ =~= zeros((written - digits) as nat));
    }
    append_decimal(&mut text, n);
    proof {
        if digits >= width {
            assert(text@ =~= decimal(n as nat));
        }
    }
    text
}

/// `n` in decimal notation.
pub fn to_decimal(n: u32) -> (text: String)
    ensures
        text@ == decimal(n as nat),
{
    let mut text = String::new();
    append_decimal(&mut text, n);
    assert(text@ =~= decimal(n as nat));
    text
}

} // verus!
