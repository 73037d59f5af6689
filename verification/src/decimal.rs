//! Decimal text of integers, with zeros in front up to a width.
//!
//! The spec functions say what the text of a number is; the executable
//! functions append that text to a `String`.

use vstd::prelude::*;
use vstd::string::*;

verus! {

/// The character that stands for the decimal digit `d`.
pub open spec fn digit_char(d: int) -> char
    recommends
        0 <= d <= 9,
{
    if d == 0 {
        '0'
    } else if d == 1 {
        '1'
    } else if d == 2 {
        '2'
    } else if d == 3 {
        '3'
    } else if d == 4 {
        '4'
    } else if d == 5 {
        '5'
    } else if d == 6 {
        '6'
    } else if d == 7 {
        '7'
    } else if d == 8 {
        '8'
    } else {
        '9'
    }
}

/// The decimal digits of `n`, most significant first: no leading zero, and
/// the single digit `0` for zero.
pub open spec fn decimal(n: nat) -> Seq<char>
    decreases n,
{
    if n < 10 {
        seq![digit_char(n as int)]
    } else {
        decimal(n / 10).push(digit_char((n % 10) as int))
    }
}

/// `count` times the character `0`.
pub open spec fn zeros(count: nat) -> Seq<char> {
    Seq::new(count, |i: int| '0')
}

/// The digits of `n` with zeros in front of them, as many as it takes to
/// reach `width` characters; a number with more digits than `width` keeps
/// them all.
pub open spec fn zero_padded(n: nat, width: nat) -> Seq<char> {
    let digits = decimal(n);
    if digits.len() >= width {
        digits
    } else {
        zeros((width - digits.len()) as nat) + digits
    }
}

/// One less than `width`, and zero for zero.
pub open spec fn width_less_one(width: nat) -> nat {
    if width > 0 {
        (width - 1) as nat
    } else {
        0
    }
}

/// The text of a signed number at a width that counts the sign: a negative
/// number is a minus sign and then its magnitude, padded to one less.
pub open spec fn signed_zero_padded(v: int, width: nat) -> Seq<char> {
    if v < 0 {
        seq!['-'] + zero_padded((-v) as nat, width_less_one(width))
    } else {
        zero_padded(v as nat, width)
    }
}

/// Every number has at least one digit.
pub proof fn lemma_decimal_nonempty(n: nat)
    ensures
        decimal(n).len() >= 1,
    decreases n,
{
    if n >= 10 {
        lemma_decimal_nonempty(n / 10);
    }
}

/// A number below ten thousand has as many digits as its size asks for:
/// one below ten, two below a hundred, three below a thousand, else four.
pub proof fn lemma_decimal_len_small(n: nat)
    requires
        n < 10_000,
    ensures
        decimal(n).len() == (if n < 10 {
            1nat
        } else if n < 100 {
            2nat
        } else if n < 1_000 {
            3nat
        } else {
            4nat
        }),
{
    reveal_with_fuel(decimal, 4);
}

/// The padded text is as long as the width, or as the digits where they
/// are more.
pub proof fn lemma_zero_padded_len(n: nat, width: nat)
    ensures
        zero_padded(n, width).len() == (if decimal(n).len() >= width {
            decimal(n).len()
        } else {
            width
        }),
{
}

/// The padded text of a number of two or more digits is the padded text of
/// the number without its last digit, at one less, and then that digit.
pub proof fn lemma_zero_padded_step(n: nat, width: nat)
    requires
        n >= 10,
    ensures
        zero_padded(n, width) == zero_padded(n / 10, width_less_one(width)).push(
            digit_char((n % 10) as int),
        ),
{
    let front = decimal(n / 10);
    let last = digit_char((n % 10) as int);
    lemma_decimal_nonempty(n / 10);
    assert(decimal(n) == front.push(last));
    if front.len() + 1 < width {
        let pad = zeros((width - front.len() - 1) as nat);
        assert(pad + front.push(last) =~= (pad + front).push(last));
    }
}

/// The padded text of a one-digit number is zeros up to one less than the
/// width, and then the digit.
pub proof fn lemma_zero_padded_digit(n: nat, width: nat)
    requires
        n < 10,
    ensures
        zero_padded(n, width) == zeros(width_less_one(width)).push(digit_char(n as int)),
{
    let last = digit_char(n as int);
    assert(decimal(n) == seq![last]);
    assert(zeros(width_less_one(width)) + seq![last] =~= zeros(width_less_one(width)).push(last));
    if width <= 1 {
        assert(zeros(0) + seq![last] =~= seq![last]);
    }
}

/// The one-character text of a decimal digit.
fn digit_str(d: u64) -> (text: &'static str)
    requires
        d < 10,
    ensures
        text@ == seq![digit_char(d as int)],
{
    proof {
        reveal_strlit("0");
        reveal_strlit("1");
        reveal_strlit("2");
        reveal_strlit("3");
        reveal_strlit("4");
        reveal_strlit("5");
        reveal_strlit("6");
        reveal_strlit("7");
        reveal_strlit("8");
        reveal_strlit("9");
    }
    let text = if d == 0 {
        "0"
    } else if d == 1 {
        "1"
    } else if d == 2 {
        "2"
    } else if d == 3 {
        "3"
    } else if d == 4 {
        "4"
    } else if d == 5 {
        "5"
    } else if d == 6 {
        "6"
    } else if d == 7 {
        "7"
    } else if d == 8 {
        "8"
    } else {
        "9"
    };
    assert(text@ =~= seq![digit_char(d as int)]);
    text
}

/// Appends `count` zeros to `out`.
pub fn push_zeros(out: &mut String, count: usize)
    ensures
        final(out)@ == old(out)@ + zeros(count as nat),
{
    let ghost before = out@;
    let mut done: usize = 0;
    assert(before + zeros(0) =~= before);
    while done < count
        invariant
            done <= count,
            out@ == before + zeros(done as nat),
        decreases count - done,
    {
        proof {
            reveal_strlit("0");
            assert((before + zeros(done as nat)) + "0"@ =~= before + zeros((done + 1) as nat));
        }
        out.append("0");
        done = done + 1;
    }
}

/// Appends the digits of `n` to `out`, with zeros in front up to `width`
/// characters.
pub fn push_zero_padded(out: &mut String, n: u64, width: usize)
    ensures
        final(out)@ == old(out)@ + zero_padded(n as nat, width as nat),
    decreases n,
{
    let ghost before = out@;
    let rest_width = if width > 0 {
        width - 1
    } else {
        0
    };
    if n < 10 {
        push_zeros(out, rest_width);
        proof {
            lemma_zero_padded_digit(n as nat, width as nat);
        }
    } else {
        push_zero_padded(out, n / 10, rest_width);
        proof {
            lemma_zero_padded_step(n as nat, width as nat);
        }
    }
    let ghost front = out@;
    out.append(digit_str(n % 10));
    assert(front + seq![digit_char((n % 10) as int)] =~= before + zero_padded(
        n as nat,
        width as nat,
    ));
}

/// Appends the text of the signed number `v` to `out`: a minus sign for a
/// negative number, then the magnitude, with zeros in front up to `width`
/// characters, the sign counted.
pub fn push_signed_zero_padded(out: &mut String, v: i64, width: usize)
    ensures
        final(out)@ == old(out)@ + signed_zero_padded(v as int, width as nat),
{
    let ghost before = out@;
    if v < 0 {
        let rest_width = if width > 0 {
            width - 1
        } else {
            0
        };
        let magnitude: u64 = if v == i64::MIN {
            0x8000_0000_0000_0000
        } else {
            (-v) as u64
        };
        proof {
            reveal_strlit("-");
            assert("-"@ =~= seq!['-']);
        }
        out.append("-");
        let ghost signed = out@;
        push_zero_padded(out, magnitude, rest_width);
        assert(signed + zero_padded(magnitude as nat, rest_width as nat) =~= before
            + signed_zero_padded(v as int, width as nat));
    } else {
        push_zero_padded(out, v as u64, width);
    }
}

} // verus!
