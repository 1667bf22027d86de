//! Decimal text of fixed-point quantities, as they appear in messages.
use vstd::prelude::*;
use vstd::string::*;

verus! {

/// The character of a decimal digit.
pub open spec fn digit_char(d: nat) -> char {
    if d == 0 {
        '0'
    } else if d == 1 {
        '1'
    } else if d == 2 {
        '2'
    } else if d == 3 {
        '3'
    } else if d == 4 {
        '4'
    } else if d == 5 {
        '5'
    } else if d == 6 {
        '6'
    } else if d == 7 {
        '7'
    } else if d == 8 {
        '8'
    } else {
        '9'
    }
}

/// The decimal digits of `n`, most significant first, without leading zeros
/// (`0` is the single digit `0`).
pub open spec fn decimal_digits(n: nat) -> Seq<char>
    decreases n,
{
    if n < 10 {
        seq![digit_char(n)]
    } else {
        decimal_digits(n / 10) + seq![digit_char(n % 10)]
    }
}

/// The digits after the decimal point of a fraction of `f` thousandths
/// (`0 < f < 1000`), with trailing zeros removed.
pub open spec fn fraction_digits(f: nat) -> Seq<char> {
    if f % 100 == 0 {
        seq![digit_char(f / 100)]
    } else if f % 10 == 0 {
        seq![digit_char(f / 100), digit_char((f / 10) % 10)]
    } else {
        seq![digit_char(f / 100), digit_char((f / 10) % 10), digit_char(f % 10)]
    }
}

/// The absolute value of an integer.
pub open spec fn abs(x: int) -> nat {
    if x < 0 {
        (-x) as nat
    } else {
        x as nat
    }
}

/// The text of `x` thousandths as a decimal number: a minus sign for
/// negative values, the whole part, and the nonzero fraction after a point
/// without trailing zeros (`1500` gives `1.5`, `-100` gives `-0.1`,
/// `50000` gives `50`).
pub open spec fn milli_text(x: int) -> Seq<char> {
    let sign = if x < 0 {
        seq!['-']
    } else {
        Seq::<char>::empty()
    };
    let whole = decimal_digits(abs(x) / 1000);
    let frac = abs(x) % 1000;
    if frac == 0 {
        sign + whole
    } else {
        sign + whole + seq!['.'] + fraction_digits(frac)
    }
}

/// The text of a whole number, with a minus sign when negative.
pub open spec fn signed_text(x: int) -> Seq<char> {
    if x < 0 {
        seq!['-'] + decimal_digits(abs(x))
    } else {
        decimal_digits(abs(x))
    }
}

/// The text of one decimal digit.
fn digit_str(d: u64) -> (s: &'static str)
    requires
        d < 10,
    ensures
        s@ == seq![digit_char(d as nat)],
{
    proof {
        reveal_strlit("0");
        reveal_strlit("1");
        reveal_strlit("2");
        reveal_strlit("3");
        reveal_strlit("4");
        reveal_strlit("5");
        reveal_strlit("6");
        reveal_strlit("7");
        reveal_strlit("8");
        reveal_strlit("9");
    }
    if d == 0 {
        "0"
    } else if d == 1 {
        "1"
    } else if d == 2 {
        "2"
    } else if d == 3 {
        "3"
    } else if d == 4 {
        "4"
    } else if d == 5 {
        "5"
    } else if d == 6 {
        "6"
    } else if d == 7 {
        "7"
    } else if d == 8 {
        "8"
    } else {
        "9"
    }
}

/// Appends the decimal digits of `n`.
fn push_digits(s: &mut String, n: u64)
    ensures
        final(s)@ == old(s)@ + decimal_digits(n as nat),
    decreases n,
{
    if n >= 10 {
        push_digits(s, n / 10);
    }
    s.append(digit_str(n % 10));
    proof {
        assert(old(s)@ + decimal_digits(n as nat) =~= if n >= 10 {
            old(s)@ + decimal_digits((n / 10) as nat) + seq![digit_char((n % 10) as nat)]
        } else {
            old(s)@ + seq![digit_char((n % 10) as nat)]
        });
    }
}

/// The decimal text of `x` thousandths.
pub fn milli_string(x: i64) -> (s: String)
    ensures
        s@ == milli_text(x as int),
{
    let mut s = String::new();
    let mag: u64 = if x < 0 {
        (-(x as i128)) as u64
    } else {
        x as u64
    };
    assert(mag as int == abs(x as int));
    if x < 0 {
        proof {
            reveal_strlit("-");
        }
        s.append("-");
    }
    push_digits(&mut s, mag / 1000);
    let frac = mag % 1000;
    if frac != 0 {
        proof {
            reveal_strlit(".");
        }
        s.append(".");
        s.append(digit_str(frac / 100));
        if frac % 100 != 0 {
            s.append(digit_str((frac / 10) % 10));
            if frac % 10 != 0 {
                s.append(digit_str(frac % 10));
            }
        }
    }
    proof {
        let sign = if x < 0 {
            seq!['-']
        } else {
            Seq::<char>::empty()
        };
        if frac == 0 {
            assert(s@ =~= sign + decimal_digits(abs(x as int) / 1000));
        } else {
            assert(s@ =~= sign + decimal_digits(abs(x as int) / 1000) + seq!['.'] + fraction_digits(
                frac as nat,
            ));
        }
    }
    s
}

/// The decimal text of a signed whole number.
pub fn signed_string(x: i64) -> (s: String)
    ensures
        s@ == signed_text(x as int),
{
    let mut s = String::new();
    let mag: u64 = if x < 0 {
        (-(x as i128)) as u64
    } else {
        x as u64
    };
    if x < 0 {
        proof {
            reveal_strlit("-");
        }
        s.append("-");
    }
    push_digits(&mut s, mag);
    assert(s@ =~= signed_text(x as int));
    s
}

/// The decimal text of a whole number.
pub fn int_string(n: u64) -> (s: String)
    ensures
        s@ == decimal_digits(n as nat),
{
    let mut s = String::new();
    push_digits(&mut s, n);
    assert(s@ =~= decimal_digits(n as nat));
    s
}

} // verus!
