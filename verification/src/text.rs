//! Decimal formatting of integers into strings, as `{}` and `{:0N}` print them.
use vstd::prelude::*;

verus! {

/// The ASCII digit for `d` (0..=9).
pub open spec fn digit_char(d: int) -> char {
    if d == 0 {
        '0'
    } else if d == 1 {
        '1'
    } else if d == 2 {
        '2'
    } else if d == 3 {
        '3'
    } else if d == 4 {
        '4'
    } else if d == 5 {
        '5'
    } else if d == 6 {
        '6'
    } else if d == 7 {
        '7'
    } else if d == 8 {
        '8'
    } else {
        '9'
    }
}

/// Decimal digits of `n`, most significant first, without leading zeros.
pub open spec fn decimal(n: nat) -> Seq<char>
    decreases n,
{
    if n < 10 {
        seq![digit_char(n as int)]
    } else {
        decimal(n / 10).push(digit_char((n % 10) as int))
    }
}

/// `n` in decimal, padded with leading zeros to at least `width` characters.
pub open spec fn zero_padded(n: nat, width: nat) -> Seq<char> {
    if decimal(n).len() < width {
        Seq::new((width - decimal(n).len()) as nat, |i: int| '0') + decimal(n)
    } else {
        decimal(n)
    }
}

/// `v` in decimal with a leading minus sign when negative.
pub open spec fn signed_decimal(v: int) -> Seq<char> {
    if v < 0 {
        seq!['-'] + decimal((-v) as nat)
    } else {
        decimal(v as nat)
    }
}

/// The one-character string of digit `d`.
pub fn digit_str(d: u32) -> (r: &'static str)
    requires
        d < 10,
    ensures
        r@ == seq![digit_char(d as int)],
{
    match d {
        0 => {
            proof {
                reveal_strlit("0");
            }
            "0"
        },
        1 => {
            proof {
                reveal_strlit("1");
            }
            "1"
        },
        2 => {
            proof {
                reveal_strlit("2");
            }
            "2"
        },
        3 => {
            proof {
                reveal_strlit("3");
            }
            "3"
        },
        4 => {
            proof {
                reveal_strlit("4");
            }
            "4"
        },
        5 => {
            proof {
                reveal_strlit("5");
            }
            "5"
        },
        6 => {
            proof {
                reveal_strlit("6");
            }
            "6"
        },
        7 => {
            proof {
                reveal_strlit("7");
            }
            "7"
        },
        8 => {
            proof {
                reveal_strlit("8");
            }
            "8"
        },
        _ => {
            proof {
                reveal_strlit("9");
            }
            "9"
        },
    }
}

/// Number of decimal digits of `n`.
pub fn decimal_len(n: u32) -> (r: usize)
    ensures
        r == decimal(n as nat).len(),
        1 <= r <= 1 + n / 10,
    decreases n,
{
    if n < 10 {
        1
    } else {
        decimal_len(n / 10) + 1
    }
}

/// Append `n` in decimal.
pub fn push_decimal(s: &mut String, n: u32)
    ensures
        final(s)@ == old(s)@ + decimal(n as nat),
    decreases n,
{
    if n >= 10 {
        push_decimal(s, n / 10);
    }
    s.append(digit_str(n % 10));
    proof {
        if n >= 10 {
            assert(decimal(n as nat) == decimal((n / 10) as nat).push(digit_char((n % 10) as int)));
        }
        assert(final(s)@ =~= old(s)@ + decimal(n as nat));
    }
}

/// Append `n` in decimal, padded with zeros to at least `width` characters.
pub fn push_zero_padded(s: &mut String, n: u32, width: usize)
    requires
        width <= 16,
    ensures
        final(s)@ == old(s)@ + zero_padded(n as nat, width as nat),
{
    let len = decimal_len(n);
    let ghost start = s@;
    if len < width {
        let mut k: usize = 0;
        while k < width - len
            invariant
                len < width <= 16,
                k <= width - len,
                s@ == start + Seq::new(k as nat, |i: int| '0'),
            decreases width - len - k,
        {
            proof {
                reveal_strlit("0");
            }
            s.append("0");
            k = k + 1;
            assert(s@ =~= start + Seq::new(k as nat, |i: int| '0'));
        }
    }
    push_decimal(s, n);
    assert(s@ =~= start + zero_padded(n as nat, width as nat));
}

/// Append `v` in decimal with a leading minus sign when negative.
pub fn push_signed(s: &mut String, v: i32)
    ensures
        final(s)@ == old(s)@ + signed_decimal(v as int),
{
    let ghost start = s@;
    if v < 0 {
        proof {
            reveal_strlit("-");
        }
        s.append("-");
        let mag: u32 = if v == i32::MIN {
            2147483648u32
        } else {
            (-v) as u32
        };
        push_decimal(s, mag);
        assert(s@ =~= start + signed_decimal(v as int));
    } else {
        push_decimal(s, v as u32);
    }
}

/// Number of characters of `v` in decimal with its sign.
pub fn signed_len(v: i32) -> (r: usize)
    ensures
        r == signed_decimal(v as int).len(),
        1 <= r,
        r <= 2 + (if v < 0 { -(v as int) } else { v as int }) / 10,
{
    proof {
        reveal_strlit("-");
    }
    if v < 0 {
        let mag: u32 = if v == i32::MIN {
            2147483648u32
        } else {
            (-v) as u32
        };
        1 + decimal_len(mag)
    } else {
        decimal_len(v as u32)
    }
}

} // verus!
