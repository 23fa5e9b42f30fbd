//! Rendering of a whole-second countdown as clock text.
//!
//! The timer shows the same seconds value in two shapes: `HH:MM:SS` in the
//! window title and `MM:SS` (minutes within the hour) in the countdown
//! widget. Each field is zero-padded to two digits; a field that needs more
//! digits (hours beyond 99) keeps them all.

use vstd::prelude::*;
use vstd::string::StringExecFns;

verus! {

/// The character for one decimal digit.
pub open spec fn digit_char(d: nat) -> char {
    if d == 0 {
        '0'
    } else if d == 1 {
        '1'
    } else if d == 2 {
        '2'
    } else if d == 3 {
        '3'
    } else if d == 4 {
        '4'
    } else if d == 5 {
        '5'
    } else if d == 6 {
        '6'
    } else if d == 7 {
        '7'
    } else if d == 8 {
        '8'
    } else {
        '9'
    }
}

/// The decimal digits of `n`, most significant first, without leading zeros.
pub open spec fn decimal(n: nat) -> Seq<char>
    decreases n,
{
    if n < 10 {
        seq![digit_char(n)]
    } else {
        decimal(n / 10).push(digit_char(n % 10))
    }
}

/// `decimal`, left-padded with `'0'` to at least two characters.
pub open spec fn padded(n: nat) -> Seq<char> {
    if n < 10 {
        seq!['0'] + decimal(n)
    } else {
        decimal(n)
    }
}

/// `seconds` rendered as `HH:MM:SS`.
pub open spec fn clock_full(seconds: nat) -> Seq<char> {
    padded(seconds / 3600) + ":"@ + padded((seconds % 3600) / 60) + ":"@ + padded(seconds % 60)
}

/// `seconds` rendered as `MM:SS`: minutes within the hour, no hours field.
pub open spec fn clock_short(seconds: nat) -> Seq<char> {
    padded((seconds % 3600) / 60) + ":"@ + padded(seconds % 60)
}

fn push_digit(out: &mut String, d: u64)
    requires
        d < 10,
    ensures
        final(out)@ == old(out)@ + seq![digit_char(d as nat)],
{
    if d == 0 {
        out.append("0");
        proof {
            reveal_strlit("0");
            assert(out@ =~= old(out)@ + seq![digit_char(d as nat)]);
        }
    } else if d == 1 {
        out.append("1");
        proof {
            reveal_strlit("1");
            assert(out@ =~= old(out)@ + seq![digit_char(d as nat)]);
        }
    } else if d == 2 {
        out.append("2");
        proof {
            reveal_strlit("2");
            assert(out@ =~= old(out)@ + seq![digit_char(d as nat)]);
        }
    } else if d == 3 {
        out.append("3");
        proof {
            reveal_strlit("3");
            assert(out@ =~= old(out)@ + seq![digit_char(d as nat)]);
        }
    } else if d == 4 {
        out.append("4");
        proof {
            reveal_strlit("4");
            assert(out@ =~= old(out)@ + seq![digit_char(d as nat)]);
        }
    } else if d == 5 {
        out.append("5");
        proof {
            reveal_strlit("5");
            assert(out@ =~= old(out)@ + seq![digit_char(d as nat)]);
        }
    } else if d == 6 {
        out.append("6");
        proof {
            reveal_strlit("6");
            assert(out@ =~= old(out)@ + seq![digit_char(d as nat)]);
        }
    } else if d == 7 {
        out.append("7");
        proof {
            reveal_strlit("7");
            assert(out@ =~= old(out)@ + seq![digit_char(d as nat)]);
        }
    } else if d == 8 {
        out.append("8");
        proof {
            reveal_strlit("8");
            assert(out@ =~= old(out)@ + seq![digit_char(d as nat)]);
        }
    } else {
        out.append("9");
        proof {
            reveal_strlit("9");
            assert(out@ =~= old(out)@ + seq![digit_char(d as nat)]);
        }
    }
}

fn push_decimal(out: &mut String, n: u64)
    ensures
        final(out)@ == old(out)@ + decimal(n as nat),
    decreases n,
{
    if n >= 10 {
        push_decimal(out, n / 10);
        push_digit(out, n % 10);
        proof {
            assert(out@ =~= old(out)@ + decimal(n as nat));
        }
    } else {
        push_digit(out, n);
    }
}

fn push_padded(out: &mut String, n: u64)
    ensures
        final(out)@ == old(out)@ + padded(n as nat),
{
    if n < 10 {
        out.append("0");
        push_decimal(out, n);
        proof {
            reveal_strlit("0");
            assert(out@ =~= old(out)@ + padded(n as nat));
        }
    } else {
        push_decimal(out, n);
    }
}

/// `seconds` as `HH:MM:SS` text.
pub fn clock_full_text(seconds: u64) -> (r: String)
    ensures
        r@ == clock_full(seconds as nat),
{
    let mut out = String::new();
    push_padded(&mut out, seconds / 3600);
    out.append(":");
    push_padded(&mut out, (seconds % 3600) / 60);
    out.append(":");
    push_padded(&mut out, seconds % 60);
    proof {
        assert(out@ =~= clock_full(seconds as nat));
    }
    out
}

/// `seconds` as `MM:SS` text.
pub fn clock_short_text(seconds: u64) -> (r: String)
    ensures
        r@ == clock_short(seconds as nat),
{
    let mut out = String::new();
    push_padded(&mut out, (seconds % 3600) / 60);
    out.append(":");
    push_padded(&mut out, seconds % 60);
    proof {
        assert(out@ =~= clock_short(seconds as nat));
    }
    out
}

} // verus!
