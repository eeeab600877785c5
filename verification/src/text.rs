//! Rendering a world point as `"(X, Y)"`.
//!
//! Each coordinate is rounded from fixed-point steps to whole world units,
//! half-steps away from zero (so `12.5` renders as `13` and `-12.5` as
//! `-13`). A negative coordinate keeps its sign even when its magnitude
//! rounds to zero: `-0.2` renders as `-0`.

use vstd::prelude::*;
use vstd::string::StringExecFns;
use crate::geom::WorldPoint;
use crate::num::SCALE;
use crate::num::abs;

verus! {

/// Magnitude of `v` in whole world units, rounded half away from zero.
pub open spec fn display_mag(v: int) -> int {
    (abs(v) + SCALE / 2) / (SCALE as int)
}

/// The decimal digit character for `d`.
pub open spec fn digit_char(d: int) -> char
    recommends
        0 <= d < 10,
{
    if d == 0 {
        '0'
    } else if d == 1 {
        '1'
    } else if d == 2 {
        '2'
    } else if d == 3 {
        '3'
    } else if d == 4 {
        '4'
    } else if d == 5 {
        '5'
    } else if d == 6 {
        '6'
    } else if d == 7 {
        '7'
    } else if d == 8 {
        '8'
    } else {
        '9'
    }
}

/// The decimal digits of `n`, most significant first.
pub open spec fn dec_digits(n: nat) -> Seq<char>
    decreases n,
{
    if n < 10 {
        seq![digit_char(n as int)]
    } else {
        dec_digits(n / 10) + seq![digit_char((n % 10) as int)]
    }
}

/// How one coordinate renders: an optional sign, then the rounded magnitude.
pub open spec fn coord_text(v: int) -> Seq<char> {
    if v < 0 {
        seq!['-'] + dec_digits(display_mag(v) as nat)
    } else {
        dec_digits(display_mag(v) as nat)
    }
}

/// How a world point renders: `"(X, Y)"`.
pub open spec fn point_text(p: WorldPoint) -> Seq<char> {
    seq!['('] + coord_text(p.x as int) + seq![',', ' '] + coord_text(p.y as int) + seq![')']
}

/// Appends the single digit `d`.
fn push_digit(out: &mut String, d: u64)
    requires
        d < 10,
    ensures
        final(out)@ == old(out)@ + seq![digit_char(d as int)],
{
    match d {
        0 => {
            proof {
                reveal_strlit("0");
                assert("0"@ =~= seq!['0']);
            }
            out.append("0");
        },
        1 => {
            proof {
                reveal_strlit("1");
                assert("1"@ =~= seq!['1']);
            }
            out.append("1");
        },
        2 => {
            proof {
                reveal_strlit("2");
                assert("2"@ =~= seq!['2']);
            }
            out.append("2");
        },
        3 => {
            proof {
                reveal_strlit("3");
                assert("3"@ =~= seq!['3']);
            }
            out.append("3");
        },
        4 => {
            proof {
                reveal_strlit("4");
                assert("4"@ =~= seq!['4']);
            }
            out.append("4");
        },
        5 => {
            proof {
                reveal_strlit("5");
                assert("5"@ =~= seq!['5']);
            }
            out.append("5");
        },
        6 => {
            proof {
                reveal_strlit("6");
                assert("6"@ =~= seq!['6']);
            }
            out.append("6");
        },
        7 => {
            proof {
                reveal_strlit("7");
                assert("7"@ =~= seq!['7']);
            }
            out.append("7");
        },
        8 => {
            proof {
                reveal_strlit("8");
                assert("8"@ =~= seq!['8']);
            }
            out.append("8");
        },
        _ => {
            proof {
                reveal_strlit("9");
                assert("9"@ =~= seq!['9']);
            }
            out.append("9");
        },
    }
}

/// Appends the decimal digits of `n`.
fn push_decimal(out: &mut String, n: u64)
    ensures
        final(out)@ == old(out)@ + dec_digits(n as nat),
    decreases n,
{
    if n >= 10 {
        push_decimal(out, n / 10);
        push_digit(out, n % 10);
        assert(final(out)@ =~= old(out)@ + dec_digits(n as nat));
    } else {
        push_digit(out, n);
    }
}

/// Appends one rounded coordinate, sign included.
fn push_coord(out: &mut String, v: i64)
    ensures
        final(out)@ == old(out)@ + coord_text(v as int),
{
    let mag: u64 = if v >= 0 {
        v as u64
    } else {
        (-(v as i128)) as u64
    };
    assert(mag == abs(v as int));
    let disp: u64 = (mag + 500) / 1000;
    assert(disp == display_mag(v as int));
    if v < 0 {
        proof {
            reveal_strlit("-");
            assert("-"@ =~= seq!['-']);
        }
        out.append("-");
    }
    push_decimal(out, disp);
    assert(final(out)@ =~= old(out)@ + coord_text(v as int));
}

/// Renders a world point as `"(X, Y)"` with both coordinates rounded to
/// whole units, half-steps away from zero.
pub fn format_world_point(p: &WorldPoint) -> (r: String)
    ensures
        r@ == point_text(*p),
{
    let mut out: String = String::new();
    proof {
        reveal_strlit("(");
        assert("("@ =~= seq!['(']);
        reveal_strlit(", ");
        assert(", "@ =~= seq![',', ' ']);
        reveal_strlit(")");
        assert(")"@ =~= seq![')']);
    }
    out.append("(");
    push_coord(&mut out, p.x);
    out.append(", ");
    push_coord(&mut out, p.y);
    out.append(")");
    assert(out@ =~= point_text(*p));
    out
}

} // verus!
