//! The scoreboard line: both scores rendered in decimal.
//!
//! The line reads `"L - R"`, where `L` is the score of the player
//! defending the left side — the one awarded when the ball reaches the
//! right goal — and `R` the other.  That score comes first.

use vstd::prelude::*;

use vstd::string::StringExecFns;

use crate::scoring::Scoreboard;

verus! {

/// The decimal digit character for `d`, which must be below ten.
pub open spec fn digit_char(d: int) -> char {
    if d == 0 {
        '0'
    } else if d == 1 {
        '1'
    } else if d == 2 {
        '2'
    } else if d == 3 {
        '3'
    } else if d == 4 {
        '4'
    } else if d == 5 {
        '5'
    } else if d == 6 {
        '6'
    } else if d == 7 {
        '7'
    } else if d == 8 {
        '8'
    } else {
        '9'
    }
}

/// The decimal rendering of `n`, most significant digit first, with no
/// leading zeros except for `n == 0` itself.
pub open spec fn spec_dec(n: int) -> Seq<char>
    decreases n,
{
    if n < 10 {
        seq![digit_char(n)]
    } else {
        spec_dec(n / 10).push(digit_char(n % 10))
    }
}

/// The full scoreboard line for `sb`: the left player's score, a
/// separating dash, the right player's score.
pub open spec fn spec_score_line(sb: Scoreboard) -> Seq<char> {
    spec_dec(sb.score_left as int) + " - "@ + spec_dec(sb.score_right as int)
}

/// Append one decimal digit character to `s`.
fn push_digit(s: &mut String, d: u32)
    requires
        d < 10,
    ensures
        final(s)@ == old(s)@ + seq![digit_char(d as int)],
{
    let lit: &str = match d {
        0u32 => "0",
        1u32 => "1",
        2u32 => "2",
        3u32 => "3",
        4u32 => "4",
        5u32 => "5",
        6u32 => "6",
        7u32 => "7",
        8u32 => "8",
        _ => "9",
    };
    proof {
        reveal_strlit("0");
        reveal_strlit("1");
        reveal_strlit("2");
        reveal_strlit("3");
        reveal_strlit("4");
        reveal_strlit("5");
        reveal_strlit("6");
        reveal_strlit("7");
        reveal_strlit("8");
        reveal_strlit("9");
        assert(lit@ =~= seq![digit_char(d as int)]);
    }
    s.append(lit);
}

/// Append the decimal rendering of `n` to `s`.
fn push_dec(s: &mut String, n: u32)
    ensures
        final(s)@ == old(s)@ + spec_dec(n as int),
    decreases n,
{
    if n >= 10 {
        push_dec(s, n / 10);
        push_digit(s, n % 10);
        proof {
            assert(s@ =~= old(s)@ + spec_dec(n as int));
        }
    } else {
        push_digit(s, n);
    }
}

/// Render the scoreboard line `"L - R"`, the left player's score first.
pub fn score_line(sb: &Scoreboard) -> (r: String)
    ensures
        r@ == spec_score_line(*sb),
{
    let mut s = String::new();
    push_dec(&mut s, sb.score_left);
    s.append(" - ");
    push_dec(&mut s, sb.score_right);
    proof {
        assert(s@ =~= spec_score_line(*sb));
    }
    s
}

} // verus!
