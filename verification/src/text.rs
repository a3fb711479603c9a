//! Diagnostic labels: decimal rendering of the configured window length.

use vstd::prelude::*;

verus! {

/// The character for one decimal digit.
pub open spec fn dec_digit(d: nat) -> char {
    if d == 0 {
        '0'
    } else if d == 1 {
        '1'
    } else if d == 2 {
        '2'
    } else if d == 3 {
        '3'
    } else if d == 4 {
        '4'
    } else if d == 5 {
        '5'
    } else if d == 6 {
        '6'
    } else if d == 7 {
        '7'
    } else if d == 8 {
        '8'
    } else {
        '9'
    }
}

/// The decimal rendering of a number, most significant digit first, with no
/// leading zeros (zero itself is the single digit `0`).
pub open spec fn dec_str(n: nat) -> Seq<char>
    decreases n,
{
    if n < 10 {
        seq![dec_digit(n)]
    } else {
        dec_str(n / 10).push(dec_digit(n % 10))
    }
}

/// Relies on `String::push` of std: appends the given char to the end of
/// the string.
pub assume_specification[ String::push ](s: &mut String, c: char)
    ensures
        final(s)@ == old(s)@.push(c),
;

/// The character for one decimal digit, executably.
fn digit_char(d: u8) -> (r: char)
    requires
        d < 10,
    ensures
        r == dec_digit(d as nat),
{
    match d {
        0 => '0',
        1 => '1',
        2 => '2',
        3 => '3',
        4 => '4',
        5 => '5',
        6 => '6',
        7 => '7',
        8 => '8',
        9 => '9',
        _ => unreached(),
    }
}

/// Appends the decimal rendering of `n` to the string.
fn push_dec(out: &mut String, n: u64)
    ensures
        final(out)@ == old(out)@ + dec_str(n as nat),
    decreases n,
{
    let ghost pre = out@;
    if n >= 10 {
        push_dec(out, n / 10);
    }
    let d = (n % 10) as u8;
    let c = digit_char(d);
    out.push(c);
    proof {
        if n < 10 {
            assert(pre.push(c) =~= pre + dec_str(n as nat));
        } else {
            assert((pre + dec_str(n as nat / 10)).push(c) =~= pre + dec_str(n as nat));
        }
    }
}

/// The label `prefix` + decimal length + closing parenthesis, as the
/// indicators' diagnostic display.
pub fn format_label(prefix: &str, n: usize) -> (r: String)
    ensures
        r@ == prefix@ + dec_str(n as nat) + ")"@,
{
    let mut s = prefix.to_owned();
    push_dec(&mut s, n as u64);
    s.push(')');
    proof {
        reveal_strlit(")");
        assert((prefix@ + dec_str(n as nat)).push(')') =~= prefix@ + dec_str(n as nat) + ")"@);
    }
    s
}

} // verus!
