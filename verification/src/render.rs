//! Deterministic rendering of a remaining time as `minutes:seconds`, with
//! the seconds zero-padded to two digits (`24:05`). The decimal conversion
//! is verified digit by digit against a spec-level character sequence.

use vstd::prelude::*;

verus! {

/// The decimal digit character for `d` (`0 <= d <= 9`).
pub open spec fn digit_char(d: int) -> char {
    if d == 0 {
        '0'
    } else if d == 1 {
        '1'
    } else if d == 2 {
        '2'
    } else if d == 3 {
        '3'
    } else if d == 4 {
        '4'
    } else if d == 5 {
        '5'
    } else if d == 6 {
        '6'
    } else if d == 7 {
        '7'
    } else if d == 8 {
        '8'
    } else {
        '9'
    }
}

/// The usual decimal rendering of `n >= 0`: no leading zeroes, except that
/// zero itself renders as `"0"`.
pub open spec fn dec_str(n: int) -> Seq<char>
    decreases n,
{
    if n < 10 {
        seq![digit_char(n)]
    } else {
        dec_str(n / 10).push(digit_char(n % 10))
    }
}

/// The clock rendering of a span of `ms` milliseconds: whole minutes, a
/// colon, then the leftover seconds zero-padded to two digits. Sub-second
/// remainders are truncated.
pub open spec fn clock_str(ms: u64) -> Seq<char> {
    let total_secs = ms as int / 1000;
    let minutes = total_secs / 60;
    let secs = total_secs % 60;
    dec_str(minutes) + seq![':'] + (if secs < 10 {
        seq!['0']
    } else {
        Seq::empty()
    }) + dec_str(secs)
}

/// Relies on `String::push`: appends the given character to the end of the
/// string.
#[verifier::external_body]
fn push_char(s: &mut String, c: char)
    ensures
        final(s)@ == old(s)@.push(c),
{
    s.push(c)
}

/// The decimal digit character for `d < 10`, as executable code.
fn digit_char_exec(d: u64) -> (c: char)
    requires
        d < 10,
    ensures
        c == digit_char(d as int),
{
    match d {
        0 => '0',
        1 => '1',
        2 => '2',
        3 => '3',
        4 => '4',
        5 => '5',
        6 => '6',
        7 => '7',
        8 => '8',
        _ => '9',
    }
}

/// Appends the decimal rendering of `n` to `s`.
fn push_dec(s: &mut String, n: u64)
    ensures
        final(s)@ == old(s)@ + dec_str(n as int),
    decreases n,
{
    if n < 10 {
        push_char(s, digit_char_exec(n));
        proof {
            assert(s@ =~= old(s)@ + dec_str(n as int));
        }
    } else {
        push_dec(s, n / 10);
        push_char(s, digit_char_exec(n % 10));
        proof {
            assert(s@ =~= old(s)@ + dec_str(n as int));
        }
    }
}

/// Renders a span of `ms` milliseconds as `minutes:seconds`, the seconds
/// zero-padded to two digits.
pub fn clock_text(ms: u64) -> (r: String)
    ensures
        r@ == clock_str(ms),
{
    let total_secs = ms / 1000;
    let minutes = total_secs / 60;
    let secs = total_secs % 60;
    let mut out = String::new();
    push_dec(&mut out, minutes);
    push_char(&mut out, ':');
    if secs < 10 {
        push_char(&mut out, '0');
    }
    push_dec(&mut out, secs);
    proof {
        assert(out@ =~= clock_str(ms));
    }
    out
}

} // verus!
