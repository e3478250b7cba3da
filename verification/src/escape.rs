//! Building blocks for ANSI SGR escape sequences.
//!
//! An SGR sequence is the control-sequence introducer `ESC [`, a parameter
//! string of ASCII digits and semicolons, and a final `m`. The spec functions
//! here give the exact character sequences; the exec functions build them as
//! `String`s, character for character.

use vstd::prelude::*;
use vstd::string::StringExecFns;

verus! {

/// The control-sequence introducer: the escape byte followed by `[`.
pub open spec fn csi() -> Seq<char> {
    seq!['\x1b', '[']
}

/// A full SGR sequence: the introducer, the parameter characters, and `m`.
pub open spec fn sgr(params: Seq<char>) -> Seq<char> {
    csi() + params + seq!['m']
}

/// The universal reset sequence `ESC[0m`, which restores default rendering.
pub open spec fn reset_seq() -> Seq<char> {
    sgr(seq!['0'])
}

/// The ASCII digit character for `d` in `0..10`.
pub open spec fn digit_char(d: int) -> char {
    if d == 0 {
        '0'
    } else if d == 1 {
        '1'
    } else if d == 2 {
        '2'
    } else if d == 3 {
        '3'
    } else if d == 4 {
        '4'
    } else if d == 5 {
        '5'
    } else if d == 6 {
        '6'
    } else if d == 7 {
        '7'
    } else if d == 8 {
        '8'
    } else {
        '9'
    }
}

/// The decimal rendering of `n` in `0..1000` with no leading zeros,
/// as SGR parameters are ordinarily written.
pub open spec fn dec(n: int) -> Seq<char> {
    if n < 10 {
        seq![digit_char(n)]
    } else if n < 100 {
        seq![digit_char(n / 10), digit_char(n % 10)]
    } else {
        seq![digit_char(n / 100), digit_char((n / 10) % 10), digit_char(n % 10)]
    }
}

/// The decimal rendering of `n` in `0..1000`, zero-padded to exactly three
/// digits, as the 24-bit RGB sequences write their channels.
pub open spec fn dec3(n: int) -> Seq<char> {
    seq![digit_char(n / 100), digit_char((n / 10) % 10), digit_char(n % 10)]
}

/// Appends the single ASCII digit `d` to `s`.
pub fn push_digit(s: &mut String, d: u8)
    requires
        d < 10,
    ensures
        final(s)@ == old(s)@ + seq![digit_char(d as int)],
{
    let lit: &str = match d {
        0 => "0",
        1 => "1",
        2 => "2",
        3 => "3",
        4 => "4",
        5 => "5",
        6 => "6",
        7 => "7",
        8 => "8",
        _ => "9",
    };
    proof {
        reveal_strlit("0");
        reveal_strlit("1");
        reveal_strlit("2");
        reveal_strlit("3");
        reveal_strlit("4");
        reveal_strlit("5");
        reveal_strlit("6");
        reveal_strlit("7");
        reveal_strlit("8");
        reveal_strlit("9");
        assert(lit@ =~= seq![digit_char(d as int)]);
    }
    s.append(lit);
}

/// Appends the decimal rendering of `n` without leading zeros.
pub fn push_decimal(s: &mut String, n: u8)
    ensures
        final(s)@ == old(s)@ + dec(n as int),
{
    if n >= 100 {
        push_digit(s, n / 100);
    }
    if n >= 10 {
        push_digit(s, (n / 10) % 10);
    }
    push_digit(s, n % 10);
    assert(s@ =~= old(s)@ + dec(n as int));
}

/// Appends the decimal rendering of `n`, zero-padded to three digits.
pub fn push_decimal3(s: &mut String, n: u8)
    ensures
        final(s)@ == old(s)@ + dec3(n as int),
{
    push_digit(s, n / 100);
    push_digit(s, (n / 10) % 10);
    push_digit(s, n % 10);
    assert(s@ =~= old(s)@ + dec3(n as int));
}

/// Appends the control-sequence introducer `ESC [`.
pub fn push_csi(s: &mut String)
    ensures
        final(s)@ == old(s)@ + csi(),
{
    proof {
        reveal_strlit("\x1b[");
        assert("\x1b["@ =~= csi());
    }
    s.append("\x1b[");
}

/// Appends the `;` that separates SGR parameters.
pub fn push_semicolon(s: &mut String)
    ensures
        final(s)@ == old(s)@ + seq![';'],
{
    proof {
        reveal_strlit(";");
        assert(";"@ =~= seq![';']);
    }
    s.append(";");
}

/// Appends the final `m` of an SGR sequence.
pub fn push_sgr_end(s: &mut String)
    ensures
        final(s)@ == old(s)@ + seq!['m'],
{
    proof {
        reveal_strlit("m");
        assert("m"@ =~= seq!['m']);
    }
    s.append("m");
}

/// The universal reset sequence `ESC[0m` as a `String`.
pub fn reset() -> (r: String)
    ensures
        r@ == reset_seq(),
{
    proof {
        reveal_strlit("\x1b[0m");
        assert("\x1b[0m"@ =~= reset_seq());
    }
    String::from_str("\x1b[0m")
}

} // verus!
