use vstd::prelude::*;
use vstd::string::*;

verus! {

/// The character that writes digit `d` (below 16): `0`-`9`, then `A`-`F`
/// when `upper` holds and `a`-`f` otherwise.
pub open spec fn digit_char(d: nat, upper: bool) -> char {
    if d < 10 {
        ((d + 48) as u8) as char
    } else if upper {
        ((d + 55) as u8) as char
    } else {
        ((d + 87) as u8) as char
    }
}

/// The digits of `n` in base `base`, most significant first, with no
/// leading zeros (zero is written as one digit).
pub open spec fn digits(n: nat, base: nat, upper: bool) -> Seq<char>
    decreases n
    via digits_decreases
{
    if base < 2 || n < base {
        seq![digit_char(n, upper)]
    } else {
        digits(n / base, base, upper).push(digit_char(n % base, upper))
    }
}

#[via_fn]
proof fn digits_decreases(n: nat, base: nat, upper: bool) {
    if !(base < 2 || n < base) {
        assert(n / base < n) by (nonlinear_arith)
            requires
                base >= 2,
                n >= base,
        ;
    }
}

/// Lower-case hexadecimal text of `n`.
pub open spec fn hex_lower(n: nat) -> Seq<char> {
    digits(n, 16, false)
}

/// Upper-case hexadecimal text of `n`.
pub open spec fn hex_upper(n: nat) -> Seq<char> {
    digits(n, 16, true)
}

/// Decimal text of `n`.
pub open spec fn decimal(n: nat) -> Seq<char> {
    digits(n, 10, false)
}

/// Relies on `String::push`: appends one character at the end.
#[verifier::external_body]
pub(crate) fn push_char(s: &mut String, c: char)
    ensures
        final(s)@ == old(s)@.push(c),
{
    s.push(c)
}

fn digit(d: u64, upper: bool) -> (c: char)
    requires
        d < 16,
    ensures
        c == digit_char(d as nat, upper),
{
    if d < 10 {
        (d as u8 + 48u8) as char
    } else if upper {
        (d as u8 + 55u8) as char
    } else {
        (d as u8 + 87u8) as char
    }
}

/// Appends the digits of `n` in base `base` to `s`.
pub fn push_digits(s: &mut String, n: u64, base: u64, upper: bool)
    requires
        2 <= base <= 16,
    ensures
        final(s)@ == old(s)@ + digits(n as nat, base as nat, upper),
    decreases n,
{
    if n < base {
        push_char(s, digit(n, upper));
        assert(old(s)@.push(digit_char(n as nat, upper)) =~= old(s)@ + seq![digit_char(n as nat, upper)]);
    } else {
        assert(n / base < n) by (nonlinear_arith)
            requires
                base >= 2,
                n >= base,
        ;
        push_digits(s, n / base, base, upper);
        push_char(s, digit(n % base, upper));
        assert(s@ =~= old(s)@ + digits(n as nat, base as nat, upper));
    }
}

/// Appends the characters of `t` to `s`.
pub fn push_str(s: &mut String, t: &str)
    ensures
        final(s)@ == old(s)@ + t@,
{
    s.append(t);
}

} // verus!
