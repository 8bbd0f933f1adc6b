use vstd::prelude::*;
use vstd::string::StringExecFns;

verus! {

/// The text of one decimal digit.
pub open spec fn digit_text(d: nat) -> Seq<char> {
    if d == 0 { "0"@ }
    else if d == 1 { "1"@ }
    else if d == 2 { "2"@ }
    else if d == 3 { "3"@ }
    else if d == 4 { "4"@ }
    else if d == 5 { "5"@ }
    else if d == 6 { "6"@ }
    else if d == 7 { "7"@ }
    else if d == 8 { "8"@ }
    else { "9"@ }
}

/// Decimal digits of a natural number, most significant first, no leading zeros.
pub open spec fn nat_text(n: nat) -> Seq<char>
    decreases n,
{
    if n < 10 {
        digit_text(n)
    } else {
        nat_text(n / 10) + digit_text(n % 10)
    }
}

/// Decimal text of an integer, as `{}` prints it.
pub open spec fn int_text(i: int) -> Seq<char> {
    if i < 0 {
        "-"@ + nat_text((-i) as nat)
    } else {
        nat_text(i as nat)
    }
}

/// Decimal text of an integer padded with zeros to two characters, as `{:02}` prints it.
pub open spec fn int_text_02(i: int) -> Seq<char> {
    if 0 <= i < 10 {
        "0"@ + nat_text(i as nat)
    } else {
        int_text(i)
    }
}

/// Quotient of a division that rounds toward zero, as Rust's `/` on signed integers.
pub open spec fn trunc_div(a: int, b: int) -> int {
    if a >= 0 { a / b } else { -((-a) / b) }
}

/// Remainder that takes the sign of the dividend, as Rust's `%` on signed integers.
pub open spec fn trunc_rem(a: int, b: int) -> int {
    if a >= 0 { a % b } else { -((-a) % b) }
}

fn digit_str(d: u64) -> (s: &'static str)
    requires
        d < 10,
    ensures
        s@ == digit_text(d as nat),
{
    if d == 0 { "0" }
    else if d == 1 { "1" }
    else if d == 2 { "2" }
    else if d == 3 { "3" }
    else if d == 4 { "4" }
    else if d == 5 { "5" }
    else if d == 6 { "6" }
    else if d == 7 { "7" }
    else if d == 8 { "8" }
    else { "9" }
}

/// Appends the decimal digits of `n` to `out`.
pub fn push_u64(out: &mut String, n: u64)
    ensures
        final(out)@ == old(out)@ + nat_text(n as nat),
    decreases n,
{
    if n >= 10 {
        push_u64(out, n / 10);
    }
    out.append(digit_str(n % 10));
    proof {
        assert(old(out)@ + nat_text(n as nat) =~= if n >= 10 {
            old(out)@ + nat_text((n / 10) as nat) + digit_text((n % 10) as nat)
        } else {
            old(out)@ + digit_text((n % 10) as nat)
        });
    }
}

/// Appends the decimal text of `i` to `out`.
pub fn push_i64(out: &mut String, i: i64)
    ensures
        final(out)@ == old(out)@ + int_text(i as int),
{
    if i < 0 {
        out.append("-");
        let mag: u64 = if i == i64::MIN { 9223372036854775808u64 } else { (-i) as u64 };
        push_u64(out, mag);
        assert(final(out)@ =~= old(out)@ + int_text(i as int));
    } else {
        push_u64(out, i as u64);
    }
}

/// Appends the decimal text of `i` padded with zeros to two characters.
pub fn push_i64_02(out: &mut String, i: i64)
    ensures
        final(out)@ == old(out)@ + int_text_02(i as int),
{
    if 0 <= i && i < 10 {
        out.append("0");
        push_u64(out, i as u64);
        assert(final(out)@ =~= old(out)@ + int_text_02(i as int));
    } else {
        push_i64(out, i);
    }
}

/// `String::push`: appends the character to the end of the string.
#[verifier::external_body]
pub(crate) fn push_char(out: &mut String, c: char)
    ensures
        final(out)@ == old(out)@.push(c),
{
    out.push(c)
}

/// The decimal text of `n`.
pub fn u64_to_text(n: u64) -> (s: String)
    ensures
        s@ == nat_text(n as nat),
{
    let mut s = String::new();
    push_u64(&mut s, n);
    assert(s@ =~= nat_text(n as nat));
    s
}

/// Splits a duration in seconds into minutes and seconds, as `d / 60` and `d % 60` do.
pub fn minutes_seconds(d: i64) -> (r: (i64, i64))
    ensures
        r.0 == trunc_div(d as int, 60),
        r.1 == trunc_rem(d as int, 60),
{
    if d >= 0 {
        (d / 60, d % 60)
    } else {
        let mag: u64 = if d == i64::MIN { 9223372036854775808u64 } else { (-d) as u64 };
        let m = (mag / 60) as i64;
        let s = (mag % 60) as i64;
        (-m, -s)
    }
}

} // verus!
