//! Rendering of a number of seconds as a clock reading.

use vstd::prelude::*;

verus! {

/// The character for a decimal digit.
pub open spec fn digit_char(d: nat) -> char
    recommends
        d < 10,
{
    (48 + d) as char
}

/// Decimal notation of `n`, without padding.
pub open spec fn decimal(n: nat) -> Seq<char>
    decreases n,
{
    if n < 10 {
        seq![digit_char(n)]
    } else {
        decimal(n / 10).push(digit_char(n % 10))
    }
}

/// Decimal notation of `n`, padded with a zero to at least two digits.
pub open spec fn two_digits(n: nat) -> Seq<char> {
    if n < 10 {
        seq!['0', digit_char(n)]
    } else {
        decimal(n)
    }
}

/// `MM:SS` below one hour, `HH:MM:SS` from one hour on.
pub open spec fn clock_text(secs: nat) -> Seq<char> {
    let hh = secs / 3600;
    let mm = (secs / 60) % 60;
    let ss = secs % 60;
    if hh > 0 {
        two_digits(hh) + seq![':'] + two_digits(mm) + seq![':'] + two_digits(ss)
    } else {
        two_digits(mm) + seq![':'] + two_digits(ss)
    }
}

fn digit(d: u64) -> (c: char)
    requires
        d < 10,
    ensures
        c == digit_char(d as nat),
{
    let b: u8 = 48u8 + (d as u8);
    b as char
}

fn push_decimal(out: &mut String, n: u64)
    ensures
        final(out)@ == old(out)@ + decimal(n as nat),
    decreases n,
{
    if n >= 10 {
        push_decimal(out, n / 10);
    }
    out.push(digit(n % 10));
}

fn push_two_digits(out: &mut String, n: u64)
    ensures
        final(out)@ == old(out)@ + two_digits(n as nat),
{
    if n < 10 {
        out.push('0');
    }
    push_decimal(out, n);
}

/// Appends the clock reading of `secs` to `out`.
pub fn push_clock(out: &mut String, secs: u64)
    ensures
        final(out)@ == old(out)@ + clock_text(secs as nat),
{
    let hh: u64 = secs / 3600;
    let mm: u64 = (secs / 60) % 60;
    let ss: u64 = secs % 60;
    if hh > 0 {
        push_two_digits(out, hh);
        out.push(':');
    }
    push_two_digits(out, mm);
    out.push(':');
    push_two_digits(out, ss);
}

/// The clock reading of `secs`: `65` gives `01:05`, `3725` gives `01:02:05`.
pub fn format_clock(secs: u64) -> (text: String)
    ensures
        text@ == clock_text(secs as nat),
{
    let mut text = String::new();
    push_clock(&mut text, secs);
    text
}

} // verus!
