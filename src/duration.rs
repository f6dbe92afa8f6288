//! Compact rendering of a whole number of seconds (`"1h 2m 3s"`).

use vstd::prelude::*;

use crate::text::string_of;

verus! {

/// The character of the decimal digit `d`.
pub open spec fn digit_char(d: nat) -> char
    recommends
        d < 10,
{
    if d == 0 { '0' }
    else if d == 1 { '1' }
    else if d == 2 { '2' }
    else if d == 3 { '3' }
    else if d == 4 { '4' }
    else if d == 5 { '5' }
    else if d == 6 { '6' }
    else if d == 7 { '7' }
    else if d == 8 { '8' }
    else { '9' }
}

/// The decimal digits of `n`, most significant first, without leading zeros.
pub open spec fn decimal(n: nat) -> Seq<char>
    decreases n,
{
    if n < 10 {
        seq![digit_char(n)]
    } else {
        decimal(n / 10).push(digit_char(n % 10))
    }
}

/// The rendering of `s` seconds: empty for zero; otherwise the non-zero
/// units among hours, minutes and seconds, largest first, each as a number
/// followed by `h`, `m` or `s`, separated by single spaces.
pub open spec fn humanize(s: nat) -> Seq<char>
    decreases s,
{
    if s == 0 {
        Seq::empty()
    } else if s < 60 {
        decimal(s).push('s')
    } else if s < 3600 {
        let rest = humanize(s % 60);
        decimal(s / 60).push('m') + if rest.len() == 0 { rest } else { seq![' '] + rest }
    } else {
        let rest = humanize(s % 3600);
        decimal(s / 3600).push('h') + if rest.len() == 0 { rest } else { seq![' '] + rest }
    }
}

fn digit(d: u64) -> (c: char)
    requires
        d < 10,
    ensures
        c == digit_char(d as nat),
{
    if d == 0 { '0' }
    else if d == 1 { '1' }
    else if d == 2 { '2' }
    else if d == 3 { '3' }
    else if d == 4 { '4' }
    else if d == 5 { '5' }
    else if d == 6 { '6' }
    else if d == 7 { '7' }
    else if d == 8 { '8' }
    else { '9' }
}

/// Appends the decimal digits of `n` to `out`.
pub(crate) fn push_decimal(out: &mut Vec<char>, n: u64)
    ensures
        final(out)@ == old(out)@ + decimal(n as nat),
    decreases n,
{
    if n < 10 {
        out.push(digit(n));
    } else {
        push_decimal(out, n / 10);
        out.push(digit(n % 10));
        assert(decimal(n as nat) == decimal((n / 10) as nat).push(digit_char((n % 10) as nat)));
    }
}

/// Appends the rendering of `secs` seconds to `out`.
pub(crate) fn push_humanized(out: &mut Vec<char>, secs: u64)
    ensures
        final(out)@ == old(out)@ + humanize(secs as nat),
    decreases secs,
{
    if secs == 0 {
        assert(old(out)@ + humanize(0) == old(out)@);
    } else if secs < 60 {
        push_decimal(out, secs);
        out.push('s');
    } else {
        let unit: u64 = if secs < 3600 { 60 } else { 3600 };
        let mark: char = if secs < 3600 { 'm' } else { 'h' };
        let rest: u64 = secs % unit;
        let ghost before = out@;
        push_decimal(out, secs / unit);
        out.push(mark);
        if rest != 0 {
            out.push(' ');
            push_humanized(out, rest);
        }
        proof {
            lemma_humanize_nonempty(rest as nat);
            let r = humanize(rest as nat);
            let head = decimal((secs / unit) as nat).push(mark);
            if rest == 0 {
                assert(out@ == before + (head + r));
            } else {
                assert(out@ == before + (head + (seq![' '] + r)));
            }
        }
    }
}

/// The rendering of `secs` seconds: `""` for 0, `"59s"`, `"1m"`,
/// `"1m 59s"`, `"1h 1s"`, `"34h 59m 59s"`.
pub fn humanize_duration(secs: u64) -> (r: String)
    ensures
        r@ == humanize(secs as nat),
{
    let mut out: Vec<char> = Vec::new();
    push_humanized(&mut out, secs);
    string_of(&out)
}

/// The rendering is empty exactly for zero.
pub proof fn lemma_humanize_nonempty(s: nat)
    ensures
        (humanize(s).len() == 0) == (s == 0),
    decreases s,
{
    if s >= 60 {
        if s < 3600 {
            lemma_humanize_nonempty(s % 60);
        } else {
            lemma_humanize_nonempty(s % 3600);
        }
    }
}

/// The digits of a positive number do not start with a zero.
pub proof fn lemma_decimal_leading_digit(n: nat)
    ensures
        decimal(n).len() > 0,
        decimal(n)[0] != ' ',
        n > 0 ==> decimal(n)[0] != '0',
    decreases n,
{
    if n >= 10 {
        lemma_decimal_leading_digit(n / 10);
    }
}

/// A rendering never starts with a zero-valued unit and never ends with a
/// separator: for every positive `s` its first character is a non-zero
/// digit and its last character is not a space.
pub proof fn lemma_humanize_no_zero_unit(s: nat)
    requires
        s > 0,
    ensures
        humanize(s).len() > 0,
        humanize(s)[0] != '0',
        humanize(s)[0] != ' ',
        humanize(s).last() != ' ',
    decreases s,
{
    lemma_humanize_nonempty(s);
    if s < 60 {
        lemma_decimal_leading_digit(s);
    } else {
        let (unit, mark) = if s < 3600 { (60nat, 'm') } else { (3600nat, 'h') };
        let q = s / unit;
        let rest = s % unit;
        assert(q > 0);
        lemma_decimal_leading_digit(q);
        lemma_humanize_nonempty(rest);
        let head = decimal(q).push(mark);
        if rest == 0 {
            assert(humanize(s) == head + humanize(rest));
            assert(humanize(s)[0] == head[0]);
        } else {
            lemma_humanize_no_zero_unit(rest);
            let tail = seq![' '] + humanize(rest);
            assert(humanize(s) == head + tail);
            assert(humanize(s)[0] == head[0]);
            assert(humanize(s).last() == humanize(rest).last());
        }
    }
}

} // verus!
