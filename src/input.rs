//! Validation of the values given on the command line.

use vstd::prelude::*;

use crate::escape::Shell;
use crate::text::{chars_of, same_chars};

verus! {

/// Whether `c` is one of the ASCII digits `0`..`9`.
pub open spec fn is_digit(c: char) -> bool {
    48 <= c as u32 <= 57
}

/// The number written by the decimal digits `d`.
pub open spec fn digits_value(d: Seq<char>) -> nat
    decreases d.len(),
{
    if d.len() == 0 {
        0
    } else {
        digits_value(d.drop_last()) * 10 + (d.last() as u32 - 48) as nat
    }
}

/// `s` without one leading `+`.
pub open spec fn unsigned_part(s: Seq<char>) -> Seq<char> {
    if s.len() > 0 && s[0] == '+' {
        s.skip(1)
    } else {
        s
    }
}

/// Whether `s` writes a count of seconds: an optional `+`, then one or more
/// decimal digits, whose value fits in 64 bits.
pub open spec fn is_count(s: Seq<char>) -> bool {
    let d = unsigned_part(s);
    &&& d.len() > 0
    &&& forall|i: int| 0 <= i < d.len() ==> is_digit(#[trigger] d[i])
    &&& digits_value(d) <= u64::MAX
}

/// A longer prefix of a digit string never has a smaller value.
proof fn lemma_digits_value_grows(d: Seq<char>, j: int)
    requires
        0 <= j <= d.len(),
        forall|i: int| 0 <= i < d.len() ==> is_digit(#[trigger] d[i]),
    ensures
        digits_value(d.take(j)) <= digits_value(d),
    decreases d.len() - j,
{
    if j < d.len() {
        lemma_digits_value_grows(d, j + 1);
        assert(d.take(j + 1).drop_last() == d.take(j));
    } else {
        assert(d.take(j) == d);
    }
}

/// The count of seconds written in `s`, or `None` when `s` writes none.
pub fn parse_seconds(s: &str) -> (r: Option<u64>)
    ensures
        r is Some <==> is_count(s@),
        r is Some ==> r->0 == digits_value(unsigned_part(s@)),
{
    let cs = chars_of(s);
    let start: usize = if cs.len() > 0 && cs[0] == '+' { 1 } else { 0 };
    let ghost d = unsigned_part(s@);
    assert(d == cs@.skip(start as int));
    if start >= cs.len() {
        return None;
    }
    let mut value: u64 = 0;
    let mut i: usize = start;
    assert(d.take(0) == Seq::<char>::empty());
    while i < cs.len()
        invariant
            start <= i <= cs@.len(),
            d == cs@.skip(start as int),
            d == unsigned_part(s@),
            forall|j: int| 0 <= j < i - start ==> is_digit(#[trigger] d[j]),
            value == digits_value(d.take(i - start)),
        decreases cs@.len() - i,
    {
        let c = cs[i];
        let ghost pre = d.take(i - start);
        assert(d.take(i + 1 - start).drop_last() == pre);
        assert(d.take(i + 1 - start).last() == c);
        assert(d[i - start] == c);
        if !(48 <= c as u32 && c as u32 <= 57) {
            assert(!is_digit(d[i - start]));
            return None;
        }
        let digit = (c as u32 - 48) as u64;
        if value > (u64::MAX - digit) / 10 {
            proof {
                assert(value * 10 + digit > u64::MAX) by (nonlinear_arith)
                    requires
                        value > (u64::MAX - digit) / 10,
                        digit <= 9,
                ;
                assert(digits_value(d.take(i + 1 - start)) == value * 10 + digit);
                if forall|j: int| 0 <= j < d.len() ==> is_digit(#[trigger] d[j]) {
                    lemma_digits_value_grows(d, i + 1 - start);
                }
            }
            return None;
        }
        proof {
            assert(value * 10 + digit <= u64::MAX) by (nonlinear_arith)
                requires
                    value <= (u64::MAX - digit) / 10,
                    digit <= 9,
            ;
        }
        value = value * 10 + digit;
        i = i + 1;
    }
    assert(d.take(d.len() as int) == d);
    Some(value)
}

/// Accepts an elapsed time in whole seconds; refuses anything else with a
/// message for the user.
pub fn elapsed_seconds_validator(s: String) -> (r: Result<(), String>)
    ensures
        r is Ok <==> is_count(s@),
        r matches Err(msg) ==> msg@ == "The argument must be a valid positive integer"@,
{
    match parse_seconds(s.as_str()) {
        Some(_) => Ok(()),
        None => Err(String::from_str("The argument must be a valid positive integer")),
    }
}

/// Whether an exit code, as the shell reports it, stands for a failure:
/// anything but `0`.
pub fn exit_code_nonzero(code: &str) -> (r: bool)
    ensures
        r == (code@ != seq!['0']),
{
    let zero: Vec<char> = vec!['0'];
    assert(zero@ == seq!['0']);
    !same_chars(&chars_of(code), &zero)
}

impl Shell {
    /// The name by which the command line selects this shell.
    pub open spec fn name(self) -> Seq<char> {
        match self {
            Shell::Zsh => seq!['z', 's', 'h'],
            Shell::Bash => seq!['b', 'a', 's', 'h'],
        }
    }

    /// The shell named `s`, if it is one of the supported ones.
    pub fn from_name(s: &str) -> (r: Option<Shell>)
        ensures
            r matches Some(sh) ==> sh.name() == s@,
            r is None <==> (s@ != Shell::Zsh.name() && s@ != Shell::Bash.name()),
    {
        let cs = chars_of(s);
        let zsh: Vec<char> = vec!['z', 's', 'h'];
        let bash: Vec<char> = vec!['b', 'a', 's', 'h'];
        if same_chars(&cs, &zsh) {
            Some(Shell::Zsh)
        } else if same_chars(&cs, &bash) {
            Some(Shell::Bash)
        } else {
            None
        }
    }
}

/// The shell whose name is `s`, or an error.
pub open spec fn shell_named(s: Seq<char>) -> Result<Shell, ()> {
    if s == Shell::Zsh.name() {
        Ok(Shell::Zsh)
    } else if s == Shell::Bash.name() {
        Ok(Shell::Bash)
    } else {
        Err(())
    }
}

impl<'a> vstd::std_specs::convert::TryFromSpecImpl<&'a str> for Shell {
    open spec fn obeys_try_from_spec() -> bool {
        true
    }

    open spec fn try_from_spec(s: &'a str) -> Result<Shell, ()> {
        shell_named(s@)
    }
}

impl<'a> TryFrom<&'a str> for Shell {
    type Error = ();

    /// The shell named `s`; an error for any other name.
    fn try_from(s: &'a str) -> (r: Result<Shell, ()>)
        ensures
            r == shell_named(s@),
    {
        match Shell::from_name(s) {
            Some(sh) => Ok(sh),
            None => Err(()),
        }
    }
}

} // verus!
