//! The escape sequences that select colors and text attributes, in the form
//! that each supported shell expects inside its prompt variable.

use vstd::prelude::*;

use crate::duration::{digit_char, push_decimal};
use crate::text::string_of;

verus! {

/// The shell that displays the prompt.
#[derive(PartialEq, Eq, Structural, Clone, Copy, Debug)]
pub enum Shell {
    /// Needs every non-printing sequence inside `%{ ... %}`.
    Zsh,
    /// Takes the bare control sequences.
    Bash,
}

/// One of the eight base colors of the terminal.
#[derive(PartialEq, Eq, Structural, Clone, Copy, Debug)]
pub enum Color {
    Black,
    Red,
    Green,
    Yellow,
    Blue,
    Magenta,
    Cyan,
    White,
}

/// A text attribute.
#[derive(PartialEq, Eq, Structural, Clone, Copy, Debug)]
pub enum Attribute {
    Reset,
    Bold,
    Underline,
    Reversed,
}

/// `seq` as the shell must see it: wrapped in zsh's zero-width markers,
/// bare for bash.
pub open spec fn for_shell(shell: Shell, seq: Seq<char>) -> Seq<char> {
    match shell {
        Shell::Zsh => seq!['%', '{'] + seq + seq!['%', '}'],
        Shell::Bash => seq,
    }
}

/// The control sequence `ESC [ params m`.
pub open spec fn sgr(params: Seq<char>) -> Seq<char> {
    seq!['\u{1b}', '['] + params + seq!['m']
}

impl Color {
    /// The color's number in the terminal's palette.
    pub open spec fn index(self) -> nat {
        match self {
            Color::Black => 0,
            Color::Red => 1,
            Color::Green => 2,
            Color::Yellow => 3,
            Color::Blue => 4,
            Color::Magenta => 5,
            Color::Cyan => 6,
            Color::White => 7,
        }
    }

    /// The sequence that selects this color, in its bright form when
    /// `bright` holds, for `shell`.
    pub open spec fn sequence(self, bright: bool, shell: Shell) -> Seq<char> {
        let params = seq!['3', digit_char(self.index())]
            + if bright { seq![';', '1'] } else { Seq::empty() };
        for_shell(shell, sgr(params))
    }

    fn palette_index(&self) -> (r: u64)
        ensures
            r == self.index(),
    {
        match self {
            Color::Black => 0,
            Color::Red => 1,
            Color::Green => 2,
            Color::Yellow => 3,
            Color::Blue => 4,
            Color::Magenta => 5,
            Color::Cyan => 6,
            Color::White => 7,
        }
    }

    /// Appends the sequence of this color to `out`.
    pub(crate) fn push_to(&self, out: &mut Vec<char>, bright: bool, shell: &Shell)
        ensures
            final(out)@ == old(out)@ + self.sequence(bright, *shell),
    {
        let mut params: Vec<char> = Vec::new();
        params.push('3');
        push_decimal(&mut params, self.palette_index());
        if bright {
            params.push(';');
            params.push('1');
        }
        assert(params@ == seq!['3', digit_char(self.index())]
            + if bright { seq![';', '1'] } else { Seq::<char>::empty() });
        push_sequence(out, shell, &params);
    }

    /// The sequence that selects this color for `shell`.
    pub fn to_str(&self, bright: bool, shell: &Shell) -> (r: String)
        ensures
            r@ == self.sequence(bright, *shell),
    {
        let mut out: Vec<char> = Vec::new();
        self.push_to(&mut out, bright, shell);
        string_of(&out)
    }
}

impl Attribute {
    /// The attribute's parameter in the control sequence.
    pub open spec fn code(self) -> nat {
        match self {
            Attribute::Reset => 0,
            Attribute::Bold => 1,
            Attribute::Underline => 4,
            Attribute::Reversed => 7,
        }
    }

    /// The sequence that turns this attribute on (or, for `Reset`, all of
    /// them off) for `shell`.
    pub open spec fn sequence(self, shell: Shell) -> Seq<char> {
        for_shell(shell, sgr(seq![digit_char(self.code())]))
    }

    fn param(&self) -> (r: u64)
        ensures
            r == self.code(),
    {
        match self {
            Attribute::Reset => 0,
            Attribute::Bold => 1,
            Attribute::Underline => 4,
            Attribute::Reversed => 7,
        }
    }

    /// Appends the sequence of this attribute to `out`.
    pub(crate) fn push_to(&self, out: &mut Vec<char>, shell: &Shell)
        ensures
            final(out)@ == old(out)@ + self.sequence(*shell),
    {
        let mut params: Vec<char> = Vec::new();
        push_decimal(&mut params, self.param());
        assert(params@ == seq![digit_char(self.code())]);
        push_sequence(out, shell, &params);
    }

    /// The sequence of this attribute for `shell`.
    pub fn to_str(&self, shell: &Shell) -> (r: String)
        ensures
            r@ == self.sequence(*shell),
    {
        let mut out: Vec<char> = Vec::new();
        self.push_to(&mut out, shell);
        string_of(&out)
    }
}

/// Appends `ESC [ params m`, wrapped as `shell` needs it, to `out`.
fn push_sequence(out: &mut Vec<char>, shell: &Shell, params: &Vec<char>)
    ensures
        final(out)@ == old(out)@ + for_shell(*shell, sgr(params@)),
{
    let ghost start = out@;
    let zsh = match shell {
        Shell::Zsh => true,
        Shell::Bash => false,
    };
    if zsh {
        out.push('%');
        out.push('{');
    }
    out.push('\u{1b}');
    out.push('[');
    crate::text::push_chars(out, params);
    out.push('m');
    if zsh {
        out.push('%');
        out.push('}');
    }
    assert(out@ == start + for_shell(*shell, sgr(params@)));
}

} // verus!
