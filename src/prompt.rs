//! Composition of the prompt line.

use vstd::prelude::*;

use crate::duration::{humanize, push_humanized};
use crate::escape::{Attribute, Color, Shell};
use crate::path::{abbreviate, abbreviated, PathMode};
use crate::text::{push_str, string_of};

verus! {

/// Commands that ran for fewer seconds than this show no duration.
pub const MIN_CMD_EXEC_SECS: u64 = 2;

/// What one rendering of the prompt is asked to show.
#[derive(PartialEq, Eq, Structural, Clone, Copy, Debug)]
pub struct PromptInvocation {
    /// Whether the last command failed.
    pub exit_code_nonzero: bool,
    /// How long the last command ran, in whole seconds.
    pub elapsed_secs: u64,
    /// Whether to draw the branch and separator symbols from Unicode.
    pub use_unicode: bool,
    /// Whether to show the working directory in its short form.
    pub use_short_path: bool,
    /// The shell that displays the prompt.
    pub shell: Shell,
}

impl PromptInvocation {
    /// The form of the working directory asked for: the whole path, or the
    /// short form, folded at the repository's root when its name is known.
    pub open spec fn mode_for(self, repo_root: Option<String>) -> PathMode {
        if !self.use_short_path {
            PathMode::Full
        } else {
            match repo_root {
                Some(root) => PathMode::ShortInRepo(root),
                None => PathMode::Short,
            }
        }
    }

    /// The form in which to show the working directory, given the name of
    /// the root of the repository it lies in, if any.
    pub fn path_mode(&self, repo_root: Option<String>) -> (r: PathMode)
        ensures
            r == self.mode_for(repo_root),
    {
        if !self.use_short_path {
            PathMode::Full
        } else {
            match repo_root {
                Some(root) => PathMode::ShortInRepo(root),
                None => PathMode::Short,
            }
        }
    }
}

/// The symbol in front of the branch name.
pub open spec fn branch_symbol(unicode: bool) -> Seq<char> {
    if unicode {
        "\u{e0a0} "@
    } else {
        Seq::empty()
    }
}

/// The symbol that ends the prompt.
pub open spec fn separator_symbol(unicode: bool) -> Seq<char> {
    if unicode {
        "\u{276f}"@
    } else {
        "::"@
    }
}

/// `root in `, in bold red, when the user is the superuser.
pub open spec fn root_clause(is_root: bool, shell: Shell) -> Seq<char> {
    if is_root {
        Attribute::Bold.sequence(shell) + Color::Red.sequence(false, shell) + "root"@
            + Attribute::Reset.sequence(shell) + " in "@
    } else {
        Seq::empty()
    }
}

/// The working directory, in bold cyan.
pub open spec fn path_clause(path: Seq<char>, shell: Shell) -> Seq<char> {
    Attribute::Bold.sequence(shell) + Color::Cyan.sequence(false, shell) + path + " "@
}

/// `on <branch>`, in bold magenta, when a branch is known.
pub open spec fn branch_clause(branch: Option<String>, unicode: bool, shell: Shell) -> Seq<char> {
    match branch {
        Some(b) => Attribute::Reset.sequence(shell) + "on "@ + Attribute::Bold.sequence(shell)
            + Color::Magenta.sequence(false, shell) + branch_symbol(unicode) + b@ + " "@,
        None => Seq::empty(),
    }
}

/// `took <duration>`, in yellow, for a command that ran long enough.
pub open spec fn duration_clause(secs: u64, shell: Shell) -> Seq<char> {
    if secs >= MIN_CMD_EXEC_SECS {
        Color::Yellow.sequence(false, shell) + "took "@ + humanize(secs as nat) + " "@
    } else {
        Seq::empty()
    }
}

/// The separator, green after a success and red after a failure, then a
/// reset; zsh also wants a space after it.
pub open spec fn status_clause(nonzero: bool, unicode: bool, shell: Shell) -> Seq<char> {
    let color = if nonzero { Color::Red } else { Color::Green };
    color.sequence(false, shell) + separator_symbol(unicode) + Attribute::Reset.sequence(shell)
        + if shell == Shell::Zsh { " "@ } else { Seq::empty() }
}

/// The prompt line for `inv`, shown in `path`, with `branch` checked out.
pub open spec fn prompt(
    inv: PromptInvocation,
    is_root: bool,
    path: Seq<char>,
    branch: Option<String>,
) -> Seq<char> {
    root_clause(is_root, inv.shell) + path_clause(path, inv.shell) + branch_clause(
        branch,
        inv.use_unicode,
        inv.shell,
    ) + duration_clause(inv.elapsed_secs, inv.shell) + status_clause(
        inv.exit_code_nonzero,
        inv.use_unicode,
        inv.shell,
    )
}

/// What the prompt shows for the working directory: its displayed form in
/// `mode`, or `??` when it is not known.
pub open spec fn shown_path(cwd: Option<&str>, mode: PathMode) -> Seq<char> {
    match cwd {
        Some(p) => abbreviated(p@, mode),
        None => "??"@,
    }
}

/// The working directory as the prompt shows it: `cwd` in `mode`, or `??`
/// when the working directory could not be determined.
pub fn display_path(cwd: Option<&str>, mode: &PathMode) -> (r: String)
    ensures
        r@ == shown_path(cwd, *mode),
{
    match cwd {
        Some(p) => abbreviate(p, mode),
        None => String::from_str("??"),
    }
}

fn push_root_clause(out: &mut Vec<char>, is_root: bool, shell: &Shell)
    ensures
        final(out)@ == old(out)@ + root_clause(is_root, *shell),
{
    if is_root {
        Attribute::Bold.push_to(out, shell);
        Color::Red.push_to(out, false, shell);
        push_str(out, "root");
        Attribute::Reset.push_to(out, shell);
        push_str(out, " in ");
    } else {
        assert(old(out)@ + root_clause(false, *shell) == old(out)@);
    }
}

fn push_path_clause(out: &mut Vec<char>, path: &str, shell: &Shell)
    ensures
        final(out)@ == old(out)@ + path_clause(path@, *shell),
{
    Attribute::Bold.push_to(out, shell);
    Color::Cyan.push_to(out, false, shell);
    push_str(out, path);
    push_str(out, " ");
}

fn push_branch_clause(out: &mut Vec<char>, branch: &Option<String>, unicode: bool, shell: &Shell)
    ensures
        final(out)@ == old(out)@ + branch_clause(*branch, unicode, *shell),
{
    match branch {
        Some(b) => {
            Attribute::Reset.push_to(out, shell);
            push_str(out, "on ");
            Attribute::Bold.push_to(out, shell);
            Color::Magenta.push_to(out, false, shell);
            let ghost before_symbol = out@;
            if unicode {
                push_str(out, "\u{e0a0} ");
            }
            assert(out@ == before_symbol + branch_symbol(unicode));
            push_str(out, b.as_str());
            push_str(out, " ");
        },
        None => {
            assert(old(out)@ + branch_clause(None, unicode, *shell) == old(out)@);
        },
    }
}

fn push_duration_clause(out: &mut Vec<char>, secs: u64, shell: &Shell)
    ensures
        final(out)@ == old(out)@ + duration_clause(secs, *shell),
{
    if secs >= MIN_CMD_EXEC_SECS {
        Color::Yellow.push_to(out, false, shell);
        push_str(out, "took ");
        push_humanized(out, secs);
        push_str(out, " ");
    } else {
        assert(old(out)@ + duration_clause(secs, *shell) == old(out)@);
    }
}

fn push_status_clause(out: &mut Vec<char>, nonzero: bool, unicode: bool, shell: &Shell)
    ensures
        final(out)@ == old(out)@ + status_clause(nonzero, unicode, *shell),
{
    if nonzero {
        Color::Red.push_to(out, false, shell);
    } else {
        Color::Green.push_to(out, false, shell);
    }
    if unicode {
        push_str(out, "\u{276f}");
    } else {
        push_str(out, "::");
    }
    Attribute::Reset.push_to(out, shell);
    let ghost before_space = out@;
    let zsh = match shell {
        Shell::Zsh => true,
        Shell::Bash => false,
    };
    if zsh {
        push_str(out, " ");
    }
    assert(out@ == before_space + if *shell == Shell::Zsh { " "@ } else { Seq::empty() });
}

/// The prompt line for `inv`: the superuser marker when `is_root`, the
/// displayed working directory `path`, the checked-out `branch` if any, the
/// duration of the last command when it reached the threshold, and the
/// separator colored by the last exit status.
pub fn render_prompt(
    inv: &PromptInvocation,
    is_root: bool,
    path: &str,
    branch: &Option<String>,
) -> (r: String)
    ensures
        r@ == prompt(*inv, is_root, path@, *branch),
{
    let mut out: Vec<char> = Vec::new();
    push_root_clause(&mut out, is_root, &inv.shell);
    push_path_clause(&mut out, path, &inv.shell);
    push_branch_clause(&mut out, branch, inv.use_unicode, &inv.shell);
    push_duration_clause(&mut out, inv.elapsed_secs, &inv.shell);
    push_status_clause(&mut out, inv.exit_code_nonzero, inv.use_unicode, &inv.shell);
    assert(out@ == prompt(*inv, is_root, path@, *branch));
    string_of(&out)
}

/// Rendering is a function of its inputs: the same invocation, identity,
/// path and branch always give the same line.
pub proof fn lemma_prompt_deterministic(
    a: PromptInvocation,
    b: PromptInvocation,
    is_root: bool,
    path: Seq<char>,
    branch: Option<String>,
)
    requires
        a == b,
    ensures
        prompt(a, is_root, path, branch) == prompt(b, is_root, path, branch),
{
}

} // verus!
