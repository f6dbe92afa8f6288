//! The scripts that hook the prompt into a shell: each runs the prompt
//! command before every prompt, with the last exit status and the time the
//! last command took.

use vstd::prelude::*;

use crate::escape::Shell;
use crate::text::{push_str, string_of};

verus! {

/// zsh's hook up to the forwarded flags. `preexec` notes when a command
/// starts; `precmd` restarts the clock when no command ran (the first prompt
/// and redraws), so that those prompts show no duration. The `\$` are
/// expanded by zsh at each prompt, not when the script is read.
pub const ZSH_INIT_HEAD: &'static str = r#"preexec() {
    _sprompt_preexec_ran=true
    _sprompt_last_seconds="$SECONDS"
}
precmd() {
    if [ "$_sprompt_preexec_ran" != true ]; then
        _sprompt_last_seconds="$SECONDS"
    fi
    _sprompt_preexec_ran=false
}
setopt PROMPT_SUBST
PROMPT="\$(sprompt prompt -e "\$?" -s zsh --elapsed-seconds "\$(( SECONDS - _sprompt_last_seconds ))""#;

/// zsh's hook after the forwarded flags.
pub const ZSH_INIT_TAIL: &'static str = r#")""#;

/// bash's hook up to the forwarded flags. The DEBUG trap fires before every
/// simple command; a flag that only the prompt resets keeps the first firing
/// of each command line. The first prompt of a session shows no duration.
pub const BASH_INIT_HEAD: &'static str = r#"_sprompt_beforecmd() {
    [ "${_sprompt_beforecmd_ran:=false}" = true ] && return
    _sprompt_beforecmd_ran=true
    _sprompt_last_seconds="$SECONDS"
}
trap _sprompt_beforecmd DEBUG

_sprompt_aftercmd() {
    STATUS="$?"
    if [ "${_sprompt_aftercmd_first_run:=true}" = true ]; then
        _sprompt_aftercmd_first_run=false
    else
        _sprompt_beforecmd_ran=false
        if [ "$_sprompt_last_seconds" -eq 0 ]; then
            _sprompt_last_seconds="$SECONDS"
        fi
        _sprompt_elapsed_seconds="$(( SECONDS - _sprompt_last_seconds ))"
    fi
    sprompt prompt -e "$STATUS" -s bash --elapsed-seconds "${_sprompt_elapsed_seconds:=0}""#;

/// bash's hook after the forwarded flags.
pub const BASH_INIT_TAIL: &'static str = r#"
}
# If PS1 is completely empty, pressing the <enter> key doesn't work.
PS1=\ 
PROMPT_COMMAND=_sprompt_aftercmd"#;

/// The flags that the hook forwards to every run of the prompt command:
/// ` -u` for Unicode symbols, then ` -p` for the short path.
pub open spec fn forwarded_flags(unicode: bool, short_path: bool) -> Seq<char> {
    (if unicode { " -u"@ } else { Seq::empty() }) + (if short_path { " -p"@ } else { Seq::empty() })
}

impl Shell {
    /// The hook script for this shell, forwarding `args` to every run.
    pub open spec fn init_text(self, args: Seq<char>) -> Seq<char> {
        match self {
            Shell::Zsh => ZSH_INIT_HEAD@ + args + ZSH_INIT_TAIL@,
            Shell::Bash => BASH_INIT_HEAD@ + args + BASH_INIT_TAIL@,
        }
    }

    /// The hook script for this shell, which passes `args` on to every run
    /// of the prompt command.
    pub fn init_code(&self, args: &str) -> (r: String)
        ensures
            r@ == self.init_text(args@),
    {
        let mut out: Vec<char> = Vec::new();
        match self {
            Shell::Zsh => {
                push_str(&mut out, ZSH_INIT_HEAD);
                push_str(&mut out, args);
                push_str(&mut out, ZSH_INIT_TAIL);
            },
            Shell::Bash => {
                push_str(&mut out, BASH_INIT_HEAD);
                push_str(&mut out, args);
                push_str(&mut out, BASH_INIT_TAIL);
            },
        }
        string_of(&out)
    }
}

/// The flags to forward: ` -u` when `unicode`, then ` -p` when `short_path`.
pub fn init_args(unicode: bool, short_path: bool) -> (r: String)
    ensures
        r@ == forwarded_flags(unicode, short_path),
{
    let mut out: Vec<char> = Vec::new();
    if unicode {
        push_str(&mut out, " -u");
    }
    let ghost mid = out@;
    if short_path {
        push_str(&mut out, " -p");
    }
    assert(mid == if unicode { " -u"@ } else { Seq::<char>::empty() });
    assert(out@ == mid + if short_path { " -p"@ } else { Seq::<char>::empty() });
    string_of(&out)
}

/// The hook script for `shell`, forwarding the flags that were chosen.
pub fn init_script(shell: &Shell, unicode: bool, short_path: bool) -> (r: String)
    ensures
        r@ == shell.init_text(forwarded_flags(unicode, short_path)),
{
    let args = init_args(unicode, short_path);
    shell.init_code(args.as_str())
}

} // verus!
