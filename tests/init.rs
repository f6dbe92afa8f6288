use sprompt::{init_args, init_script, Shell};

#[test]
fn forwarded_flags() {
    assert_eq!("", init_args(false, false));
    assert_eq!(" -u", init_args(true, false));
    assert_eq!(" -p", init_args(false, true));
    assert_eq!(" -u -p", init_args(true, true));
}

#[test]
fn zsh_hook_keeps_prompt_time_expansions() {
    let s = init_script(&Shell::Zsh, true, false);
    assert!(s.starts_with("preexec() {"));
    assert!(s.contains("setopt PROMPT_SUBST"));
    assert!(s.ends_with(
        "PROMPT=\"\\$(sprompt prompt -e \"\\$?\" -s zsh --elapsed-seconds \"\\$(( SECONDS - _sprompt_last_seconds ))\" -u)\""
    ));
}

#[test]
fn bash_hook_uses_debug_trap() {
    let s = init_script(&Shell::Bash, false, true);
    assert!(s.starts_with("_sprompt_beforecmd() {"));
    assert!(s.contains("trap _sprompt_beforecmd DEBUG"));
    assert!(s.contains("--elapsed-seconds \"${_sprompt_elapsed_seconds:=0}\" -p\n}"));
    assert!(s.contains("PS1=\\ \n"));
    assert!(s.ends_with("PROMPT_COMMAND=_sprompt_aftercmd"));
}

#[test]
fn init_code_inserts_arguments() {
    let plain = Shell::Bash.init_code("");
    let with = Shell::Bash.init_code(" -u");
    assert_eq!(plain.len() + 3, with.len());
}
