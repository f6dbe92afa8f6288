use sprompt::{display_path, render_prompt, PathMode, PromptInvocation, Shell};

fn invocation(nonzero: bool, elapsed: u64, unicode: bool, shell: Shell) -> PromptInvocation {
    PromptInvocation {
        exit_code_nonzero: nonzero,
        elapsed_secs: elapsed,
        use_unicode: unicode,
        use_short_path: false,
        shell,
    }
}

#[test]
fn scenario_home_success_no_repo() {
    let inv = invocation(false, 0, false, Shell::Bash);
    let path = display_path(Some("/home/alice"), &PathMode::Full);
    let out = render_prompt(&inv, false, &path, &None);
    assert!(out.contains("\u{1b}[1m\u{1b}[36m~ "));
    assert!(out.contains("\u{1b}[32m::"));
    assert!(!out.contains("on "));
    assert!(!out.contains("took"));
    assert_eq!("\u{1b}[1m\u{1b}[36m~ \u{1b}[32m::\u{1b}[0m", out);
}

#[test]
fn scenario_failure_with_branch_and_duration() {
    let inv = invocation(true, 125, false, Shell::Bash);
    let out = render_prompt(&inv, false, "~/code", &Some("main".to_string()));
    assert!(out.contains("\u{1b}[31m::"));
    assert!(out.contains("took 2m 5s "));
    assert!(out.contains("on \u{1b}[1m\u{1b}[35mmain "));
    assert!(!out.contains('\u{e0a0}'));
    assert_eq!(
        "\u{1b}[1m\u{1b}[36m~/code \u{1b}[0mon \u{1b}[1m\u{1b}[35mmain \u{1b}[33mtook 2m 5s \u{1b}[31m::\u{1b}[0m",
        out
    );
}

#[test]
fn rendering_twice_gives_the_same_line() {
    let inv = invocation(true, 3601, true, Shell::Zsh);
    let branch = Some("dev".to_string());
    let a = render_prompt(&inv, true, "repo/src", &branch);
    let b = render_prompt(&inv, true, "repo/src", &branch);
    assert_eq!(a, b);
}

#[test]
fn zsh_unicode_root_prompt() {
    let inv = invocation(false, 2, true, Shell::Zsh);
    let out = render_prompt(&inv, true, "/etc", &Some("main".to_string()));
    assert_eq!(
        "%{\u{1b}[1m%}%{\u{1b}[31m%}root%{\u{1b}[0m%} in \
         %{\u{1b}[1m%}%{\u{1b}[36m%}/etc \
         %{\u{1b}[0m%}on %{\u{1b}[1m%}%{\u{1b}[35m%}\u{e0a0} main \
         %{\u{1b}[33m%}took 2s \
         %{\u{1b}[32m%}\u{276f}%{\u{1b}[0m%} ",
        out
    );
}

#[test]
fn short_commands_show_no_duration() {
    let inv = invocation(false, 1, false, Shell::Bash);
    let out = render_prompt(&inv, false, "/", &None);
    assert!(!out.contains("took"));
    let inv = invocation(false, 2, false, Shell::Bash);
    let out = render_prompt(&inv, false, "/", &None);
    assert!(out.contains("took 2s "));
}
