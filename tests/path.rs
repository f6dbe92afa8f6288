use sprompt::{abbreviate, display_path, PathMode, PromptInvocation, Shell};

fn in_repo(root: &str) -> PathMode {
    PathMode::ShortInRepo(root.to_string())
}

#[test]
fn home_directory_becomes_tilde() {
    assert_eq!("~", abbreviate("/home/alice", &PathMode::Full));
    assert_eq!("~/", abbreviate("/home/alice/", &PathMode::Full));
    assert_eq!("~/projects/app", abbreviate("/home/alice/projects/app", &PathMode::Full));
}

#[test]
fn home_substitution_starts_with_tilde_and_hides_prefix() {
    for p in ["/home/bob", "/home/bob/a", "/home/bob/a/b/c/d", "/home/x/y"] {
        let r = abbreviate(p, &PathMode::Full);
        assert!(r.starts_with('~'), "{}", r);
        assert!(!r.contains("/home/"), "{}", r);
    }
}

#[test]
fn paths_outside_home_stay_whole() {
    assert_eq!("/usr/local/bin", abbreviate("/usr/local/bin", &PathMode::Full));
    assert_eq!("/homework/x", abbreviate("/homework/x", &PathMode::Full));
    assert_eq!("/", abbreviate("/", &PathMode::Full));
}

#[test]
fn short_keeps_last_three_segments() {
    assert_eq!("local/share/doc", abbreviate("/usr/local/share/doc", &PathMode::Short));
    assert_eq!("a/b/c", abbreviate("/home/alice/a/b/c", &PathMode::Short));
    assert_eq!("~/a/b", abbreviate("/home/alice/a/b", &PathMode::Short));
}

#[test]
fn short_with_few_segments_keeps_them_all() {
    assert_eq!("/usr", abbreviate("/usr", &PathMode::Short));
    assert_eq!("/", abbreviate("/", &PathMode::Short));
    assert_eq!("~", abbreviate("/home/alice", &PathMode::Short));
    assert_eq!("~/x", abbreviate("/home/alice/x", &PathMode::Short));
    assert_eq!("/usr", abbreviate("/usr", &in_repo("usr")));
    assert_eq!("~/repo", abbreviate("/home/alice/repo", &in_repo("repo")));
    assert_eq!("~", abbreviate("/home/alice", &in_repo("~")));
}

#[test]
fn short_in_repo_drops_one_when_middle_is_root() {
    assert_eq!("repo/src", abbreviate("/home/alice/code/repo/src", &in_repo("repo")));
}

#[test]
fn short_in_repo_drops_two_when_first_is_root() {
    assert_eq!("lib", abbreviate("/srv/repo/src/lib", &in_repo("repo")));
}

#[test]
fn short_in_repo_without_match_keeps_three() {
    assert_eq!("a/b/c", abbreviate("/srv/a/b/c", &in_repo("repo")));
}

#[test]
fn unknown_directory_shows_marker() {
    assert_eq!("??", display_path(None, &PathMode::Full));
    assert_eq!("~/x", display_path(Some("/home/alice/x"), &PathMode::Full));
}

#[test]
fn path_mode_follows_flag_and_repository() {
    let mut inv = PromptInvocation {
        exit_code_nonzero: false,
        elapsed_secs: 0,
        use_unicode: false,
        use_short_path: false,
        shell: Shell::Bash,
    };
    assert!(matches!(inv.path_mode(Some("repo".to_string())), PathMode::Full));
    inv.use_short_path = true;
    assert!(matches!(inv.path_mode(None), PathMode::Short));
    assert!(matches!(
        inv.path_mode(Some("repo".to_string())),
        PathMode::ShortInRepo(ref r) if r == "repo"
    ));
}
