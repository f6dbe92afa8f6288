use sprompt::{
    branch_from, branch_from_head_file, branch_name_from_ref, dir_name, head_state_of, Git,
    HeadState,
};

#[test]
fn unborn_head_file_names_branch() {
    assert_eq!(Some("dev".to_string()), branch_from_head_file("ref: refs/heads/dev"));
    assert_eq!(Some("dev".to_string()), branch_from_head_file("ref: refs/heads/dev\n"));
}

#[test]
fn head_file_is_trimmed_and_only_first_line_counts() {
    assert_eq!(
        Some("main".to_string()),
        branch_from_head_file("  ref: refs/heads/main \r\nother/line\n")
    );
    assert_eq!(None, branch_from_head_file(""));
    assert_eq!(Some("".to_string()), branch_from_head_file("\n"));
}

#[test]
fn last_segment_of_reference() {
    assert_eq!("dev", branch_name_from_ref("ref: refs/heads/dev"));
    assert_eq!("x", branch_name_from_ref("x"));
    assert_eq!("", branch_name_from_ref("refs/heads/"));
}

#[test]
fn branch_resolution() {
    assert_eq!(
        Some("main".to_string()),
        branch_from(HeadState::Resolved(Some("main".to_string())), None)
    );
    assert_eq!(None, branch_from(HeadState::Resolved(None), None));
    assert_eq!(
        Some("dev".to_string()),
        branch_from(HeadState::Unborn, Some("ref: refs/heads/dev\n"))
    );
    assert_eq!(None, branch_from(HeadState::Unborn, None));
    assert_eq!(None, branch_from(HeadState::Unavailable, Some("ref: refs/heads/dev")));
    assert!(HeadState::Unborn.needs_head_file());
    assert!(!HeadState::Unavailable.needs_head_file());
}

#[test]
fn repository_directory_names() {
    assert_eq!(Some("repo".to_string()), dir_name("/home/alice/repo/"));
    assert_eq!(Some("repo".to_string()), dir_name("/home/alice/repo"));
    assert_eq!(Some("repo".to_string()), dir_name("/srv/repo/."));
    assert_eq!(None, dir_name("/srv/repo/.."));
    assert_eq!(None, dir_name("/"));
}

#[test]
fn head_outcomes_are_classified() {
    assert!(matches!(
        head_state_of(Ok(Some("main".to_string()))),
        HeadState::Resolved(Some(ref n)) if n == "main"
    ));
    assert!(matches!(head_state_of(Ok(None)), HeadState::Resolved(None)));
    assert!(matches!(
        head_state_of(Err(git2::ErrorCode::UnbornBranch)),
        HeadState::Unborn
    ));
    assert!(matches!(
        head_state_of(Err(git2::ErrorCode::NotFound)),
        HeadState::Unavailable
    ));
    assert!(matches!(
        head_state_of(Err(git2::ErrorCode::GenericError)),
        HeadState::Unavailable
    ));
}

#[test]
fn head_file_trims_unicode_white_space() {
    assert_eq!(
        Some("x".to_string()),
        branch_from_head_file("\u{3000}\tref: refs/heads/x\u{a0}\u{2029}")
    );
    assert_eq!(Some("a\u{200b}".to_string()), branch_from_head_file("ref: refs/heads/a\u{200b}"));
}

#[test]
fn failed_discovery_gives_no_repository() {
    let failed = Err(git2::Error::from_str("could not find repository"));
    assert!(Git::new(failed).is_none());
}
