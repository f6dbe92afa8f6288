//! The git context of the working directory: the branch checked out and
//! the name of the repository's root directory.

use vstd::prelude::*;

use crate::path::{first_index_of, split, split_segments, views};
use crate::text::{chars_of, push_chars, string_of};

verus! {

/// `std::path::PathBuf`, carried through opaque.
#[verifier::external_type_specification]
#[verifier::external_body]
pub struct ExPathBuf(std::path::PathBuf);

/// `git2::Repository`, carried through opaque.
#[verifier::external_type_specification]
#[verifier::external_body]
pub struct ExRepository(git2::Repository);

/// `git2::Error`, carried through opaque.
#[verifier::external_type_specification]
#[verifier::external_body]
pub struct ExGitError(git2::Error);

/// `git2::Reference`, carried through opaque.
#[verifier::external_type_specification]
#[verifier::external_body]
pub struct ExReference<'repo>(git2::Reference<'repo>);

/// `git2::ErrorCode`, a public enum of unit variants, declared with its
/// variants so that the failure kinds can be told apart by `match`.
#[verifier::external_type_specification]
pub struct ExErrorCode(git2::ErrorCode);

/// Relies on `git2::Repository::head`: resolves HEAD; what it finds depends
/// on the repository on disk.
pub assume_specification[ git2::Repository::head ](repo: &git2::Repository) -> Result<
    git2::Reference<'_>,
    git2::Error,
>;

/// Relies on `git2::Reference::shorthand`: the reference's short name,
/// none when that name is not UTF-8.
#[verifier::external_body]
fn shorthand(r: &git2::Reference<'_>) -> (name: Option<String>) {
    r.shorthand().ok().map(str::to_string)
}

/// Relies on `git2::Error::code`: the kind of failure.
pub assume_specification[ git2::Error::code ](e: &git2::Error) -> git2::ErrorCode;

/// Relies on `git2::Repository::discover`: opens the repository at or above
/// `dir`, if there is one.
#[verifier::external_body]
fn discover(dir: &std::path::PathBuf) -> (r: Result<git2::Repository, git2::Error>) {
    git2::Repository::discover(dir)
}

/// Relies on `git2::Repository::workdir`: the working directory of the
/// repository (none for a bare one), as text when it is valid UTF-8.
#[verifier::external_body]
fn workdir(repo: &git2::Repository) -> (r: Option<String>) {
    repo.workdir()?.to_str().map(str::to_string)
}

/// Whether `c` has the Unicode property White_Space.
pub open spec fn is_white_space(c: char) -> bool {
    let u = c as u32;
    ||| 9 <= u <= 13
    ||| u == 32
    ||| u == 0x85
    ||| u == 0xa0
    ||| u == 0x1680
    ||| 0x2000 <= u <= 0x200a
    ||| u == 0x2028
    ||| u == 0x2029
    ||| u == 0x202f
    ||| u == 0x205f
    ||| u == 0x3000
}

/// `s` without its leading whitespace.
pub open spec fn trim_start(s: Seq<char>) -> Seq<char>
    decreases s.len(),
{
    if s.len() > 0 && is_white_space(s[0]) {
        trim_start(s.drop_first())
    } else {
        s
    }
}

/// `s` without its trailing whitespace.
pub open spec fn trim_end(s: Seq<char>) -> Seq<char>
    decreases s.len(),
{
    if s.len() > 0 && is_white_space(s.last()) {
        trim_end(s.drop_last())
    } else {
        s
    }
}

/// `s` without its leading and trailing whitespace.
pub open spec fn trimmed(s: Seq<char>) -> Seq<char> {
    trim_end(trim_start(s))
}

/// Whether `c` has the Unicode property White_Space.
fn white_space(c: char) -> (r: bool)
    ensures
        r == is_white_space(c),
{
    let u = c as u32;
    (9 <= u && u <= 13) || u == 32 || u == 0x85 || u == 0xa0 || u == 0x1680 || (0x2000 <= u && u
        <= 0x200a) || u == 0x2028 || u == 0x2029 || u == 0x202f || u == 0x205f || u == 0x3000
}

/// `s` without the leading and trailing characters that have the Unicode
/// property White_Space, as `str::trim` defines it.
fn trim(s: &str) -> (r: String)
    ensures
        r@ == trimmed(s@),
{
    let cs = chars_of(s);
    let mut i: usize = 0;
    assert(cs@.skip(0) == cs@);
    while i < cs.len() && white_space(cs[i])
        invariant
            i <= cs@.len(),
            cs@ == s@,
            trim_start(s@) == trim_start(cs@.skip(i as int)),
        decreases cs@.len() - i,
    {
        assert(cs@.skip(i as int).drop_first() == cs@.skip(i + 1));
        i = i + 1;
    }
    assert(trim_start(s@) == cs@.skip(i as int));
    let mut j: usize = cs.len();
    assert(cs@.subrange(i as int, j as int) == cs@.skip(i as int));
    while j > i && white_space(cs[j - 1])
        invariant
            i <= j <= cs@.len(),
            cs@ == s@,
            trimmed(s@) == trim_end(cs@.subrange(i as int, j as int)),
        decreases j - i,
    {
        assert(cs@.subrange(i as int, j as int).drop_last() == cs@.subrange(i as int, j - 1));
        j = j - 1;
    }
    let mut out: Vec<char> = Vec::new();
    let mut k: usize = i;
    while k < j
        invariant
            i <= k <= j <= cs@.len(),
            out@ == cs@.subrange(i as int, k as int),
        decreases j - k,
    {
        out.push(cs[k]);
        k = k + 1;
        assert(cs@.subrange(i as int, k as int) == cs@.subrange(i as int, k - 1).push(
            cs@[k - 1],
        ));
    }
    assert(trimmed(s@) == cs@.subrange(i as int, j as int));
    string_of(&out)
}

/// What resolving HEAD gave.
#[derive(Debug)]
pub enum HeadState {
    /// HEAD names a commit; the short name of its reference, when that is
    /// valid text.
    Resolved(Option<String>),
    /// HEAD names a branch without commits yet.
    Unborn,
    /// HEAD could not be resolved for another reason.
    Unavailable,
}

/// The view of an optional string.
pub open spec fn opt_view(o: Option<String>) -> Option<Seq<char>> {
    match o {
        Some(s) => Some(s@),
        None => None,
    }
}

/// The first line of `s`: everything before the first line feed.
pub open spec fn first_line(s: Seq<char>) -> Seq<char> {
    match first_index_of(s, '\n') {
        Some(i) => s.take(i),
        None => s,
    }
}

/// The last `/`-separated segment of `s`.
pub open spec fn last_segment(s: Seq<char>) -> Seq<char> {
    split(s).last()
}

/// The branch named by the contents of a HEAD file: the last segment of its
/// first line, trimmed; none for an empty file.
pub open spec fn head_file_branch(contents: Seq<char>) -> Option<Seq<char>> {
    if contents.len() == 0 {
        None
    } else {
        Some(last_segment(trimmed(first_line(contents))))
    }
}

/// The branch that a HEAD in `state` shows, with `head_file` the contents
/// of the HEAD file when it was read.
pub open spec fn resolved_branch(state: HeadState, head_file: Option<&str>) -> Option<Seq<char>> {
    match state {
        HeadState::Resolved(name) => opt_view(name),
        HeadState::Unborn => match head_file {
            Some(c) => head_file_branch(c@),
            None => None,
        },
        HeadState::Unavailable => None,
    }
}

/// The final component of a path, as `Path::file_name` gives it on Unix:
/// empty and `.` segments are passed over, and a path that ends in `..`
/// has none.
pub open spec fn final_name(segs: Seq<Seq<char>>) -> Option<Seq<char>>
    decreases segs.len(),
{
    if segs.len() == 0 {
        None
    } else {
        let l = segs.last();
        if l.len() == 0 || l == seq!['.'] {
            final_name(segs.drop_last())
        } else if l == seq!['.', '.'] {
            None
        } else {
            Some(l)
        }
    }
}

/// The last `/`-separated segment of `line`: for a HEAD line
/// `ref: refs/heads/<branch>` that is the branch.
pub fn branch_name_from_ref(line: &str) -> (r: String)
    ensures
        r@ == last_segment(line@),
{
    let segs = split_segments(&chars_of(line));
    proof {
        crate::path::lemma_join_split(line@);
    }
    let last = segs.len() - 1;
    string_of(&segs[last])
}

/// The branch named by the contents of a HEAD file: the last segment of its
/// first line, with surrounding whitespace removed; none for an empty file.
pub fn branch_from_head_file(contents: &str) -> (r: Option<String>)
    ensures
        opt_view(r) == head_file_branch(contents@),
{
    let cs = chars_of(contents);
    if cs.len() == 0 {
        return None;
    }
    let mut i: usize = 0;
    assert(cs@.skip(0) == cs@);
    while i < cs.len() && cs[i] != '\n'
        invariant
            i <= cs@.len(),
            cs@ == contents@,
            first_index_of(cs@, '\n') == crate::path::shifted(
                first_index_of(cs@.skip(i as int), '\n'),
                i as int,
            ),
        decreases cs@.len() - i,
    {
        proof {
            let t = cs@.skip(i as int);
            assert(t.drop_first() == cs@.skip(i + 1));
        }
        i = i + 1;
    }
    proof {
        let t = cs@.skip(i as int);
        if i < cs@.len() {
            assert(t[0] == '\n');
        } else {
            assert(t.len() == 0);
            assert(cs@.take(i as int) == cs@);
        }
        assert(first_line(contents@) == cs@.take(i as int));
    }
    let line = contents.substring_char(0, i);
    let trimmed_line = trim(line);
    Some(branch_name_from_ref(trimmed_line.as_str()))
}

/// The branch that a HEAD in `state` shows: the resolved name; for an
/// unborn branch, the one that the HEAD file names, given its contents in
/// `head_file`; otherwise none.
pub fn branch_from(state: HeadState, head_file: Option<&str>) -> (r: Option<String>)
    ensures
        opt_view(r) == resolved_branch(state, head_file),
{
    match state {
        HeadState::Resolved(name) => name,
        HeadState::Unborn => match head_file {
            Some(c) => branch_from_head_file(c),
            None => None,
        },
        HeadState::Unavailable => None,
    }
}

/// The state of HEAD given what resolving it gave: the short name of the
/// reference on success; for a failure, `Unborn` when the branch has no
/// commits yet and `Unavailable` for any other kind.
pub open spec fn head_state_from(outcome: Result<Option<String>, git2::ErrorCode>) -> HeadState {
    match outcome {
        Ok(name) => HeadState::Resolved(name),
        Err(git2::ErrorCode::UnbornBranch) => HeadState::Unborn,
        Err(_) => HeadState::Unavailable,
    }
}

/// Classifies what resolving HEAD gave: a short name (or none, when it is
/// not valid text), or the kind of failure.
pub fn head_state_of(outcome: Result<Option<String>, git2::ErrorCode>) -> (r: HeadState)
    ensures
        r == head_state_from(outcome),
{
    match outcome {
        Ok(name) => HeadState::Resolved(name),
        Err(git2::ErrorCode::UnbornBranch) => HeadState::Unborn,
        Err(_) => HeadState::Unavailable,
    }
}

impl HeadState {
    /// Whether the branch can only be read from the HEAD file.
    pub fn needs_head_file(&self) -> (r: bool)
        ensures
            r == (*self is Unborn),
    {
        match self {
            HeadState::Unborn => true,
            _ => false,
        }
    }
}

/// The final component of `path` (the name of the directory it leads to),
/// as `Path::file_name` gives it on Unix.
pub fn dir_name(path: &str) -> (r: Option<String>)
    ensures
        opt_view(r) == final_name(split(path@)),
{
    let segs = split_segments(&chars_of(path));
    let ghost v = views(segs@);
    let mut n: usize = segs.len();
    assert(v.take(n as int) == v);
    while n > 0
        invariant
            n <= segs@.len(),
            v == views(segs@),
            v == split(path@),
            final_name(v) == final_name(v.take(n as int)),
        decreases n,
    {
        let seg = &segs[n - 1];
        let ghost t = v.take(n as int);
        assert(t.last() == seg@);
        assert(t.drop_last() == v.take(n - 1));
        let empty = seg.len() == 0;
        let dot = seg.len() == 1 && seg[0] == '.';
        let dotdot = seg.len() == 2 && seg[0] == '.' && seg[1] == '.';
        if dot {
            assert(seg@ =~= seq!['.']);
        }
        if dotdot {
            assert(seg@ =~= seq!['.', '.']);
        }
        if !empty && !dot {
            if dotdot {
                return None;
            }
            let mut name: Vec<char> = Vec::new();
            push_chars(&mut name, seg);
            return Some(string_of(&name));
        }
        n = n - 1;
    }
    assert(v.take(0) == Seq::<Seq<char>>::empty());
    None
}

/// An open git repository.
pub struct Git {
    repo: git2::Repository,
}

impl Git {
    /// The repository that discovery found, or none when it found none:
    /// not being inside a repository is no failure.
    pub fn new(found: Result<git2::Repository, git2::Error>) -> (r: Option<Git>)
        ensures
            r is Some <==> found is Ok,
    {
        match found {
            Ok(repo) => Some(Git { repo }),
            Err(_) => None,
        }
    }

    /// The repository at or above `dir`, if there is one. Whether one is
    /// found is git2's answer from the disk; `new` turns it into the result.
    pub fn discover(dir: &std::path::PathBuf) -> Option<Git> {
        Git::new(discover(dir))
    }

    /// The underlying repository.
    pub fn repo(&self) -> &git2::Repository {
        &self.repo
    }

    /// Resolves HEAD. What git2 finds depends on the repository on disk, so
    /// nothing is promised of it here; `head_state_of` classifies it.
    pub fn head_state(&self) -> HeadState {
        let outcome = match self.repo.head() {
            Ok(reference) => Ok(shorthand(&reference)),
            Err(e) => Err(e.code()),
        };
        head_state_of(outcome)
    }

    /// The name of the repository's root directory, when it has a working
    /// directory: the final component of that directory's path.
    pub fn toplevel(&self) -> (r: Option<String>)
        ensures
            r matches Some(n) ==> exists|w: Seq<char>| #[trigger] final_name(split(w)) == Some(n@),
    {
        match workdir(&self.repo) {
            Some(w) => dir_name(w.as_str()),
            None => None,
        }
    }
}

} // verus!
