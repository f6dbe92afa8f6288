//! Shortening of the working directory for display.

use vstd::prelude::*;

use crate::text::{chars_of, push_chars, same_chars, string_of};

verus! {

/// How much of the working directory the prompt shows.
pub enum PathMode {
    /// The whole path (with the home directory written `~`).
    Full,
    /// Its last three segments.
    Short,
    /// Its last three segments, without those that lead up to the root of
    /// the repository whose root directory has the given name.
    ShortInRepo(String),
}

/// The segments of `s` between the `/` separators, in order: one more than
/// the number of separators, some of them possibly empty.
pub open spec fn split(s: Seq<char>) -> Seq<Seq<char>>
    decreases s.len(),
{
    if s.len() == 0 {
        seq![Seq::empty()]
    } else {
        let prev = split(s.drop_last());
        if s.last() == '/' {
            prev.push(Seq::empty())
        } else {
            prev.update(prev.len() - 1, prev.last().push(s.last()))
        }
    }
}

/// The segments joined with `/` between each two.
pub open spec fn join(segs: Seq<Seq<char>>) -> Seq<char>
    decreases segs.len(),
{
    if segs.len() == 0 {
        Seq::empty()
    } else if segs.len() == 1 {
        segs[0]
    } else {
        join(segs.drop_last()) + seq!['/'] + segs.last()
    }
}

/// The index of the first `c` in `s`.
pub open spec fn first_index_of(s: Seq<char>, c: char) -> Option<int>
    decreases s.len(),
{
    if s.len() == 0 {
        None
    } else if s[0] == c {
        Some(0)
    } else {
        match first_index_of(s.drop_first(), c) {
            Some(i) => Some(i + 1),
            None => None,
        }
    }
}

/// `o` with `d` added to the index it may hold.
pub open spec fn shifted(o: Option<int>, d: int) -> Option<int> {
    match o {
        Some(i) => Some(i + d),
        None => None,
    }
}

/// The prefix that marks a path under a user's home directory.
pub open spec fn home_root() -> Seq<char> {
    seq!['/', 'h', 'o', 'm', 'e', '/']
}

/// Whether `p` lies under `/home/`.
pub open spec fn under_home(p: Seq<char>) -> bool {
    p.len() >= 6 && p.take(6) == home_root()
}

/// For a path under `/home/<user>`: what follows the home directory, from
/// the separator after `<user>` on (empty at the home directory itself).
pub open spec fn home_rest(p: Seq<char>) -> Seq<char> {
    let after = p.skip(6);
    match first_index_of(after, '/') {
        Some(i) => after.skip(i),
        None => Seq::empty(),
    }
}

/// `p` with a leading home directory `/home/<user>` written as `~`.
pub open spec fn home_substituted(p: Seq<char>) -> Seq<char> {
    if under_home(p) {
        seq!['~'] + home_rest(p)
    } else {
        p
    }
}

/// The last three segments (all of them when there are fewer).
pub open spec fn kept(segs: Seq<Seq<char>>) -> Seq<Seq<char>> {
    if segs.len() <= 3 {
        segs
    } else {
        segs.skip(segs.len() - 3)
    }
}

/// Three kept segments without the ones before the repository root:
/// when the middle one is `root`, the first is dropped; else when the first
/// one is `root`, the first two are. Fewer than three stay as they are.
pub open spec fn fold_root(k: Seq<Seq<char>>, root: Seq<char>) -> Seq<Seq<char>> {
    if k.len() == 3 && k[1] == root {
        k.skip(1)
    } else if k.len() == 3 && k[0] == root {
        k.skip(2)
    } else {
        k
    }
}

/// The displayed form of the working directory `p` in `mode`.
pub open spec fn abbreviated(p: Seq<char>, mode: PathMode) -> Seq<char> {
    let h = home_substituted(p);
    match mode {
        PathMode::Full => h,
        PathMode::Short => join(kept(split(h))),
        PathMode::ShortInRepo(root) => join(fold_root(kept(split(h)), root@)),
    }
}

/// Whether `t` occurs in `s`.
pub open spec fn contains(s: Seq<char>, t: Seq<char>) -> bool {
    exists|i: int| 0 <= i && i + t.len() <= s.len() && #[trigger] s.subrange(i, i + t.len()) == t
}

/// Joining the segments of a path gives the path back.
pub proof fn lemma_join_split(s: Seq<char>)
    ensures
        split(s).len() >= 1,
        join(split(s)) == s,
    decreases s.len(),
{
    if s.len() > 0 {
        let prev = split(s.drop_last());
        lemma_join_split(s.drop_last());
        if s.last() == '/' {
            assert(split(s).drop_last() == prev);
            assert(s == s.drop_last() + seq!['/'] + Seq::<char>::empty());
        } else {
            let q = split(s);
            if prev.len() > 1 {
                assert(q.drop_last() == prev.drop_last());
            }
            assert(s == s.drop_last().push(s.last()));
        }
    }
}

/// Under the home directory the full form starts with `~` and holds no
/// `/home/`, as long as the part below the home directory holds none.
pub proof fn lemma_home_abbreviated(p: Seq<char>)
    requires
        under_home(p),
        !contains(home_rest(p), home_root()),
    ensures
        abbreviated(p, PathMode::Full).len() > 0,
        abbreviated(p, PathMode::Full)[0] == '~',
        !contains(abbreviated(p, PathMode::Full), home_root()),
{
    let r = abbreviated(p, PathMode::Full);
    let rest = home_rest(p);
    assert(r == seq!['~'] + rest);
    if contains(r, home_root()) {
        let i = choose|i: int|
            0 <= i && i + home_root().len() <= r.len() && #[trigger] r.subrange(i, i + home_root().len())
                == home_root();
        if i == 0 {
            assert(r.subrange(0, 6)[0] == '~');
        } else {
            assert(rest.subrange(i - 1, i - 1 + 6) == r.subrange(i, i + 6));
            assert(contains(rest, home_root()));
        }
    }
}

/// With fewer than three segments both short forms show the path (with the
/// home directory written `~`) whole: every segment, unchanged and in order.
pub proof fn lemma_short_keeps_few_segments(p: Seq<char>, root: String)
    requires
        split(home_substituted(p)).len() < 3,
    ensures
        abbreviated(p, PathMode::Short) == home_substituted(p),
        abbreviated(p, PathMode::ShortInRepo(root)) == home_substituted(p),
{
    lemma_join_split(home_substituted(p));
}

/// Inside a repository, with three segments kept: when the middle one is the
/// repository's root, just the one before it is dropped; else when the first
/// one is the root, just the first two are.
pub proof fn lemma_repo_root_folded(p: Seq<char>, root: String)
    requires
        kept(split(home_substituted(p))).len() == 3,
    ensures
        ({
            let k = kept(split(home_substituted(p)));
            let r = abbreviated(p, PathMode::ShortInRepo(root));
            &&& k[1] == root@ ==> r == join(seq![k[1], k[2]])
            &&& k[1] != root@ && k[0] == root@ ==> r == join(seq![k[2]])
            &&& k[1] != root@ && k[0] != root@ ==> r == join(k)
        }),
{
    let k = kept(split(home_substituted(p)));
    assert(k.skip(1) == seq![k[1], k[2]]);
    assert(k.skip(2) == seq![k[2]]);
}

/// The views of a sequence of character vectors.
pub open spec fn views(s: Seq<Vec<char>>) -> Seq<Seq<char>> {
    s.map_values(|v: Vec<char>| v@)
}

/// Splits `p` at every `/`.
pub(crate) fn split_segments(p: &Vec<char>) -> (r: Vec<Vec<char>>)
    ensures
        views(r@) == split(p@),
{
    let mut segs: Vec<Vec<char>> = Vec::new();
    let mut cur: Vec<char> = Vec::new();
    let mut i: usize = 0;
    assert(p@.take(0) == Seq::<char>::empty());
    assert(views(segs@).push(cur@) == split(p@.take(0)));
    while i < p.len()
        invariant
            i <= p@.len(),
            views(segs@).push(cur@) == split(p@.take(i as int)),
        decreases p@.len() - i,
    {
        let ghost before = split(p@.take(i as int));
        assert(p@.take(i + 1 as int).drop_last() == p@.take(i as int));
        assert(p@.take(i + 1 as int).last() == p@[i as int]);
        let c = p[i];
        if c == '/' {
            let done = cur;
            segs.push(done);
            cur = Vec::new();
            assert(views(segs@).push(cur@) == before.push(Seq::empty()));
        } else {
            cur.push(c);
            assert(views(segs@).push(cur@) == before.update(
                before.len() - 1,
                before.last().push(c),
            ));
        }
        i = i + 1;
    }
    assert(p@.take(p@.len() as int) == p@);
    segs.push(cur);
    segs
}

/// Joins `segs[from..]` with `/`.
fn join_from(segs: &Vec<Vec<char>>, from: usize) -> (r: Vec<char>)
    requires
        from <= segs@.len(),
    ensures
        r@ == join(views(segs@).skip(from as int)),
{
    let ghost v = views(segs@);
    let mut out: Vec<char> = Vec::new();
    let mut j: usize = from;
    assert(v.subrange(from as int, from as int) == Seq::<Seq<char>>::empty());
    while j < segs.len()
        invariant
            from <= j <= segs@.len(),
            v == views(segs@),
            out@ == join(v.subrange(from as int, j as int)),
        decreases segs@.len() - j,
    {
        let ghost part = v.subrange(from as int, j + 1 as int);
        assert(part.drop_last() == v.subrange(from as int, j as int));
        assert(part.last() == segs@[j as int]@);
        if j > from {
            out.push('/');
        } else {
            assert(part.len() == 1);
        }
        push_chars(&mut out, &segs[j]);
        j = j + 1;
    }
    assert(v.subrange(from as int, segs@.len() as int) == v.skip(from as int));
    out
}

/// `p` with a leading home directory written as `~`.
fn substitute_home(p: &Vec<char>) -> (r: Vec<char>)
    ensures
        r@ == home_substituted(p@),
{
    let root: Vec<char> = vec!['/', 'h', 'o', 'm', 'e', '/'];
    if p.len() < 6 {
        return p.clone();
    }
    let mut i: usize = 0;
    while i < 6
        invariant
            i <= 6 <= p@.len(),
            root@ == home_root(),
            forall|j: int| 0 <= j < i ==> p@[j] == root@[j],
        decreases 6 - i,
    {
        if p[i] != root[i] {
            assert(p@.take(6)[i as int] != home_root()[i as int]);
            return p.clone();
        }
        i = i + 1;
    }
    assert(p@.take(6) == home_root());
    let ghost after = p@.skip(6);
    let mut k: usize = 6;
    assert(after.skip(0) == after);
    while k < p.len() && p[k] != '/'
        invariant
            6 <= k <= p@.len(),
            after == p@.skip(6),
            forall|j: int| 6 <= j < k ==> p@[j] != '/',
            first_index_of(after, '/') == shifted(first_index_of(after.skip(k - 6), '/'), k - 6),
        decreases p@.len() - k,
    {
        proof {
            let t = after.skip(k - 6);
            assert(t.drop_first() == after.skip(k + 1 - 6));
            assert(t[0] == p@[k as int]);
        }
        k = k + 1;
    }
    let mut out: Vec<char> = Vec::new();
    out.push('~');
    let mut m: usize = k;
    while m < p.len()
        invariant
            k <= m <= p@.len(),
            out@ == seq!['~'] + p@.subrange(k as int, m as int),
        decreases p@.len() - m,
    {
        out.push(p[m]);
        m = m + 1;
        assert(p@.subrange(k as int, m as int) == p@.subrange(k as int, m - 1 as int).push(
            p@[m - 1 as int],
        ));
    }
    proof {
        let t = after.skip(k - 6);
        if k < p@.len() {
            assert(t[0] == p@[k as int]);
            assert(first_index_of(after, '/') == Some(k - 6));
            assert(after.skip(k - 6) == p@.subrange(k as int, p@.len() as int));
        } else {
            assert(t.len() == 0);
            assert(first_index_of(after, '/') == None::<int>);
            assert(p@.subrange(k as int, m as int) == Seq::<char>::empty());
        }
    }
    out
}

/// The displayed form of the working directory `path` in `mode`: a leading
/// `/home/<user>` becomes `~`; the short modes keep the last three segments,
/// and inside a repository also drop those that lead up to its root.
pub fn abbreviate(path: &str, mode: &PathMode) -> (r: String)
    ensures
        r@ == abbreviated(path@, *mode),
{
    let p = chars_of(path);
    let h = substitute_home(&p);
    match mode {
        PathMode::Full => string_of(&h),
        PathMode::Short => {
            let segs = split_segments(&h);
            let start: usize = if segs.len() <= 3 { 0 } else { segs.len() - 3 };
            let out = join_from(&segs, start);
            proof {
                assert(views(segs@).skip(0) == views(segs@));
            }
            string_of(&out)
        },
        PathMode::ShortInRepo(root) => {
            let segs = split_segments(&h);
            let ghost v = views(segs@);
            let start: usize = if segs.len() <= 3 { 0 } else { segs.len() - 3 };
            let ghost k = v.skip(start as int);
            let mut from: usize = start;
            let root_chars = chars_of(root.as_str());
            if segs.len() >= 3 {
                assert(k.len() == 3);
                assert(k[1] == segs@[start + 1]@);
                assert(k[0] == segs@[start as int]@);
                if same_chars(&segs[start + 1], &root_chars) {
                    from = start + 1;
                } else if same_chars(&segs[start], &root_chars) {
                    from = start + 2;
                }
            }
            proof {
                assert(v.skip(0) == v);
                assert(k == kept(v));
                assert(k.skip(1) == v.skip(start + 1));
                assert(k.skip(2) == v.skip(start + 2));
                assert(fold_root(k, root@) == v.skip(from as int));
            }
            let out = join_from(&segs, from);
            string_of(&out)
        },
    }
}

} // verus!
