//! Project directories, as `/`-separated path text below the project root.

use vstd::prelude::*;

use crate::text::chars_of;

verus! {

/// `base` joined with a relative `segment`: a `/` goes between them unless
/// `base` is empty or already ends with one.
pub open spec fn join(base: Seq<char>, segment: Seq<char>) -> Seq<char> {
    if base.len() == 0 {
        segment
    } else if base.last() == '/' {
        base + segment
    } else {
        base + seq!['/'] + segment
    }
}

/// Joining twice is joining once with the two parts separated by `/`, when
/// the first part is a non-empty path that does not end in `/`.
pub proof fn lemma_join_nested(base: Seq<char>, first: Seq<char>, second: Seq<char>)
    requires
        first.len() > 0,
        first.last() != '/',
    ensures
        join(join(base, first), second) == join(base, first + seq!['/'] + second),
{
    let once = join(base, first);
    assert(once.len() > 0 && once.last() == first.last());
    if base.len() == 0 {
        assert(join(once, second) =~= join(base, first + seq!['/'] + second));
    } else if base.last() == '/' {
        assert(join(once, second) =~= join(base, first + seq!['/'] + second));
    } else {
        assert(join(once, second) =~= join(base, first + seq!['/'] + second));
    }
}

/// A path joined with a non-empty segment ends with that segment's last
/// character.
pub proof fn lemma_join_last(base: Seq<char>, segment: Seq<char>)
    requires
        segment.len() > 0,
    ensures
        join(base, segment).len() >= segment.len(),
        join(base, segment).last() == segment.last(),
{
}

/// Joins a relative segment onto a path.
pub fn join_path(base: &str, segment: &str) -> (r: String)
    ensures
        r@ == join(base@, segment@),
{
    let chars = chars_of(base);
    let mut r = base.to_string();
    if chars.len() > 0 && chars[chars.len() - 1] != '/' {
        r.push('/');
    }
    crate::text::push_str(&mut r, segment);
    r
}

/// Returns the engine directory.
pub fn engine_dir(project_root: &str) -> (dir: String)
    ensures
        dir@ == join(project_root@, "engine"@),
{
    join_path(project_root, "engine")
}

/// Returns the UI directory.
pub fn ui_dir(project_root: &str) -> (dir: String)
    ensures
        dir@ == join(project_root@, "ui"@),
{
    join_path(project_root, "ui")
}

/// Returns the target/bundled directory where built plugins are placed.
pub fn bundled_dir(project_root: &str) -> (dir: String)
    ensures
        dir@ == join(join(join(project_root@, "engine"@), "target"@), "bundled"@),
{
    let engine = engine_dir(project_root);
    let target = join_path(engine.as_str(), "target");
    join_path(target.as_str(), "bundled")
}

/// Returns the AU wrapper source directory.
pub fn au_wrapper_dir(project_root: &str) -> (dir: String)
    ensures
        dir@ == join(join(join(project_root@, "packaging"@), "macos"@), "au-wrapper"@),
{
    let packaging = join_path(project_root, "packaging");
    let macos = join_path(packaging.as_str(), "macos");
    join_path(macos.as_str(), "au-wrapper")
}

/// The length of `p` without its trailing `/` characters.
pub open spec fn trimmed_len(p: Seq<char>, n: int) -> int
    decreases n,
{
    if n <= 0 {
        0
    } else if p[n - 1] == '/' {
        trimmed_len(p, n - 1)
    } else {
        n
    }
}

/// The index of the last `/` before `n`, or -1.
pub open spec fn last_slash_before(p: Seq<char>, n: int) -> int
    decreases n,
{
    if n <= 0 {
        -1
    } else if p[n - 1] == '/' {
        n - 1
    } else {
        last_slash_before(p, n - 1)
    }
}

/// The parent of a path: the path without its last component. A lone
/// component has the empty parent; the root and the empty path have none.
pub open spec fn parent(p: Seq<char>) -> Option<Seq<char>> {
    let n = trimmed_len(p, p.len() as int);
    if n == 0 {
        None
    } else {
        let k = last_slash_before(p, n);
        if k < 0 {
            Some(Seq::empty())
        } else {
            let m = trimmed_len(p, k);
            if m == 0 {
                Some(seq!['/'])
            } else {
                Some(p.subrange(0, m))
            }
        }
    }
}

/// The parent of a path, as `parent` states it.
pub fn parent_path(path: &str) -> (r: Option<String>)
    ensures
        match parent(path@) {
            None => r is None,
            Some(q) => r matches Some(s) && s@ == q,
        },
{
    let p = chars_of(path);
    let mut n: usize = p.len();
    while n > 0 && p[n - 1] == '/'
        invariant
            n <= p@.len(),
            p@ == path@,
            trimmed_len(p@, n as int) == trimmed_len(p@, p@.len() as int),
        decreases n,
    {
        n -= 1;
    }
    if n == 0 {
        return None;
    }
    let mut k: usize = n;
    while k > 0 && p[k - 1] != '/'
        invariant
            k <= n <= p@.len(),
            p@ == path@,
            last_slash_before(p@, k as int) == last_slash_before(p@, n as int),
        decreases k,
    {
        k -= 1;
    }
    if k == 0 {
        return Some(String::new());
    }
    let mut m: usize = k - 1;
    while m > 0 && p[m - 1] == '/'
        invariant
            m < k <= n <= p@.len(),
            p@ == path@,
            last_slash_before(p@, n as int) == k - 1,
            trimmed_len(p@, m as int) == trimmed_len(p@, k - 1),
        decreases m,
    {
        m -= 1;
    }
    if m == 0 {
        let mut s = String::new();
        s.push('/');
        assert(s@ =~= seq!['/']);
        return Some(s);
    }
    let s = crate::text::string_from_chars(&p.as_slice()[0..m]);
    assert(s@ =~= path@.subrange(0, m as int));
    Some(s)
}

} // verus!
