//! Paths as `/`-separated strings.
//!
//! The functions here decide whether a path is relative, adjoin one path to
//! another, find the directory that contains a path, and normalise a directory
//! so that it ends with a separator. Each is specified over the sequence of
//! characters of the path.

use vstd::prelude::*;

verus! {

/// A path is absolute when it starts at the root.
pub open spec fn has_root(p: Seq<char>) -> bool {
    p.len() > 0 && p[0] == '/'
}

/// A relative path that begins with the component `.`.
pub open spec fn leads_with_cur_dir(p: Seq<char>) -> bool {
    !has_root(p) && p.len() > 0 && p[0] == '.' && (p.len() == 1 || p[1] == '/')
}

/// Number of leading characters that belong to no named component: the root
/// separator, or a leading `.`.
pub open spec fn anchor_len(p: Seq<char>) -> int {
    if has_root(p) || leads_with_cur_dir(p) {
        1
    } else {
        0
    }
}

/// Length of the prefix of `p[..n]` that is left when trailing separators and
/// trailing `.` components are taken away, never going below `start`.
pub open spec fn trimmed_len(p: Seq<char>, n: int, start: int) -> int
    decreases n,
{
    if n <= start || n <= 0 {
        n
    } else if p[n - 1] == '/' {
        trimmed_len(p, n - 1, start)
    } else if p[n - 1] == '.' && (n - 1 == start || p[n - 2] == '/') {
        trimmed_len(p, n - 1, start)
    } else {
        n
    }
}

/// Index at which the last component of `p[..n]` begins, never below `start`.
pub open spec fn segment_start(p: Seq<char>, n: int, start: int) -> int
    decreases n,
{
    if n <= start || n <= 0 {
        n
    } else if p[n - 1] == '/' {
        n
    } else {
        segment_start(p, n - 1, start)
    }
}

/// Length of the directory part of `p`, when `p` has a last component.
pub open spec fn parent_len(p: Seq<char>) -> int {
    let start = anchor_len(p);
    let body = trimmed_len(p, p.len() as int, start);
    trimmed_len(p, segment_start(p, body, start), start)
}

/// The path without its last component.
///
/// Trailing separators and `.` components are ignored. A path that is empty or
/// that is only the root has no parent; a relative path of one component has the
/// empty path as its parent.
pub open spec fn parent(p: Seq<char>) -> Option<Seq<char>> {
    let start = anchor_len(p);
    if trimmed_len(p, p.len() as int, start) <= start {
        if leads_with_cur_dir(p) {
            Some(Seq::<char>::empty())
        } else {
            None
        }
    } else {
        Some(p.subrange(0, parent_len(p)))
    }
}

/// `rel` adjoined to `base`: an absolute `rel` replaces `base`; otherwise the
/// two are put together with exactly one separator between them unless `base`
/// is empty or already ends with one.
pub open spec fn join(base: Seq<char>, rel: Seq<char>) -> Seq<char> {
    if has_root(rel) {
        rel
    } else if base.len() == 0 || base.last() == '/' {
        base + rel
    } else {
        base + seq!['/'] + rel
    }
}

/// Whether `s` ends with `/` or with a backslash.
pub open spec fn ends_with_separator(s: Seq<char>) -> bool {
    s.len() > 0 && (s.last() == '/' || s.last() == '\\')
}

/// `s` itself where it ends with a separator, else `s` followed by `/`.
pub open spec fn with_trailing_separator(s: Seq<char>) -> Seq<char> {
    if ends_with_separator(s) {
        s
    } else {
        s.push('/')
    }
}

/// Whether `s` begins with `~/`.
pub open spec fn is_home_relative(s: Seq<char>) -> bool {
    s.len() >= 2 && s[0] == '~' && s[1] == '/'
}

/// `s` with its leading `~` replaced by `home`, where `s` begins with `~/`;
/// any other `s` as it is.
pub open spec fn expand_home(s: Seq<char>, home: Seq<char>) -> Seq<char> {
    if is_home_relative(s) {
        home + s.subrange(1, s.len() as int)
    } else {
        s
    }
}

/// The trimmed length lies between `start` and `n`.
pub proof fn lemma_trimmed_len_bounds(p: Seq<char>, n: int, start: int)
    requires
        0 <= start <= n,
    ensures
        start <= trimmed_len(p, n, start) <= n,
    decreases n,
{
    if n > start {
        lemma_trimmed_len_bounds(p, n - 1, start);
    }
}

/// The start of the last component lies between `start` and `n`.
pub proof fn lemma_segment_start_bounds(p: Seq<char>, n: int, start: int)
    requires
        0 <= start <= n,
    ensures
        start <= segment_start(p, n, start) <= n,
    decreases n,
{
    if n > start {
        lemma_segment_start_bounds(p, n - 1, start);
    }
}

/// A parent is a proper prefix of its path.
pub proof fn lemma_parent_is_prefix(p: Seq<char>)
    ensures
        parent(p) matches Some(d) ==> d.len() < p.len() && d =~= p.subrange(0, d.len() as int),
{
    let start = anchor_len(p);
    let n = p.len() as int;
    lemma_trimmed_len_bounds(p, n, start);
    let body = trimmed_len(p, n, start);
    if body > start {
        lemma_segment_start_bounds(p, body, start);
        let k = segment_start(p, body, start);
        lemma_trimmed_len_bounds(p, k, start);
        lemma_trimmed_ends_in_component(p, n, start);
        lemma_segment_start_below(p, body, start);
    }
}

/// What is left after trimming, if it is longer than `start`, does not end
/// with a separator.
proof fn lemma_trimmed_ends_in_component(p: Seq<char>, n: int, start: int)
    requires
        0 <= start <= n,
    ensures
        trimmed_len(p, n, start) > start ==> p[trimmed_len(p, n, start) - 1] != '/',
    decreases n,
{
    if n > start {
        lemma_trimmed_ends_in_component(p, n - 1, start);
    }
}

/// A trimmed body that is longer than `start` ends in a named component, so
/// its last component starts strictly before its end.
proof fn lemma_segment_start_below(p: Seq<char>, n: int, start: int)
    requires
        0 <= start < n,
        p[n - 1] != '/',
    ensures
        segment_start(p, n, start) < n,
{
    lemma_segment_start_bounds(p, n - 1, start);
}

/// The parent of an absolute path is absolute.
pub proof fn lemma_parent_of_absolute(p: Seq<char>)
    requires
        has_root(p),
        parent(p) is Some,
    ensures
        has_root(parent(p)->0),
{
    let n = p.len() as int;
    lemma_trimmed_len_bounds(p, n, 1);
    let body = trimmed_len(p, n, 1);
    lemma_segment_start_bounds(p, body, 1);
    lemma_trimmed_len_bounds(p, segment_start(p, body, 1), 1);
}

/// Adjoining to an absolute path gives an absolute path, and so does
/// adjoining an absolute path.
pub proof fn lemma_join_is_absolute(base: Seq<char>, rel: Seq<char>)
    requires
        has_root(base) || has_root(rel),
    ensures
        has_root(join(base, rel)),
{
}

/// A name that can stand as the last component of a path: not empty, not
/// `.`, and without a separator in it.
pub open spec fn is_plain_name(name: Seq<char>) -> bool {
    &&& name.len() > 0
    &&& name != seq!['.']
    &&& forall|i: int| 0 <= i < name.len() ==> name[i] != '/'
}

/// A directory path that trimming leaves as it is: it ends neither with a
/// separator nor with a `.` component, unless it is the root or `.` itself.
pub open spec fn is_trimmed(dir: Seq<char>) -> bool {
    trimmed_len(dir, dir.len() as int, anchor_len(dir)) == dir.len()
}

/// Trimming looks only at the characters before the end it starts from.
proof fn lemma_trimmed_len_of_prefix(p: Seq<char>, q: Seq<char>, n: int, start: int)
    requires
        0 <= start <= n <= p.len(),
        n <= q.len(),
        forall|i: int| 0 <= i < n ==> p[i] == q[i],
    ensures
        trimmed_len(p, n, start) == trimmed_len(q, n, start),
    decreases n,
{
    if n > start {
        lemma_trimmed_len_of_prefix(p, q, n - 1, start);
    }
}

/// Where a separator stands at `at` and none after it before `n`, the last
/// component of `p[..n]` begins right after `at`.
proof fn lemma_segment_start_after_separator(p: Seq<char>, n: int, start: int, at: int)
    requires
        0 <= start <= at < n <= p.len(),
        p[at] == '/',
        forall|i: int| at < i < n ==> p[i] != '/',
    ensures
        segment_start(p, n, start) == at + 1,
    decreases n,
{
    if n > at + 1 {
        lemma_segment_start_after_separator(p, n - 1, start, at);
    }
}

/// The parent of a plain name below a trimmed directory is that directory,
/// and adjoining the name to the directory gives the path back.
pub proof fn lemma_parent_of_joined(dir: Seq<char>, name: Seq<char>)
    requires
        dir.len() > 0,
        is_trimmed(dir),
        is_plain_name(name),
    ensures
        parent(dir + seq!['/'] + name) == Some(dir),
        dir.last() != '/' ==> join(dir, name) == dir + seq!['/'] + name,
{
    let p = dir + seq!['/'] + name;
    let d = dir.len() as int;
    let n = p.len() as int;
    let start = anchor_len(p);
    assert(p[0] == dir[0]);
    assert(d >= 2 ==> p[1] == dir[1]);
    assert(d == 1 ==> p[1] == '/');
    assert(start == anchor_len(dir));
    assert(p[n - 1] == name.last());
    assert(name.len() >= 2 ==> p[n - 2] == name[name.len() - 2]);
    assert(name.len() == 1 ==> name =~= seq![name[0]]);
    assert(trimmed_len(p, n, start) == n);
    assert(p[d] == '/');
    assert forall|i: int| d < i < n implies p[i] != '/' by {
        assert(p[i] == name[i - d - 1]);
    }
    lemma_segment_start_after_separator(p, n, start, d);
    assert(trimmed_len(p, d + 1, start) == trimmed_len(p, d, start));
    lemma_trimmed_len_of_prefix(p, dir, d, start);
    assert(p.subrange(0, d) =~= dir);
}

/// Whether `path` is relative, that is, does not start at the root.
pub fn is_relative(path: &str) -> (r: bool)
    ensures
        r == !has_root(path@),
{
    if path.unicode_len() == 0 {
        true
    } else {
        path.get_char(0) != '/'
    }
}

fn trimmed_end(path: &str, n: usize, start: usize) -> (r: usize)
    requires
        start <= n <= path@.len(),
    ensures
        r == trimmed_len(path@, n as int, start as int),
        start <= r <= n,
{
    let mut m: usize = n;
    while m > start
        invariant_except_break
            start <= m <= n,
            n <= path@.len(),
            trimmed_len(path@, m as int, start as int) == trimmed_len(
                path@,
                n as int,
                start as int,
            ),
        ensures
            start <= m <= n,
            m == trimmed_len(path@, n as int, start as int),
        decreases m,
    {
        let c = path.get_char(m - 1);
        if c == '/' || (c == '.' && (m - 1 == start || path.get_char(m - 2) == '/')) {
            m = m - 1;
        } else {
            break ;
        }
    }
    m
}

fn last_segment_start(path: &str, n: usize, start: usize) -> (r: usize)
    requires
        start <= n <= path@.len(),
    ensures
        r == segment_start(path@, n as int, start as int),
        start <= r <= n,
{
    let mut m: usize = n;
    while m > start
        invariant_except_break
            start <= m <= n,
            n <= path@.len(),
            segment_start(path@, m as int, start as int) == segment_start(
                path@,
                n as int,
                start as int,
            ),
        ensures
            start <= m <= n,
            m == segment_start(path@, n as int, start as int),
        decreases m,
    {
        if path.get_char(m - 1) == '/' {
            break ;
        }
        m = m - 1;
    }
    m
}

/// The directory that contains `path`: `path` without its last component.
pub fn parent_dir(path: &str) -> (r: Option<String>)
    ensures
        r.deep_view() == parent(path@),
{
    let n = path.unicode_len();
    let rooted = !is_relative(path);
    let cur_dir = !rooted && n > 0 && path.get_char(0) == '.' && (n == 1 || path.get_char(1)
        == '/');
    let start: usize = if rooted || cur_dir {
        1
    } else {
        0
    };
    let body = trimmed_end(path, n, start);
    if body <= start {
        if cur_dir {
            Some(String::new())
        } else {
            None
        }
    } else {
        let k = last_segment_start(path, body, start);
        let end = trimmed_end(path, k, start);
        Some(String::from_str(path.substring_char(0, end)))
    }
}

/// `rel` adjoined to `base`.
pub fn join_path(base: &str, rel: &str) -> (r: String)
    ensures
        r@ == join(base@, rel@),
{
    if !is_relative(rel) {
        String::from_str(rel)
    } else {
        let n = base.unicode_len();
        let mut out = String::from_str(base);
        if n > 0 && base.get_char(n - 1) != '/' {
            proof {
                reveal_strlit("/");
            }
            assert("/"@ =~= seq!['/']);
            out.append("/");
        }
        out.append(rel);
        out
    }
}

/// Whether `s` ends with `/` or with a backslash.
pub fn has_trailing_separator(s: &str) -> (r: bool)
    ensures
        r == ends_with_separator(s@),
{
    let n = s.unicode_len();
    if n == 0 {
        false
    } else {
        let c = s.get_char(n - 1);
        c == '/' || c == '\\'
    }
}

/// Makes `s` end with a separator by appending `/` where it does not.
pub fn ensure_trailing_separator(s: String) -> (r: String)
    ensures
        r@ == with_trailing_separator(s@),
        ends_with_separator(r@),
{
    if has_trailing_separator(s.as_str()) {
        s
    } else {
        proof {
            reveal_strlit("/");
        }
        assert("/"@ =~= seq!['/']);
        let r = s.concat("/");
        assert(r@ =~= s@.push('/'));
        r
    }
}

/// Whether `s` begins with `~/`.
pub fn starts_with_home(s: &str) -> (r: bool)
    ensures
        r == is_home_relative(s@),
{
    s.unicode_len() >= 2 && s.get_char(0) == '~' && s.get_char(1) == '/'
}

/// Replaces the leading `~` of a path that begins with `~/` by `home`.
pub fn expand_home_dir(s: &str, home: &str) -> (r: String)
    ensures
        r@ == expand_home(s@, home@),
{
    if starts_with_home(s) {
        let n = s.unicode_len();
        String::from_str(home).concat(s.substring_char(1, n))
    } else {
        String::from_str(s)
    }
}

} // verus!
