use vstd::prelude::*;
use vstd::string::StrSliceExecFns;
use vstd::string::StringExecFns;

use crate::error::{Error, ErrorKind};

verus! {

/// `s` with every occurrence of `pat`, taken from left to right without
/// overlap, replaced by `rep`.
pub open spec fn replaced(s: Seq<char>, pat: Seq<char>, rep: Seq<char>) -> Seq<char>
    decreases s.len(),
{
    if s.len() == 0 {
        s
    } else if 0 < pat.len() <= s.len() && s.subrange(0, pat.len() as int) == pat {
        rep + replaced(s.subrange(pat.len() as int, s.len() as int), pat, rep)
    } else {
        seq![s[0]] + replaced(s.subrange(1, s.len() as int), pat, rep)
    }
}

/// `path` with a leading `~` replaced by `home`.
pub open spec fn tilde_expanded(path: Seq<char>, home: Seq<char>) -> Seq<char> {
    if path.len() > 0 && path[0] == '~' {
        home + path.subrange(1, path.len() as int)
    } else {
        path
    }
}

/// `path` with a leading `~`, then every `$HOME`, replaced by `home`.
pub open spec fn home_expanded(path: Seq<char>, home: Seq<char>) -> Seq<char> {
    replaced(tilde_expanded(path, home), seq!['$', 'H', 'O', 'M', 'E'], home)
}

/// Whether a path component is kept by normalization: it is neither empty
/// (as between two separators) nor `.`.
pub open spec fn kept(c: Seq<char>) -> bool {
    c.len() > 0 && c != seq!['.']
}

/// The component `c`, if it is kept.
pub open spec fn flushed(c: Seq<char>) -> Seq<Seq<char>> {
    if kept(c) {
        seq![c]
    } else {
        Seq::empty()
    }
}

/// The kept components of `p` from position `i` on, where `cur` holds the
/// characters of the component begun before `i`.
pub open spec fn components_from(p: Seq<char>, i: int, cur: Seq<char>) -> Seq<Seq<char>>
    decreases p.len() - i,
{
    if i >= p.len() {
        flushed(cur)
    } else if p[i] == '/' {
        flushed(cur) + components_from(p, i + 1, Seq::empty())
    } else {
        components_from(p, i + 1, cur.push(p[i]))
    }
}

/// The kept components of `p`, in order.
pub open spec fn components(p: Seq<char>) -> Seq<Seq<char>> {
    components_from(p, 0, Seq::empty())
}

/// Components joined by single separators.
pub open spec fn slash_joined(s: Seq<Seq<char>>) -> Seq<char>
    decreases s.len(),
{
    if s.len() == 0 {
        Seq::empty()
    } else if s.len() == 1 {
        s[0]
    } else {
        slash_joined(s.drop_last()) + seq!['/'] + s.last()
    }
}

/// `p` in normal form: repeated separators, `.` components and a trailing
/// separator removed. An absolute path keeps its leading `/`; a relative
/// path with nothing left is `.`.
pub open spec fn normalized(p: Seq<char>) -> Seq<char> {
    if p.len() > 0 && p[0] == '/' {
        seq!['/'] + slash_joined(components(p))
    } else if components(p).len() == 0 {
        seq!['.']
    } else {
        slash_joined(components(p))
    }
}

/// `name` appended to `dir` as a new path component.
pub open spec fn joined(dir: Seq<char>, name: Seq<char>) -> Seq<char> {
    if dir.len() == 0 {
        name
    } else if dir.last() == '/' {
        dir + name
    } else {
        dir + seq!['/'] + name
    }
}

/// `path` taken relative to `base`, unless it is absolute already.
pub open spec fn anchored(base: Seq<char>, path: Seq<char>) -> Seq<char> {
    if path.len() > 0 && path[0] == '/' {
        path
    } else {
        joined(base, path)
    }
}

/// Where the last component of `p[0..i]` starts.
pub open spec fn segment_start(p: Seq<char>, i: int) -> int
    decreases i,
{
    if i <= 0 {
        0
    } else if p[i - 1] == '/' {
        i
    } else {
        segment_start(p, i - 1)
    }
}

/// The text after the last `/` of `p`.
pub open spec fn last_segment(p: Seq<char>) -> Seq<char> {
    p.subrange(segment_start(p, p.len() as int), p.len() as int)
}

/// The final component of a path, where it names something: neither
/// empty, nor `.` nor `..`.
pub open spec fn base_name(p: Seq<char>) -> Option<Seq<char>> {
    let s = last_segment(p);
    if s.len() == 0 || s == seq!['.'] || s == seq!['.', '.'] {
        None
    } else {
        Some(s)
    }
}

/// Whether `pat` occurs in `s` at position `i`.
pub open spec fn occurs_at(s: Seq<char>, i: int, pat: Seq<char>) -> bool {
    &&& 0 <= i
    &&& i + pat.len() <= s.len()
    &&& s.subrange(i, i + pat.len()) == pat
}

fn occurs_at_exec(s: &str, n: usize, i: usize, pat: &str, m: usize) -> (r: bool)
    requires
        n == s@.len(),
        m == pat@.len(),
        i <= n,
    ensures
        r == occurs_at(s@, i as int, pat@),
{
    if m > n - i {
        return false;
    }
    let mut k: usize = 0;
    while k < m
        invariant
            m <= n - i,
            n == s@.len(),
            m == pat@.len(),
            k <= m,
            forall|j: int| 0 <= j < k ==> s@[i + j] == pat@[j],
        decreases m - k,
    {
        if s.get_char(i + k) != pat.get_char(k) {
            assert(s@.subrange(i as int, i + m)[k as int] != pat@[k as int]);
            return false;
        }
        k = k + 1;
    }
    assert(s@.subrange(i as int, i + m) =~= pat@);
    true
}

/// Whether two strings hold the same characters.
pub fn is_equal(s: &str, other: &str) -> (r: bool)
    ensures
        r == (s@ == other@),
{
    let n = s.unicode_len();
    let m = other.unicode_len();
    if n != m {
        return false;
    }
    let r = occurs_at_exec(s, n, 0, other, m);
    assert(s@.subrange(0, n as int) =~= s@);
    r
}

/// Replaces every occurrence of `pat` in `s` by `rep`, from left to right.
pub fn replace_all(s: &str, pat: &str, rep: &str) -> (r: String)
    ensures
        r@ == replaced(s@, pat@, rep@),
{
    let n = s.unicode_len();
    let m = pat.unicode_len();
    let mut out = String::new();
    let mut i: usize = 0;
    assert(s@.subrange(0, n as int) =~= s@);
    while i < n
        invariant
            n == s@.len(),
            m == pat@.len(),
            i <= n,
            out@ + replaced(s@.subrange(i as int, n as int), pat@, rep@) == replaced(s@, pat@, rep@),
        decreases n - i,
    {
        let ghost rest = s@.subrange(i as int, n as int);
        if m > 0 && occurs_at_exec(s, n, i, pat, m) {
            assert(rest.subrange(0, m as int) =~= s@.subrange(i as int, i + m));
            assert(rest.subrange(m as int, rest.len() as int) =~= s@.subrange(i + m, n as int));
            out.append(rep);
            i = i + m;
        } else {
            if m > 0 && m <= n - i {
                assert(rest.subrange(0, m as int) =~= s@.subrange(i as int, i + m));
            }
            assert(rest.subrange(1, rest.len() as int) =~= s@.subrange(i + 1, n as int));
            let c = s.substring_char(i, i + 1);
            assert(c@ =~= seq![rest[0]]);
            out.append(c);
            i = i + 1;
        }
        assert((out@ + replaced(s@.subrange(i as int, n as int), pat@, rep@)) =~= replaced(s@, pat@, rep@));
    }
    assert(s@.subrange(n as int, n as int) =~= Seq::<char>::empty());
    out
}

fn add_component(body: &mut String, c: &str, first: bool, done: Ghost<Seq<Seq<char>>>) -> (r: bool)
    requires
        old(body)@ == slash_joined(done@),
        first == (done@.len() == 0),
    ensures
        final(body)@ == slash_joined(done@ + flushed(c@)),
        r == ((done@ + flushed(c@)).len() == 0),
{
    proof {
        reveal_strlit(".");
        reveal_strlit("/");
    }
    assert("."@ =~= seq!['.']);
    if c.unicode_len() > 0 && !is_equal(c, ".") {
        let ghost next = done@ + seq![c@];
        assert(next.drop_last() =~= done@);
        if first {
            body.append(c);
            assert(body@ =~= slash_joined(next));
        } else {
            body.append("/");
            body.append(c);
            assert(body@ =~= slash_joined(next));
        }
        false
    } else {
        assert(done@ + flushed(c@) =~= done@);
        first
    }
}

/// Puts `path` in normal form: drops repeated separators, `.` components
/// and a trailing separator.
pub fn normalize(path: &str) -> (r: String)
    ensures
        r@ == normalized(path@),
{
    let n = path.unicode_len();
    let mut body = String::new();
    let mut cur = String::new();
    let mut empty = true;
    let ghost mut done: Seq<Seq<char>> = Seq::empty();
    let mut i: usize = 0;
    while i < n
        invariant
            n == path@.len(),
            i <= n,
            done + components_from(path@, i as int, cur@) == components(path@),
            body@ == slash_joined(done),
            empty == (done.len() == 0),
        decreases n - i,
    {
        if path.get_char(i) == '/' {
            empty = add_component(&mut body, cur.as_str(), empty, Ghost(done));
            proof {
                assert(done + flushed(cur@) + components_from(path@, i + 1, Seq::empty())
                    =~= done + components_from(path@, i as int, cur@));
                done = done + flushed(cur@);
            }
            cur = String::new();
        } else {
            let ghost before = cur@;
            let c = path.substring_char(i, i + 1);
            cur.append(c);
            assert(cur@ =~= before.push(path@[i as int]));
        }
        i = i + 1;
    }
    empty = add_component(&mut body, cur.as_str(), empty, Ghost(done));
    proof {
        done = done + flushed(cur@);
    }
    proof {
        reveal_strlit("/");
        reveal_strlit(".");
    }
    if n > 0 && path.get_char(0) == '/' {
        let mut r = "/".to_owned();
        r.append(body.as_str());
        assert(r@ =~= seq!['/'] + body@);
        r
    } else if empty {
        assert("."@ =~= seq!['.']);
        ".".to_owned()
    } else {
        body
    }
}

/// The home-directory shorthand path: a leading `~`, then each `$HOME`,
/// becomes `home`, and the result is normalized. Fails when the home
/// directory is unknown.
pub fn resolve_home_dir(path: &str, home: Option<&str>) -> (r: Result<String, Error>)
    ensures
        home is None <==> r is Err,
        r matches Err(e) ==> e.kind == ErrorKind::Environment && e.ctx@
            == "could not find home directory"@,
        r matches Ok(p) ==> p@ == normalized(home_expanded(path@, home.unwrap()@)),
{
    match home {
        None => Err(Error::new(ErrorKind::Environment, "could not find home directory".to_owned())),
        Some(h) => {
            let n = path.unicode_len();
            let tilde = if n > 0 && path.get_char(0) == '~' {
                let mut t = h.to_owned();
                t.append(path.substring_char(1, n));
                t
            } else {
                path.to_owned()
            };
            proof {
                reveal_strlit("$HOME");
            }
            assert("$HOME"@ =~= seq!['$', 'H', 'O', 'M', 'E']);
            let expanded = replace_all(tilde.as_str(), "$HOME", h);
            Ok(normalize(expanded.as_str()))
        },
    }
}

/// Appends `name` to `dir` as a new path component.
pub fn join(dir: &str, name: &str) -> (r: String)
    ensures
        r@ == joined(dir@, name@),
{
    let n = dir.unicode_len();
    if n == 0 {
        name.to_owned()
    } else if dir.get_char(n - 1) == '/' {
        let mut r = dir.to_owned();
        r.append(name);
        r
    } else {
        let mut r = dir.to_owned();
        r.append("/");
        proof {
            reveal_strlit("/");
        }
        r.append(name);
        assert(r@ =~= dir@ + seq!['/'] + name@);
        r
    }
}

/// Takes `path` relative to `base`, unless it is absolute already.
pub fn anchor(base: &str, path: &str) -> (r: String)
    ensures
        r@ == anchored(base@, path@),
{
    let n = path.unicode_len();
    if n > 0 && path.get_char(0) == '/' {
        path.to_owned()
    } else {
        join(base, path)
    }
}

/// Resolves a declared path: expands the home-directory shorthands, takes
/// the result relative to `base`, the directory of the declarations, and
/// normalizes it.
pub fn resolve(path: &str, home: Option<&str>, base: &str) -> (r: Result<String, Error>)
    ensures
        home is None <==> r is Err,
        r matches Err(e) ==> e.kind == ErrorKind::Environment && e.ctx@
            == "could not find home directory"@,
        r matches Ok(p) ==> p@ == normalized(
            anchored(base@, normalized(home_expanded(path@, home.unwrap()@))),
        ),
{
    let expanded = resolve_home_dir(path, home)?;
    let anchored_path = anchor(base, expanded.as_str());
    Ok(normalize(anchored_path.as_str()))
}

/// The final component of `path`, if it names something.
pub fn file_name(path: &str) -> (r: Option<String>)
    ensures
        r is Some <==> base_name(path@) is Some,
        r matches Some(s) ==> Some(s@) == base_name(path@),
{
    let n = path.unicode_len();
    let mut i: usize = n;
    while i > 0 && path.get_char(i - 1) != '/'
        invariant
            n == path@.len(),
            i <= n,
            segment_start(path@, i as int) == segment_start(path@, n as int),
        decreases i,
    {
        i = i - 1;
    }
    let s = path.substring_char(i, n);
    let k = s.unicode_len();
    proof {
        reveal_strlit(".");
        reveal_strlit("..");
    }
    assert("."@ =~= seq!['.']);
    assert(".."@ =~= seq!['.', '.']);
    if k == 0 || is_equal(s, ".") || is_equal(s, "..") {
        None
    } else {
        Some(s.to_owned())
    }
}

} // verus!
