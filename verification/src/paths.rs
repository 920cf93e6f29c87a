//! Paths as `java.nio.file.Path` sees them: `/`-separated strings, taken
//! apart into components the way the platform's path library does it.
//!
//! A path has a root when it begins with `/`; a relative path that begins
//! with `.` alone or `./` keeps that `.` as its first component. The rest,
//! the body, is cut at every `/`; empty pieces and `.` are no components.
//! All cutting is done from the back: a path's last component is what
//! follows its last separator.

use vstd::prelude::*;
use crate::descriptors::sub_chars;

verus! {

/// Whether a path has a root.
pub open spec fn has_root(p: Seq<char>) -> bool {
    p.len() > 0 && p[0] == '/'
}

/// Whether a relative path begins with a `.` component.
pub open spec fn leading_dot(p: Seq<char>) -> bool {
    !has_root(p) && p.len() > 0 && p[0] == '.' && (p.len() == 1 || p[1] == '/')
}

/// Where the body of a path begins: after its root or leading `.`.
pub open spec fn body_start(p: Seq<char>) -> nat {
    if has_root(p) || leading_dot(p) { 1 } else { 0 }
}

/// The position of the last `/` at or after `lo`, or -1.
pub open spec fn last_sep(s: Seq<char>, lo: nat) -> int
    decreases s.len(),
{
    if s.len() <= lo {
        -1
    } else if s.last() == '/' {
        s.len() - 1
    } else {
        last_sep(s.drop_last(), lo)
    }
}

pub proof fn lemma_last_sep(s: Seq<char>, lo: nat)
    ensures
        -1 <= last_sep(s, lo) < s.len(),
        last_sep(s, lo) >= 0 ==> lo <= last_sep(s, lo) && s[last_sep(s, lo)] == '/',
        forall|i: int| lo <= i < s.len() && last_sep(s, lo) < i ==> s[i] != '/',
    decreases s.len(),
{
    if s.len() > lo && s.last() != '/' {
        lemma_last_sep(s.drop_last(), lo);
        assert forall|i: int| lo <= i < s.len() && last_sep(s, lo) < i implies s[i] != '/' by {
            if i < s.len() - 1 {
                assert(s[i] == s.drop_last()[i]);
            }
        }
    }
}

/// Where the last piece of `s` (above `lo`) begins its cut: its separator,
/// or `lo` when it has none.
pub open spec fn cut(s: Seq<char>, lo: nat) -> int {
    let j = last_sep(s, lo);
    if j < 0 { lo as int } else { j }
}

/// The last piece of `s` above `lo`: what follows the last separator.
pub open spec fn last_piece(s: Seq<char>, lo: nat) -> Seq<char> {
    let j = last_sep(s, lo);
    s.subrange(if j < 0 { lo as int } else { j + 1 }, s.len() as int)
}

/// Whether a piece is a component: neither empty nor `.`.
pub open spec fn is_component(c: Seq<char>) -> bool {
    c.len() > 0 && c != seq!['.']
}

/// `s` without its trailing empty and `.` pieces above `lo`.
pub open spec fn trim_back(s: Seq<char>, lo: nat) -> Seq<char>
    decreases s.len(),
{
    if s.len() <= lo {
        s
    } else if is_component(last_piece(s, lo)) {
        s
    } else {
        proof {
            lemma_last_sep(s, lo);
        }
        trim_back(s.subrange(0, cut(s, lo)), lo)
    }
}

/// The components of the body of `s` above `lo`, in order.
pub open spec fn body_comps(s: Seq<char>, lo: nat) -> Seq<Seq<char>>
    decreases s.len(),
{
    if s.len() <= lo {
        seq![]
    } else {
        proof {
            lemma_last_sep(s, lo);
        }
        let rest = body_comps(s.subrange(0, cut(s, lo)), lo);
        if is_component(last_piece(s, lo)) { rest.push(last_piece(s, lo)) } else { rest }
    }
}

/// The name components of a path: its leading `.`, if any, then the
/// components of its body (`..` among them).
pub open spec fn name_parts(p: Seq<char>) -> Seq<Seq<char>> {
    (if leading_dot(p) { seq![seq!['.']] } else { seq![] }) + body_comps(p, body_start(p))
}

/// All components of a path, the root written `/`.
pub open spec fn comps(p: Seq<char>) -> Seq<Seq<char>> {
    (if has_root(p) { seq![seq!['/']] } else { seq![] }) + name_parts(p)
}

/// The last component of a path when it is a name (not `..`, the root or
/// the leading `.`).
pub open spec fn file_name(p: Seq<char>) -> Option<Seq<char>> {
    let t = trim_back(p, body_start(p));
    if t.len() > body_start(p) && last_piece(t, body_start(p)) != seq!['.', '.'] {
        Some(last_piece(t, body_start(p)))
    } else {
        None
    }
}

/// The path without its last component, as text; none for the root alone
/// and the empty path. Separators and `.` pieces inside are kept.
pub open spec fn parent(p: Seq<char>) -> Option<Seq<char>> {
    let lo = body_start(p);
    let t = trim_back(p, lo);
    if t.len() > lo {
        Some(trim_back(t.subrange(0, cut(t, lo)), lo))
    } else if leading_dot(p) {
        Some(seq![])
    } else {
        None
    }
}

/// `base` with `other` pushed on: `other` alone when it has a root, else
/// joined by a separator unless `base` is empty or ends with one.
pub open spec fn join(base: Seq<char>, other: Seq<char>) -> Seq<char> {
    if has_root(other) {
        other
    } else if base.len() > 0 && base.last() != '/' {
        base + seq!['/'] + other
    } else {
        base + other
    }
}

/// The pieces pushed one after another onto an empty path.
pub open spec fn join_all(parts: Seq<Seq<char>>) -> Seq<char>
    decreases parts.len(),
{
    if parts.len() == 0 {
        seq![]
    } else {
        join(join_all(parts.drop_last()), parts.last())
    }
}

/// The name components left after dropping `.` and letting each `..` take
/// away the name before it; at the top of an absolute path `..` vanishes,
/// in a relative one it stays.
pub open spec fn fold_names(cs: Seq<Seq<char>>, absolute: bool) -> Seq<Seq<char>>
    decreases cs.len(),
{
    if cs.len() == 0 {
        seq![]
    } else {
        let st = fold_names(cs.drop_last(), absolute);
        let c = cs.last();
        if c == seq!['.'] {
            st
        } else if c == seq!['.', '.'] {
            if st.len() > 0 && st.last() != seq!['.', '.'] {
                st.drop_last()
            } else if !absolute {
                st.push(c)
            } else {
                st
            }
        } else {
            st.push(c)
        }
    }
}

/// The path with `.` and `..` resolved, as text.
pub open spec fn normalized(p: Seq<char>) -> Seq<char> {
    join_all((if has_root(p) { seq![seq!['/']] } else { seq![] }) + fold_names(name_parts(p), has_root(p)))
}

/// Whether the components of `q` begin those of `p`.
pub open spec fn comps_prefix(p: Seq<char>, q: Seq<char>) -> bool {
    comps(q).len() <= comps(p).len() && comps(p).subrange(0, comps(q).len() as int) == comps(q)
}

/// Whether the components of `q` end those of `p`.
pub open spec fn comps_suffix(p: Seq<char>, q: Seq<char>) -> bool {
    comps(q).len() <= comps(p).len()
        && comps(p).subrange(comps(p).len() - comps(q).len(), comps(p).len() as int) == comps(q)
}

/// The character sequences a vector of vectors holds.
pub open spec fn views(v: Seq<Vec<char>>) -> Seq<Seq<char>> {
    v.map_values(|x: Vec<char>| x@)
}

/// The last separator of `s[..end]` at or after `lo`.
fn last_sep_of(s: &Vec<char>, lo: usize, end: usize) -> (j: Option<usize>)
    requires
        end <= s@.len(),
    ensures
        match j {
            Some(j) => last_sep(s@.subrange(0, end as int), lo as nat) == j as int,
            None => last_sep(s@.subrange(0, end as int), lo as nat) == -1,
        },
{
    let mut i = end;
    while i > lo
        invariant
            i <= end <= s@.len(),
            last_sep(s@.subrange(0, end as int), lo as nat) == last_sep(s@.subrange(0, i as int), lo as nat),
        decreases i,
    {
        assert(s@.subrange(0, i as int).drop_last() =~= s@.subrange(0, i - 1));
        if s[i - 1] == '/' {
            return Some(i - 1);
        }
        i = i - 1;
    }
    None
}

/// The cut and the start of the last piece of `s[..end]` above `lo`.
fn last_piece_of(s: &Vec<char>, lo: usize, end: usize) -> (r: (usize, usize))
    requires
        lo < end <= s@.len(),
    ensures
        r.0 as int == cut(s@.subrange(0, end as int), lo as nat),
        r.0 < end,
        r.0 <= r.1 <= end,
        s@.subrange(r.1 as int, end as int) == last_piece(s@.subrange(0, end as int), lo as nat),
{
    proof {
        lemma_last_sep(s@.subrange(0, end as int), lo as nat);
    }
    let r = match last_sep_of(s, lo, end) {
        Some(j) => (j, j + 1),
        None => (lo, lo),
    };
    assert(s@.subrange(r.1 as int, end as int) =~= last_piece(s@.subrange(0, end as int), lo as nat));
    r
}

/// Whether `s[a..b]` is a component.
fn is_component_at(s: &Vec<char>, a: usize, b: usize) -> (res: bool)
    requires
        a <= b <= s@.len(),
    ensures
        res == is_component(s@.subrange(a as int, b as int)),
{
    if b > a && b - a == 1 && s[a] == '.' {
        assert(s@.subrange(a as int, b as int) =~= seq!['.']);
        false
    } else {
        assert(b > a + 1 ==> s@.subrange(a as int, b as int).len() != 1);
        assert(b == a + 1 ==> s@.subrange(a as int, b as int)[0] != '.');
        b > a
    }
}

/// The end of `trim_back(s[..end], lo)`.
fn trim_back_of(s: &Vec<char>, lo: usize, end: usize) -> (e: usize)
    requires
        end <= s@.len(),
    ensures
        e <= end,
        s@.subrange(0, e as int) == trim_back(s@.subrange(0, end as int), lo as nat),
    decreases end,
{
    if end <= lo {
        return end;
    }
    let (c, start) = last_piece_of(s, lo, end);
    if is_component_at(s, start, end) {
        end
    } else {
        assert(s@.subrange(0, end as int).subrange(0, c as int) =~= s@.subrange(0, c as int));
        trim_back_of(s, lo, c)
    }
}

/// The components of the body of `s[..end]` above `lo`.
fn body_comps_of(s: &Vec<char>, lo: usize, end: usize) -> (res: Vec<Vec<char>>)
    requires
        end <= s@.len(),
    ensures
        views(res@) == body_comps(s@.subrange(0, end as int), lo as nat),
    decreases end,
{
    if end <= lo {
        let empty: Vec<Vec<char>> = Vec::new();
        assert(views(empty@) =~= seq![]);
        return empty;
    }
    let (c, start) = last_piece_of(s, lo, end);
    assert(s@.subrange(0, end as int).subrange(0, c as int) =~= s@.subrange(0, c as int));
    let mut rest = body_comps_of(s, lo, c);
    if is_component_at(s, start, end) {
        let ghost before = rest@;
        rest.push(sub_chars(s, start, end));
        assert(views(rest@) =~= views(before).push(s@.subrange(start as int, end as int)));
    }
    rest
}

fn has_root_of(p: &Vec<char>) -> (b: bool)
    ensures
        b == has_root(p@),
{
    p.len() > 0 && p[0] == '/'
}

fn leading_dot_of(p: &Vec<char>) -> (b: bool)
    ensures
        b == leading_dot(p@),
{
    !has_root_of(p) && p.len() > 0 && p[0] == '.' && (p.len() == 1 || p[1] == '/')
}

fn body_start_of(p: &Vec<char>) -> (n: usize)
    ensures
        n as nat == body_start(p@),
{
    if has_root_of(p) || leading_dot_of(p) { 1 } else { 0 }
}

fn single(c: char) -> (v: Vec<char>)
    ensures
        v@ == seq![c],
{
    let mut v: Vec<char> = Vec::new();
    v.push(c);
    assert(v@ =~= seq![c]);
    v
}

/// The name components of a path.
pub fn path_name_components(p: &Vec<char>) -> (res: Vec<Vec<char>>)
    ensures
        views(res@) == name_parts(p@),
{
    let body = body_comps_of(p, body_start_of(p), p.len());
    assert(p@.subrange(0, p@.len() as int) =~= p@);
    let mut res: Vec<Vec<char>> = Vec::new();
    if leading_dot_of(p) {
        res.push(single('.'));
    }
    let ghost head = views(res@);
    let mut i: usize = 0;
    while i < body.len()
        invariant
            i <= body@.len(),
            head == (if leading_dot(p@) { seq![seq!['.']] } else { seq![] }),
            views(res@) == head + views(body@).subrange(0, i as int),
        decreases body@.len() - i,
    {
        let ghost before = views(res@);
        res.push(crate::helpers::copy_chars(&body[i]));
        assert(views(res@) =~= before.push(views(body@)[i as int]));
        assert(views(body@).subrange(0, i + 1) =~= views(body@).subrange(0, i as int).push(views(body@)[i as int]));
        i = i + 1;
    }
    assert(views(body@).subrange(0, i as int) =~= views(body@));
    res
}

/// All components of a path, the root written `/`.
pub fn path_components(p: &Vec<char>) -> (res: Vec<Vec<char>>)
    ensures
        views(res@) == comps(p@),
{
    let names = path_name_components(p);
    let mut res: Vec<Vec<char>> = Vec::new();
    if has_root_of(p) {
        res.push(single('/'));
    }
    let ghost head = views(res@);
    let mut i: usize = 0;
    while i < names.len()
        invariant
            i <= names@.len(),
            head == (if has_root(p@) { seq![seq!['/']] } else { seq![] }),
            views(res@) == head + views(names@).subrange(0, i as int),
        decreases names@.len() - i,
    {
        let ghost before = views(res@);
        res.push(crate::helpers::copy_chars(&names[i]));
        assert(views(res@) =~= before.push(views(names@)[i as int]));
        assert(views(names@).subrange(0, i + 1) =~= views(names@).subrange(0, i as int).push(views(names@)[i as int]));
        i = i + 1;
    }
    assert(views(names@).subrange(0, i as int) =~= views(names@));
    res
}

fn is_dot(c: &Vec<char>) -> (b: bool)
    ensures
        b == (c@ == seq!['.']),
{
    if c.len() == 1 && c[0] == '.' {
        assert(c@ =~= seq!['.']);
        true
    } else {
        false
    }
}

fn is_dot_dot(c: &Vec<char>) -> (b: bool)
    ensures
        b == (c@ == seq!['.', '.']),
{
    if c.len() == 2 && c[0] == '.' && c[1] == '.' {
        assert(c@ =~= seq!['.', '.']);
        true
    } else {
        false
    }
}

/// The last component of a path when it is a name.
pub fn path_file_name(p: &Vec<char>) -> (res: Option<Vec<char>>)
    ensures
        match res {
            Some(n) => file_name(p@) == Some(n@),
            None => file_name(p@) is None,
        },
{
    let lo = body_start_of(p);
    let e = trim_back_of(p, lo, p.len());
    assert(p@.subrange(0, p@.len() as int) =~= p@);
    if e > lo {
        let (_, start) = last_piece_of(p, lo, e);
        let name = sub_chars(p, start, e);
        if is_dot_dot(&name) {
            None
        } else {
            Some(name)
        }
    } else {
        None
    }
}

/// The path without its last component, as text.
pub fn path_parent(p: &Vec<char>) -> (res: Option<Vec<char>>)
    ensures
        match res {
            Some(q) => parent(p@) == Some(q@),
            None => parent(p@) is None,
        },
{
    let lo = body_start_of(p);
    let e = trim_back_of(p, lo, p.len());
    assert(p@.subrange(0, p@.len() as int) =~= p@);
    if e > lo {
        let (c, _) = last_piece_of(p, lo, e);
        let f = trim_back_of(p, lo, c);
        assert(p@.subrange(0, e as int).subrange(0, c as int) =~= p@.subrange(0, c as int));
        Some(sub_chars(p, 0, f))
    } else if leading_dot_of(p) {
        Some(Vec::new())
    } else {
        None
    }
}

/// The root of a path: `/` when it has one.
pub fn root_path(p: &Vec<char>) -> (res: Option<Vec<char>>)
    ensures
        match res {
            Some(r) => has_root(p@) && r@ == seq!['/'],
            None => !has_root(p@),
        },
{
    if has_root_of(p) { Some(single('/')) } else { None }
}

/// `base` with `other` pushed on.
pub fn path_join(base: &Vec<char>, other: &Vec<char>) -> (res: Vec<char>)
    ensures
        res@ == join(base@, other@),
{
    let mut res = crate::helpers::copy_chars(base);
    if has_root_of(other) {
        return crate::helpers::copy_chars(other);
    }
    if base.len() > 0 && base[base.len() - 1] != '/' {
        res.push('/');
    }
    let ghost head = res@;
    let mut i: usize = 0;
    while i < other.len()
        invariant
            i <= other@.len(),
            res@ == head + other@.subrange(0, i as int),
        decreases other@.len() - i,
    {
        res.push(other[i]);
        i = i + 1;
        assert(res@ =~= head + other@.subrange(0, i as int));
    }
    assert(other@.subrange(0, i as int) =~= other@);
    proof {
        if base@.len() > 0 && base@.last() != '/' {
            assert(head =~= base@ + seq!['/']);
        }
    }
    res
}

/// The pieces pushed one after another onto an empty path.
pub fn path_join_all(parts: &Vec<Vec<char>>) -> (res: Vec<char>)
    ensures
        res@ == join_all(views(parts@)),
{
    let mut res: Vec<char> = Vec::new();
    let mut i: usize = 0;
    while i < parts.len()
        invariant
            i <= parts@.len(),
            res@ == join_all(views(parts@).subrange(0, i as int)),
        decreases parts@.len() - i,
    {
        assert(views(parts@).subrange(0, i + 1).drop_last() =~= views(parts@).subrange(0, i as int));
        res = path_join(&res, &parts[i]);
        i = i + 1;
    }
    assert(views(parts@).subrange(0, i as int) =~= views(parts@));
    res
}

/// `fold_names` on a vector of names.
fn fold_names_of(cs: &Vec<Vec<char>>, absolute: bool) -> (res: Vec<Vec<char>>)
    ensures
        views(res@) == fold_names(views(cs@), absolute),
{
    let mut st: Vec<Vec<char>> = Vec::new();
    let mut i: usize = 0;
    assert(views(st@) =~= fold_names(views(cs@).subrange(0, 0), absolute));
    while i < cs.len()
        invariant
            i <= cs@.len(),
            views(st@) == fold_names(views(cs@).subrange(0, i as int), absolute),
        decreases cs@.len() - i,
    {
        let ghost prev = views(st@);
        assert(views(cs@).subrange(0, i + 1).drop_last() =~= views(cs@).subrange(0, i as int));
        assert(views(cs@).subrange(0, i + 1).last() == cs@[i as int]@);
        let c = &cs[i];
        if is_dot(c) {
        } else if is_dot_dot(c) {
            let n = st.len();
            if n > 0 && !is_dot_dot(&st[n - 1]) {
                st.pop();
                assert(views(st@) =~= prev.drop_last());
            } else if !absolute {
                st.push(crate::helpers::copy_chars(c));
                assert(views(st@) =~= prev.push(c@));
            }
        } else {
            st.push(crate::helpers::copy_chars(c));
            assert(views(st@) =~= prev.push(c@));
        }
        i = i + 1;
    }
    assert(views(cs@).subrange(0, i as int) =~= views(cs@));
    st
}

/// The path with `.` and `..` resolved, as text.
pub fn normalize_path(p: &Vec<char>) -> (res: Vec<char>)
    ensures
        res@ == normalized(p@),
{
    let absolute = has_root_of(p);
    let names = path_name_components(p);
    let folded = fold_names_of(&names, absolute);
    let mut parts: Vec<Vec<char>> = Vec::new();
    if absolute {
        parts.push(single('/'));
    }
    let ghost head = views(parts@);
    let mut i: usize = 0;
    while i < folded.len()
        invariant
            i <= folded@.len(),
            head == (if absolute { seq![seq!['/']] } else { seq![] }),
            views(parts@) == head + views(folded@).subrange(0, i as int),
        decreases folded@.len() - i,
    {
        let ghost before = views(parts@);
        parts.push(crate::helpers::copy_chars(&folded[i]));
        assert(views(parts@) =~= before.push(views(folded@)[i as int]));
        assert(views(folded@).subrange(0, i + 1) =~= views(folded@).subrange(0, i as int).push(views(folded@)[i as int]));
        i = i + 1;
    }
    assert(views(folded@).subrange(0, i as int) =~= views(folded@));
    path_join_all(&parts)
}

fn same_parts(a: &Vec<Vec<char>>, i: usize, b: &Vec<Vec<char>>) -> (res: bool)
    requires
        i + b@.len() <= a@.len(),
    ensures
        res == (views(a@).subrange(i as int, i + b@.len()) == views(b@)),
{
    let n = a.len();
    let mut k: usize = 0;
    while k < b.len()
        invariant
            k <= b@.len(),
            n == a@.len(),
            i + b@.len() <= a@.len(),
            forall|m: int| 0 <= m < k ==> views(a@)[i + m] == views(b@)[m],
        decreases b@.len() - k,
    {
        if !crate::chars::eq_chars(&a[i + k], &b[k]) {
            assert(views(a@).subrange(i as int, i + b@.len())[k as int] != views(b@)[k as int]);
            return false;
        }
        k = k + 1;
    }
    assert(views(a@).subrange(i as int, i + b@.len()) =~= views(b@));
    true
}

/// Whether the components of `q` begin those of `p`.
pub fn path_starts_with(p: &Vec<char>, q: &Vec<char>) -> (res: bool)
    ensures
        res == comps_prefix(p@, q@),
{
    let a = path_components(p);
    let b = path_components(q);
    if b.len() > a.len() {
        return false;
    }
    same_parts(&a, 0, &b)
}

/// Whether the components of `q` end those of `p`.
pub fn path_ends_with(p: &Vec<char>, q: &Vec<char>) -> (res: bool)
    ensures
        res == comps_suffix(p@, q@),
{
    let a = path_components(p);
    let b = path_components(q);
    if b.len() > a.len() {
        return false;
    }
    same_parts(&a, a.len() - b.len(), &b)
}

/// A path's text as a Java string: the same characters, since paths here
/// are held as text already.
pub fn java_string_from_path(p: &Vec<char>) -> (s: Vec<char>)
    ensures
        s@ == p@,
{
    crate::helpers::copy_chars(p)
}

} // verus!
