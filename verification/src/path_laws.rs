//! Normalizing a path twice gives what normalizing it once gives.

use vstd::prelude::*;
use crate::paths::{
    body_comps, body_start, comps, cut, fold_names, has_root, is_component, join, join_all, last_piece,
    last_sep, leading_dot, lemma_last_sep, name_parts, normalized,
};

verus! {

/// A piece without a separator.
pub open spec fn no_sep(c: Seq<char>) -> bool {
    forall|i: int| 0 <= i < c.len() ==> c[i] != '/'
}

/// What a path's name components look like: not empty, no separator.
pub open spec fn name_like(c: Seq<char>) -> bool {
    c.len() > 0 && no_sep(c)
}

pub open spec fn dot_dot() -> Seq<char> {
    seq!['.', '.']
}

/// Names as normalizing leaves them: no `.`, `..` only at the front, and
/// none at all in an absolute path.
pub open spec fn clean(st: Seq<Seq<char>>, absolute: bool) -> bool {
    &&& forall|i: int| 0 <= i < st.len() ==> name_like(#[trigger] st[i]) && st[i] != seq!['.']
        && (absolute ==> st[i] != dot_dot())
    &&& forall|i: int, j: int| 0 <= i < j < st.len() && st[j] == dot_dot() ==> st[i] == dot_dot()
}

/// `base` with the pieces pushed on one after another.
pub open spec fn joined_from(base: Seq<char>, parts: Seq<Seq<char>>) -> Seq<char>
    decreases parts.len(),
{
    if parts.len() == 0 {
        base
    } else {
        join(joined_from(base, parts.drop_last()), parts.last())
    }
}

proof fn lemma_join_all_split(pre: Seq<Seq<char>>, parts: Seq<Seq<char>>)
    ensures
        join_all(pre + parts) == joined_from(join_all(pre), parts),
    decreases parts.len(),
{
    if parts.len() == 0 {
        assert(pre + parts =~= pre);
    } else {
        lemma_join_all_split(pre, parts.drop_last());
        assert((pre + parts).drop_last() =~= pre + parts.drop_last());
        assert((pre + parts).last() == parts.last());
    }
}

/// The pieces of a body are components without separators.
proof fn lemma_body_comps_pieces(s: Seq<char>, lo: nat)
    ensures
        forall|i: int| 0 <= i < body_comps(s, lo).len() ==>
            is_component(#[trigger] body_comps(s, lo)[i]) && no_sep(body_comps(s, lo)[i]),
    decreases s.len(),
{
    if s.len() > lo {
        lemma_last_sep(s, lo);
        let c = cut(s, lo);
        lemma_body_comps_pieces(s.subrange(0, c), lo);
        let piece = last_piece(s, lo);
        let j = last_sep(s, lo);
        let from = if j < 0 { lo as int } else { j + 1 };
        assert forall|k: int| 0 <= k < piece.len() implies piece[k] != '/' by {
            assert(piece[k] == s[from + k]);
        }
        let rest = body_comps(s.subrange(0, c), lo);
        let bc = body_comps(s, lo);
        if is_component(piece) {
            assert(bc == rest.push(piece));
        } else {
            assert(bc == rest);
        }
        assert forall|i: int| 0 <= i < bc.len() implies is_component(#[trigger] bc[i]) && no_sep(bc[i]) by {
            if i < rest.len() {
                assert(bc[i] == rest[i]);
            }
        }
    }
}

/// Name components are names.
proof fn lemma_name_parts_like(p: Seq<char>)
    ensures
        forall|i: int| 0 <= i < name_parts(p).len() ==> name_like(#[trigger] name_parts(p)[i]),
{
    lemma_body_comps_pieces(p, body_start(p));
    let head: Seq<Seq<char>> = if leading_dot(p) { seq![seq!['.']] } else { seq![] };
    let body = body_comps(p, body_start(p));
    assert forall|i: int| 0 <= i < name_parts(p).len() implies name_like(#[trigger] name_parts(p)[i]) by {
        if i < head.len() {
            assert(name_parts(p)[i] == seq!['.']);
        } else {
            assert(name_parts(p)[i] == body[i - head.len()]);
        }
    }
}

/// Folding names leaves them clean.
proof fn lemma_fold_clean(cs: Seq<Seq<char>>, absolute: bool)
    requires
        forall|i: int| 0 <= i < cs.len() ==> name_like(#[trigger] cs[i]),
    ensures
        clean(fold_names(cs, absolute), absolute),
    decreases cs.len(),
{
    if cs.len() > 0 {
        lemma_fold_clean(cs.drop_last(), absolute);
        let st = fold_names(cs.drop_last(), absolute);
        let c = cs.last();
        let r = fold_names(cs, absolute);
        if c == seq!['.'] {
        } else if c == dot_dot() {
            if st.len() > 0 && st.last() != dot_dot() {
                assert(r == st.drop_last());
            } else if !absolute {
                assert(r == st.push(c));
                assert forall|i: int, j: int| 0 <= i < j < r.len() && r[j] == dot_dot() implies r[i] == dot_dot() by {
                    if j == r.len() - 1 && st.len() > 0 {
                        assert(st[st.len() - 1] == dot_dot());
                        if i < st.len() - 1 {
                            assert(st[i] == dot_dot());
                        }
                    }
                }
            }
        } else {
            assert(r == st.push(c));
            assert forall|i: int, j: int| 0 <= i < j < r.len() && r[j] == dot_dot() implies r[i] == dot_dot() by {
                if j == r.len() - 1 {
                    assert(r[j] == c);
                }
            }
        }
    }
}

/// Folding clean names changes nothing.
proof fn lemma_fold_fixed(st: Seq<Seq<char>>, absolute: bool)
    requires
        clean(st, absolute),
    ensures
        fold_names(st, absolute) == st,
    decreases st.len(),
{
    if st.len() > 0 {
        let init = st.drop_last();
        assert(clean(init, absolute)) by {
            assert forall|i: int| 0 <= i < init.len() implies name_like(#[trigger] init[i]) && init[i] != seq!['.']
                && (absolute ==> init[i] != dot_dot()) by {
                assert(init[i] == st[i]);
            }
            assert forall|i: int, j: int| 0 <= i < j < init.len() && init[j] == dot_dot() implies init[i] == dot_dot() by {
                assert(init[i] == st[i] && init[j] == st[j]);
            }
        }
        lemma_fold_fixed(init, absolute);
        let c = st.last();
        assert(st[st.len() - 1] == c);
        if c == dot_dot() {
            if init.len() > 0 {
                assert(init.last() == st[init.len() - 1]);
                assert(st[init.len() - 1] == dot_dot());
            }
        }
        assert(init.push(c) =~= st);
    }
}

/// The last separator of `x + y`, when `y` has none, is that of `x`.
proof fn lemma_last_sep_append(x: Seq<char>, y: Seq<char>, lo: nat)
    requires
        no_sep(y),
        x.len() >= lo,
    ensures
        last_sep(x + y, lo) == last_sep(x, lo),
    decreases y.len(),
{
    if y.len() > 0 {
        assert((x + y).drop_last() =~= x + y.drop_last());
        assert((x + y).last() == y.last());
        assert(y.last() == y[y.len() - 1]);
        lemma_last_sep_append(x, y.drop_last(), lo);
    } else {
        assert(x + y =~= x);
    }
}

/// Reading back the components of pushed names gives the names.
proof fn lemma_body_of_joined(base: Seq<char>, st: Seq<Seq<char>>)
    requires
        base == Seq::<char>::empty() || base == seq!['/'],
        forall|i: int| 0 <= i < st.len() ==> name_like(#[trigger] st[i]) && st[i] != seq!['.'],
    ensures
        body_comps(joined_from(base, st), base.len()) == st,
        st.len() > 0 ==> joined_from(base, st).len() > base.len() && joined_from(base, st).last() != '/',
        joined_from(base, st).len() >= base.len(),
        joined_from(base, st).subrange(0, base.len() as int) == base,
        st.len() > 0 ==> joined_from(base, st).len() >= base.len() + st[0].len(),
        st.len() > 0 ==> joined_from(base, st).subrange(0, (base.len() + st[0].len()) as int) == base + st[0],
    decreases st.len(),
{
    let lo = base.len();
    if st.len() == 0 {
        assert(base.subrange(0, lo as int) =~= base);
    } else {
        let init = st.drop_last();
        let c = st.last();
        assert(c == st[st.len() - 1]);
        assert forall|i: int| 0 <= i < init.len() implies name_like(#[trigger] init[i]) && init[i] != seq!['.'] by {
            assert(init[i] == st[i]);
        }
        lemma_body_of_joined(base, init);
        let t0 = joined_from(base, init);
        let t = joined_from(base, st);
        assert(!has_root(c)) by {
            assert(c[0] != '/');
        }
        if t0.len() > 0 && t0.last() != '/' {
            assert(init.len() > 0);
            assert(t == t0 + seq!['/'] + c);
            let x = t0 + seq!['/'];
            assert(t =~= x + c);
            lemma_last_sep_append(x, c, lo);
            assert(x.last() == '/');
            assert(x.drop_last() =~= t0);
            assert(last_sep(x, lo) == t0.len());
            assert(cut(t, lo) == t0.len());
            assert(last_piece(t, lo) =~= c);
            assert(t.subrange(0, t0.len() as int) =~= t0);
            assert(t.subrange(0, lo as int) =~= t0.subrange(0, lo as int));
            assert(t.subrange(0, (lo + st[0].len()) as int) =~= t0.subrange(0, (lo + st[0].len()) as int)) by {
                assert(init[0] == st[0]);
            }
            assert(t.last() == c.last());
        } else {
            assert(init.len() == 0);
            assert(t0 == base);
            assert(t =~= base + c);
            assert(no_sep(c));
            lemma_last_sep_append(base, c, lo);
            assert(last_sep(base, lo) == -1);
            assert(cut(t, lo) == lo);
            assert(last_piece(t, lo) =~= c);
            assert(t.subrange(0, lo as int) =~= base);
            assert(body_comps(base, lo) == Seq::<Seq<char>>::empty());
            assert(t.subrange(0, (lo + st[0].len()) as int) =~= base + st[0]);
            assert(t.last() == c[c.len() - 1]);
        }
        assert(body_comps(t, lo) =~= st);
    }
}

/// Normalizing a path twice gives what normalizing it once gives.
pub proof fn law_normalize_idempotent(p: Seq<char>)
    ensures
        normalized(normalized(p)) == normalized(p),
{
    let absolute = has_root(p);
    let roots: Seq<Seq<char>> = if absolute { seq![seq!['/']] } else { seq![] };
    let st = fold_names(name_parts(p), absolute);
    lemma_name_parts_like(p);
    lemma_fold_clean(name_parts(p), absolute);
    lemma_join_all_split(roots, st);
    let base = join_all(roots);
    if absolute {
        assert(roots.drop_last() =~= Seq::<Seq<char>>::empty());
        assert(base == seq!['/']);
    } else {
        assert(base == Seq::<char>::empty());
    }
    let q = normalized(p);
    assert(q == joined_from(base, st));
    lemma_body_of_joined(base, st);
    // the normalized text has a root exactly when the path has one, and no leading `.`
    if absolute {
        assert(q.subrange(0, 1) == seq!['/']);
        assert(q[0] == q.subrange(0, 1)[0]);
        assert(has_root(q));
        assert(!leading_dot(q));
    } else {
        if st.len() > 0 {
            let w = st[0];
            assert(q.len() >= w.len());
            assert(q.subrange(0, w.len() as int) =~= w);
            assert(q[0] == q.subrange(0, w.len() as int)[0]);
            assert(q[0] == w[0]);
            assert(w[0] != '/');
            if w.len() > 1 {
                assert(q[1] == q.subrange(0, w.len() as int)[1]);
                assert(q[1] == w[1]);
                assert(w[1] != '/');
            } else {
                assert(w[0] != '.') by {
                    if w[0] == '.' {
                        assert(w =~= seq!['.']);
                    }
                }
            }
        }
        assert(!has_root(q));
        assert(!leading_dot(q));
    }
    assert(body_start(q) == base.len());
    assert(name_parts(q) =~= st);
    lemma_fold_fixed(st, absolute);
}

} // verus!
