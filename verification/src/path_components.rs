//! Paths compared the way `std::path::Path` compares them on Unix: by their
//! components, so that repeated separators, a trailing separator and `.`
//! pieces after the start make no difference.

use vstd::prelude::*;
use vstd::string::*;
use crate::text::chars_of;

verus! {

/// The pieces of a path between its `/` separators, in order (empty pieces
/// included).
pub open spec fn path_pieces(s: Seq<char>) -> Seq<Seq<char>>
    decreases s.len(),
{
    if s.len() == 0 {
        seq![Seq::<char>::empty()]
    } else {
        let r = path_pieces(s.drop_last());
        if s.last() == '/' {
            r.push(Seq::<char>::empty())
        } else {
            r.update(r.len() - 1, r.last().push(s.last()))
        }
    }
}

/// A piece that names something: neither empty nor `.`.
pub open spec fn is_named_piece(p: Seq<char>) -> bool {
    p.len() > 0 && p != seq!['.']
}

/// The naming pieces, in order.
pub open spec fn named_pieces(ps: Seq<Seq<char>>) -> Seq<Seq<char>>
    decreases ps.len(),
{
    if ps.len() == 0 {
        Seq::empty()
    } else {
        let r = named_pieces(ps.drop_last());
        if is_named_piece(ps.last()) {
            r.push(ps.last())
        } else {
            r
        }
    }
}

/// The leading component: the root `/`, or `.` when a relative path starts
/// with a `.` piece, or none.
pub open spec fn path_head(s: Seq<char>) -> Seq<Seq<char>> {
    if s.len() > 0 && s[0] == '/' {
        seq![seq!['/']]
    } else if s.len() > 0 && s[0] == '.' && (s.len() == 1 || s[1] == '/') {
        seq![seq!['.']]
    } else {
        Seq::empty()
    }
}

/// The components of a path: its leading component, then its naming
/// pieces.
pub open spec fn path_components(s: Seq<char>) -> Seq<Seq<char>> {
    path_head(s) + named_pieces(path_pieces(s))
}

/// The characters of each component.
pub open spec fn component_views(v: Seq<Vec<char>>) -> Seq<Seq<char>> {
    v.map_values(|p: Vec<char>| p@)
}

proof fn lemma_pieces_nonempty(s: Seq<char>)
    ensures
        path_pieces(s).len() >= 1,
    decreases s.len(),
{
    if s.len() > 0 {
        lemma_pieces_nonempty(s.drop_last());
    }
}

proof fn lemma_pieces_after_separator(s: Seq<char>, n: Seq<char>)
    requires
        forall|i: int| 0 <= i < n.len() ==> n[i] != '/',
    ensures
        path_pieces(s + seq!['/'] + n) == path_pieces(s).push(n),
    decreases n.len(),
{
    if n.len() == 0 {
        assert(s + seq!['/'] + n =~= s.push('/'));
        assert(s.push('/').drop_last() =~= s);
        assert(n =~= Seq::<char>::empty());
    } else {
        let m = n.drop_last();
        let c = n.last();
        assert(c == n[n.len() - 1]);
        assert(c != '/');
        assert forall|i: int| 0 <= i < m.len() implies m[i] != '/' by {
            assert(m[i] == n[i]);
        }
        lemma_pieces_after_separator(s, m);
        let r = path_pieces(s).push(m);
        assert(r.len() - 1 == path_pieces(s).len());
        assert(r.last() == m);
        let t = s + seq!['/'] + n;
        assert(t.drop_last() =~= s + seq!['/'] + m);
        assert(t.last() == c);
        assert(m.push(c) =~= n);
        assert(path_pieces(s).push(m).update(path_pieces(s).len() as int, m.push(c)) =~= path_pieces(s).push(n));
    }
}

/// Appending a separator and a named piece (neither empty nor `.`, with no
/// `/` in it) to a non-empty path appends exactly that piece to the path's
/// components: every named piece counts, wherever it stands.
pub proof fn lemma_components_keep_every_named_piece(s: Seq<char>, n: Seq<char>)
    requires
        s.len() > 0,
        is_named_piece(n),
        forall|i: int| 0 <= i < n.len() ==> n[i] != '/',
    ensures
        path_components(s + seq!['/'] + n) == path_components(s).push(n),
{
    lemma_pieces_after_separator(s, n);
    let t = s + seq!['/'] + n;
    assert(path_pieces(s).push(n).drop_last() =~= path_pieces(s));
    assert(t[0] == s[0]);
    if s.len() == 1 {
        assert(t[1] == '/');
    } else {
        assert(t[1] == s[1]);
    }
    assert(path_head(t) == path_head(s));
    assert(path_components(t) =~= path_components(s).push(n));
}

/// Two paths that are the same path have the same components, so paths
/// that differ in any component are never the same.
pub proof fn lemma_differing_component_means_different_paths(a: Seq<char>, b: Seq<char>, i: int)
    requires
        0 <= i < path_components(a).len(),
        i < path_components(b).len(),
        path_components(a)[i] != path_components(b)[i],
    ensures
        path_components(a) != path_components(b),
{
}

fn is_named(p: &Vec<char>) -> (r: bool)
    ensures
        r == is_named_piece(p@),
{
    if p.len() == 0 {
        false
    } else if p.len() == 1 && p[0] == '.' {
        assert(p@ =~= seq!['.']);
        false
    } else {
        true
    }
}

/// The components of `s`.
pub fn components_of(s: &str) -> (r: Vec<Vec<char>>)
    ensures
        component_views(r@) == path_components(s@),
{
    let chars = chars_of(s);
    let mut out: Vec<Vec<char>> = Vec::new();
    if chars.len() > 0 && chars[0] == '/' {
        let mut root: Vec<char> = Vec::new();
        root.push('/');
        assert(root@ =~= seq!['/']);
        out.push(root);
    } else if chars.len() > 0 && chars[0] == '.' && (chars.len() == 1 || chars[1] == '/') {
        let mut cur_dir: Vec<char> = Vec::new();
        cur_dir.push('.');
        assert(cur_dir@ =~= seq!['.']);
        out.push(cur_dir);
    }
    assert(component_views(out@) =~= path_head(s@));
    let mut cur: Vec<char> = Vec::new();
    let ghost mut done: Seq<Seq<char>> = Seq::empty();
    assert(s@.subrange(0, 0) =~= Seq::<char>::empty());
    assert(done.push(cur@) =~= seq![Seq::<char>::empty()]);
    let mut i: usize = 0;
    while i < chars.len()
        invariant
            i <= chars@.len(),
            chars@ == s@,
            path_pieces(s@.subrange(0, i as int)) == done.push(cur@),
            component_views(out@) == path_head(s@) + named_pieces(done),
        decreases chars@.len() - i,
    {
        let c = chars[i];
        let ghost before = s@.subrange(0, i as int);
        proof {
            assert(s@.subrange(0, i + 1).drop_last() =~= before);
            assert(s@.subrange(0, i + 1).last() == c);
            lemma_pieces_nonempty(before);
        }
        if c == '/' {
            let ghost old_out = out@;
            let ghost piece = cur@;
            if is_named(&cur) {
                out.push(cur);
                assert(component_views(out@) =~= component_views(old_out).push(piece));
            }
            proof {
                assert(done.push(piece).drop_last() =~= done);
                assert(path_head(s@) + named_pieces(done.push(piece)) =~= component_views(out@));
                done = done.push(piece);
            }
            cur = Vec::new();
            assert(path_pieces(s@.subrange(0, i + 1)) =~= done.push(cur@));
        } else {
            cur.push(c);
            assert(path_pieces(s@.subrange(0, i + 1)) =~= done.push(cur@));
        }
        i = i + 1;
    }
    assert(s@.subrange(0, chars@.len() as int) =~= s@);
    let ghost old_out = out@;
    let ghost piece = cur@;
    assert(done.push(piece).drop_last() =~= done);
    if is_named(&cur) {
        out.push(cur);
        assert(component_views(out@) =~= component_views(old_out).push(piece));
    }
    assert(component_views(out@) =~= path_head(s@) + named_pieces(done.push(piece)));
    out
}

fn chars_eq(a: &Vec<char>, b: &Vec<char>) -> (r: bool)
    ensures
        r == (a@ == b@),
{
    if a.len() != b.len() {
        return false;
    }
    let mut i: usize = 0;
    while i < a.len()
        invariant
            a@.len() == b@.len(),
            i <= a@.len(),
            forall|j: int| 0 <= j < i ==> a@[j] == b@[j],
        decreases a@.len() - i,
    {
        if a[i] != b[i] {
            return false;
        }
        i = i + 1;
    }
    assert(a@ =~= b@);
    true
}

/// Whether two paths have the same components, as `Path`'s `==` decides.
pub fn same_path(a: &str, b: &str) -> (r: bool)
    ensures
        r == (path_components(a@) == path_components(b@)),
{
    let ca = components_of(a);
    let cb = components_of(b);
    if ca.len() != cb.len() {
        assert(component_views(ca@).len() != component_views(cb@).len());
        return false;
    }
    let mut i: usize = 0;
    while i < ca.len()
        invariant
            ca@.len() == cb@.len(),
            component_views(ca@) == path_components(a@),
            component_views(cb@) == path_components(b@),
            i <= ca@.len(),
            forall|j: int| 0 <= j < i ==> ca@[j]@ == cb@[j]@,
        decreases ca@.len() - i,
    {
        if !chars_eq(&ca[i], &cb[i]) {
            assert(component_views(ca@)[i as int] == ca@[i as int]@);
            assert(component_views(cb@)[i as int] == cb@[i as int]@);
            assert(component_views(ca@) != component_views(cb@));
            return false;
        }
        i = i + 1;
    }
    assert(component_views(ca@) =~= component_views(cb@));
    true
}

} // verus!
