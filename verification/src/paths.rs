//! Unix path strings joined as `PathBuf::join` joins them, and compared as
//! `Path` compares them.
use vstd::prelude::*;
use crate::text::{
    chars_of, push_range, same_text, split_char, split_on_char, string_from_range, views,
};

verus! {

/// `PathBuf::join` on Unix: an absolute `p` replaces `base`; otherwise a
/// `/` is put between the two unless `base` is empty or already ends in one.
pub open spec fn join_path(base: Seq<char>, p: Seq<char>) -> Seq<char> {
    if p.len() > 0 && p[0] == '/' {
        p
    } else if base.len() > 0 && base.last() != '/' {
        base + seq!['/'] + p
    } else {
        base + p
    }
}

/// `base.join(p)` for path strings.
pub fn join(base: &str, p: &str) -> (r: String)
    ensures
        r@ == join_path(base@, p@),
{
    let pv = chars_of(p);
    if pv.len() > 0 && pv[0] == '/' {
        return string_from_range(&pv, 0, pv.len());
    }
    let bv = chars_of(base);
    let mut r = string_from_range(&bv, 0, bv.len());
    if bv.len() > 0 && bv[bv.len() - 1] != '/' {
        crate::text::push_char(&mut r, '/');
    }
    push_range(&mut r, &pv, 0, pv.len());
    assert(bv@.subrange(0, bv@.len() as int) == bv@);
    assert(pv@.subrange(0, pv@.len() as int) == pv@);
    r
}

/// The names between the slashes of a path that count as components:
/// empty pieces and `.` left out.
pub open spec fn path_names(pieces: Seq<Seq<char>>) -> Seq<Seq<char>>
    decreases pieces.len(),
{
    if pieces.len() == 0 {
        pieces
    } else if pieces.last().len() == 0 || pieces.last() == seq!['.'] {
        path_names(pieces.drop_last())
    } else {
        path_names(pieces.drop_last()).push(pieces.last())
    }
}

/// What `Path::components` yields for a Unix path, as the comparison of
/// paths sees it: whether it starts at the root, whether a leading `.`
/// stands for the current directory, and the names of its components.
pub open spec fn path_key(p: Seq<char>) -> (bool, bool, Seq<Seq<char>>) {
    (
        p.len() > 0 && p[0] == '/',
        p.len() > 0 && p[0] == '.' && (p.len() == 1 || p[1] == '/'),
        path_names(split_char(p, '/')),
    )
}

/// Whether two path strings name the same path as `Path`'s `==` sees it:
/// the same components, so that a trailing slash, repeated slashes and
/// `.` components make no difference.
pub open spec fn same_path(a: Seq<char>, b: Seq<char>) -> bool {
    path_key(a) == path_key(b)
}

fn component_names(p: &str) -> (r: Vec<String>)
    ensures
        views(r@) == path_names(split_char(p@, '/')),
{
    let pieces = split_on_char(p, '/');
    let ghost ps = views(pieces@);
    let mut r: Vec<String> = Vec::new();
    let mut i: usize = 0;
    proof {
        reveal_strlit("");
        reveal_strlit(".");
    }
    while i < pieces.len()
        invariant
            i <= pieces.len(),
            ps == views(pieces@),
            ps == split_char(p@, '/'),
            views(r@) == path_names(ps.take(i as int)),
            ""@ == Seq::<char>::empty(),
            "."@ == seq!['.'],
        decreases pieces.len() - i,
    {
        let ghost before = views(r@);
        let ghost t = ps.take(i + 1);
        assert(t.drop_last() == ps.take(i as int));
        assert(t.last() == pieces@[i as int]@);
        let skip = same_text(pieces[i].as_str(), "") || same_text(pieces[i].as_str(), ".");
        assert(t.last().len() == 0 <==> t.last() =~= Seq::<char>::empty());
        assert(skip == (t.last().len() == 0 || t.last() == seq!['.']));
        if !skip {
            r.push(pieces[i].clone());
            assert(views(r@) == before.push(pieces@[i as int]@));
        }
        assert(views(r@) == path_names(t));
        i = i + 1;
    }
    assert(ps.take(i as int) == ps);
    r
}

fn same_names(a: &Vec<String>, b: &Vec<String>) -> (r: bool)
    ensures
        r == (views(a@) == views(b@)),
{
    if a.len() != b.len() {
        assert(views(a@).len() != views(b@).len());
        return false;
    }
    let mut i: usize = 0;
    while i < a.len()
        invariant
            a.len() == b.len(),
            i <= a.len(),
            forall|j: int| 0 <= j < i ==> views(a@)[j] == views(b@)[j],
        decreases a.len() - i,
    {
        if !same_text(a[i].as_str(), b[i].as_str()) {
            assert(views(a@)[i as int] != views(b@)[i as int]);
            return false;
        }
        i = i + 1;
    }
    assert(views(a@) =~= views(b@));
    true
}

fn path_flags(p: &str) -> (r: (bool, bool))
    ensures
        r == (path_key(p@).0, path_key(p@).1),
{
    let v = chars_of(p);
    let root = v.len() > 0 && v[0] == '/';
    let cur = v.len() > 0 && v[0] == '.' && (v.len() == 1 || v[1] == '/');
    (root, cur)
}

/// Whether two path strings name the same path (`Path`'s `==`).
pub fn paths_equal(a: &str, b: &str) -> (r: bool)
    ensures
        r == same_path(a@, b@),
{
    let fa = path_flags(a);
    let fb = path_flags(b);
    if fa.0 != fb.0 || fa.1 != fb.1 {
        return false;
    }
    let na = component_names(a);
    let nb = component_names(b);
    same_names(&na, &nb)
}

} // verus!
