//! What `quickget` reports: the operating systems it can download, their
//! releases and editions.
use vstd::prelude::*;

use crate::environment::cache_dir;
use crate::order::{
    lemma_insert_sorted, lemma_lex_irreflexive, lex_lt, sorted_position, sorted_strictly,
};
use crate::paths::{join, join_path};
use crate::text::{
    chars_of, clone_strings, lines, opt_view, skip_whitespace, split_lines, split_words, starts_with,
    string_from_range, trim, trim_end_position, views, words,
};

verus! {

#[derive(Debug, Clone)]
pub struct OSInfo {
    pub name: String,
    pub versions: Vec<String>,
    pub editions: Option<Vec<String>>,
    pub homepage: Option<String>,
    pub png_icon: Option<String>,
    pub svg_icon: Option<String>,
}

/// One line of `quickget --list-json`.
#[derive(Debug, Clone)]
pub struct QuickgetEntry {
    pub display_name: String,
    pub os: String,
    pub release: String,
    pub option: Option<String>,
    pub png: Option<String>,
    pub svg: Option<String>,
}

/// `j` is the first entry about the operating system `name`.
pub open spec fn first_entry_for(es: Seq<QuickgetEntry>, name: Seq<char>, j: int) -> bool {
    &&& 0 <= j < es.len()
    &&& es[j].os@ == name
    &&& forall|k: int| 0 <= k < j ==> (#[trigger] es[k]).os@ != name
}

/// `v` is a release of `name` in the entries.
pub open spec fn is_release_of(es: Seq<QuickgetEntry>, name: Seq<char>, v: Seq<char>) -> bool {
    exists|j: int| 0 <= j < es.len() && (#[trigger] es[j]).os@ == name && es[j].release@ == v
}

/// `g` is the summary of the entries about its operating system: its
/// releases, sorted and each once, and the icons of the first entry.
pub open spec fn summarizes(g: OSInfo, es: Seq<QuickgetEntry>) -> bool {
    &&& sorted_strictly(views(g.versions@))
    &&& forall|v: Seq<char>| #[trigger]
        views(g.versions@).contains(v) <==> is_release_of(es, g.name@, v)
    &&& exists|j: int|
        first_entry_for(es, g.name@, j) && opt_view(g.png_icon) == opt_view(
            #[trigger] es[j].png,
        ) && opt_view(g.svg_icon) == opt_view(es[j].svg)
    &&& g.editions.is_none()
    &&& g.homepage.is_none()
}

pub open spec fn os_names(gs: Seq<OSInfo>) -> Seq<Seq<char>> {
    gs.map_values(|g: OSInfo| g.name@)
}

/// `gs` is the catalogue of the entries: one summary per operating system,
/// ordered by name.
pub open spec fn catalogue_of(gs: Seq<OSInfo>, es: Seq<QuickgetEntry>) -> bool {
    &&& sorted_strictly(os_names(gs))
    &&& forall|i: int| 0 <= i < gs.len() ==> summarizes(#[trigger] gs[i], es)
    &&& forall|i: int|
        0 <= i < gs.len() ==> exists|j: int| 0 <= j < es.len() && (#[trigger] es[j]).os@ == (
        #[trigger] gs[i]).name@
    &&& forall|j: int|
        0 <= j < es.len() ==> (#[trigger] os_names(gs)).contains((#[trigger] es[j]).os@)
}

fn clone_opt_string(o: &Option<String>) -> (r: Option<String>)
    ensures
        opt_view(r) == opt_view(*o),
{
    match o {
        Some(s) => Some(s.clone()),
        None => None,
    }
}

/// Adds `x` to a strictly sorted list of strings, unless it is there.
fn insert_sorted(v: &mut Vec<String>, x: String)
    requires
        sorted_strictly(views(old(v)@)),
    ensures
        sorted_strictly(views(final(v)@)),
        forall|y: Seq<char>| #[trigger]
            views(final(v)@).contains(y) <==> (views(old(v)@).contains(y) || y == x@),
{
    let (p, found) = sorted_position(v, x.as_str());
    if found {
        return;
    }
    let ghost s = views(v@);
    let ghost xv = x@;
    proof {
        lemma_insert_sorted(s, p as int, xv);
    }
    v.insert(p, x);
    assert(views(v@) =~= s.insert(p as int, xv));
    assert forall|y: Seq<char>| #[trigger]
        views(v@).contains(y) <==> (s.contains(y) || y == xv) by {
        let t = s.insert(p as int, xv);
        if t.contains(y) {
            let k = choose|k: int| 0 <= k < t.len() && t[k] == y;
            if k < p {
                assert(s[k] == y);
            } else if k > p {
                assert(s[k - 1] == y);
            }
        }
        if s.contains(y) {
            let k = choose|k: int| 0 <= k < s.len() && s[k] == y;
            if k < p {
                assert(t[k] == y);
            } else {
                assert(t[k + 1] == y);
            }
        }
        if y == xv {
            assert(t[p as int] == y);
        }
    }
}

/// A catalogue stays one when an entry for a listed operating system
/// adds its release to that system's summary.
proof fn lemma_catalogue_extend_existing(
    gs: Seq<OSInfo>,
    gs2: Seq<OSInfo>,
    es: Seq<QuickgetEntry>,
    e: QuickgetEntry,
    p: int,
)
    requires
        catalogue_of(gs, es),
        0 <= p < gs.len(),
        gs[p].name@ == e.os@,
        gs2.len() == gs.len(),
        forall|k: int| 0 <= k < gs.len() && k != p ==> gs2[k] == gs[k],
        gs2[p].name == gs[p].name,
        gs2[p].png_icon == gs[p].png_icon,
        gs2[p].svg_icon == gs[p].svg_icon,
        gs2[p].editions.is_none(),
        gs2[p].homepage.is_none(),
        sorted_strictly(views(gs2[p].versions@)),
        forall|y: Seq<char>| #[trigger]
            views(gs2[p].versions@).contains(y) <==> (views(gs[p].versions@).contains(y) || y
                == e.release@),
    ensures
        catalogue_of(gs2, es.push(e)),
{
    let es2 = es.push(e);
    assert(os_names(gs2) =~= os_names(gs)) by {
        assert forall|k: int| 0 <= k < gs.len() implies os_names(gs2)[k] == os_names(gs)[k] by {
            if k != p {
                assert(gs2[k] == gs[k]);
            }
        }
    }
    assert forall|i: int| 0 <= i < gs2.len() implies summarizes(#[trigger] gs2[i], es2) by {
        let g = gs2[i];
        let g0 = gs[i];
        assert(summarizes(g0, es));
        let j = choose|j: int|
            first_entry_for(es, g0.name@, j) && opt_view(g0.png_icon) == opt_view(
                #[trigger] es[j].png,
            ) && opt_view(g0.svg_icon) == opt_view(es[j].svg);
        assert(es2[j] == es[j]);
        assert forall|k: int| 0 <= k < j implies (#[trigger] es2[k]).os@ != g.name@ by {
            assert(es2[k] == es[k]);
        }
        assert(first_entry_for(es2, g.name@, j));
        assert forall|v: Seq<char>| #[trigger]
            views(g.versions@).contains(v) <==> is_release_of(es2, g.name@, v) by {
            if is_release_of(es, g.name@, v) {
                let k = choose|k: int|
                    0 <= k < es.len() && (#[trigger] es[k]).os@ == g.name@ && es[k].release@ == v;
                assert(es2[k] == es[k]);
            }
            if is_release_of(es2, g.name@, v) {
                let k = choose|k: int|
                    0 <= k < es2.len() && (#[trigger] es2[k]).os@ == g.name@ && es2[k].release@
                        == v;
                if k < es.len() {
                    assert(es2[k] == es[k]);
                    assert(is_release_of(es, g.name@, v));
                } else {
                    assert(es2[k] == e);
                }
            }
            if i == p && v == e.release@ {
                assert(es2[es.len() as int] == e);
                assert(is_release_of(es2, g.name@, v));
            }
            if i != p && is_release_of(es2, g.name@, v) {
                let k = choose|k: int|
                    0 <= k < es2.len() && (#[trigger] es2[k]).os@ == g.name@ && es2[k].release@
                        == v;
                if k == es.len() {
                    assert(es2[k] == e);
                    assert(os_names(gs)[i] == g.name@);
                    assert(os_names(gs)[p] == e.os@);
                    assert(lex_lt(os_names(gs)[i], os_names(gs)[p]) || lex_lt(
                        os_names(gs)[p],
                        os_names(gs)[i],
                    ));
                    lemma_lex_irreflexive(e.os@);
                }
            }
        }
    }
    assert forall|i: int|
        0 <= i < gs2.len() implies exists|j: int|
        0 <= j < es2.len() && (#[trigger] es2[j]).os@ == (#[trigger] gs2[i]).name@ by {
        let j = choose|j: int| 0 <= j < es.len() && (#[trigger] es[j]).os@ == gs[i].name@;
        assert(es2[j] == es[j]);
    }
    assert forall|j: int| 0 <= j < es2.len() implies (#[trigger] os_names(gs2)).contains(
        (#[trigger] es2[j]).os@,
    ) by {
        if j < es.len() {
            assert(es2[j] == es[j]);
            assert(os_names(gs).contains(es[j].os@));
        } else {
            assert(es2[j] == e);
            assert(os_names(gs)[p] == e.os@);
        }
    }
}

/// A catalogue stays one when an entry for an unlisted operating system
/// inserts a new summary at that system's place in the order.
proof fn lemma_catalogue_extend_new(
    gs: Seq<OSInfo>,
    es: Seq<QuickgetEntry>,
    e: QuickgetEntry,
    p: int,
    g: OSInfo,
)
    requires
        catalogue_of(gs, es),
        0 <= p <= gs.len(),
        !os_names(gs).contains(e.os@),
        forall|k: int| 0 <= k < p ==> lex_lt(#[trigger] os_names(gs)[k], e.os@),
        forall|k: int| p <= k < gs.len() ==> !lex_lt(#[trigger] os_names(gs)[k], e.os@),
        g.name@ == e.os@,
        views(g.versions@) == seq![e.release@],
        opt_view(g.png_icon) == opt_view(e.png),
        opt_view(g.svg_icon) == opt_view(e.svg),
        g.editions.is_none(),
        g.homepage.is_none(),
    ensures
        catalogue_of(gs.insert(p, g), es.push(e)),
{
    let es2 = es.push(e);
    let gs2 = gs.insert(p, g);
    lemma_insert_sorted(os_names(gs), p, e.os@);
    assert(os_names(gs2) =~= os_names(gs).insert(p, e.os@));
    assert forall|i: int| 0 <= i < gs2.len() implies summarizes(#[trigger] gs2[i], es2) by {
        if i == p {
            assert(gs2[i] == g);
            let n = es.len() as int;
            assert(es2[n] == e);
            assert forall|k: int| 0 <= k < n implies (#[trigger] es2[k]).os@ != g.name@ by {
                assert(es2[k] == es[k]);
                assert(os_names(gs).contains(es[k].os@));
            }
            assert(first_entry_for(es2, g.name@, n));
            assert(sorted_strictly(views(g.versions@)));
            assert forall|v: Seq<char>| #[trigger]
                views(g.versions@).contains(v) <==> is_release_of(es2, g.name@, v) by {
                if views(g.versions@).contains(v) {
                    assert(views(g.versions@)[0] == v);
                    assert(es2[n].os@ == g.name@ && es2[n].release@ == v);
                }
                if is_release_of(es2, g.name@, v) {
                    let k = choose|k: int|
                        0 <= k < es2.len() && (#[trigger] es2[k]).os@ == g.name@ && es2[k].release@
                            == v;
                    if k < n {
                        assert(es2[k] == es[k]);
                        assert(os_names(gs).contains(es[k].os@));
                    }
                    assert(views(g.versions@)[0] == v);
                }
            }
        } else {
            let g0 = if i < p {
                gs[i]
            } else {
                gs[i - 1]
            };
            assert(gs2[i] == g0);
            let i0 = if i < p {
                i
            } else {
                i - 1
            };
            assert(gs[i0] == g0);
            assert(summarizes(g0, es));
            assert(os_names(gs)[i0] == g0.name@);
            assert(g0.name@ != e.os@);
            let j = choose|j: int|
                first_entry_for(es, g0.name@, j) && opt_view(g0.png_icon) == opt_view(
                    #[trigger] es[j].png,
                ) && opt_view(g0.svg_icon) == opt_view(es[j].svg);
            assert(es2[j] == es[j]);
            assert forall|k: int| 0 <= k < j implies (#[trigger] es2[k]).os@ != g0.name@ by {
                assert(es2[k] == es[k]);
            }
            assert(first_entry_for(es2, g0.name@, j));
            assert forall|v: Seq<char>| #[trigger]
                views(g0.versions@).contains(v) <==> is_release_of(es2, g0.name@, v) by {
                if is_release_of(es, g0.name@, v) {
                    let k = choose|k: int|
                        0 <= k < es.len() && (#[trigger] es[k]).os@ == g0.name@ && es[k].release@
                            == v;
                    assert(es2[k] == es[k]);
                }
                if is_release_of(es2, g0.name@, v) {
                    let k = choose|k: int|
                        0 <= k < es2.len() && (#[trigger] es2[k]).os@ == g0.name@
                            && es2[k].release@ == v;
                    if k < es.len() {
                        assert(es2[k] == es[k]);
                        assert(is_release_of(es, g0.name@, v));
                    } else {
                        assert(es2[k] == e);
                    }
                }
            }
        }
    }
    assert forall|i: int|
        0 <= i < gs2.len() implies exists|j: int|
        0 <= j < es2.len() && (#[trigger] es2[j]).os@ == (#[trigger] gs2[i]).name@ by {
        if i == p {
            assert(es2[es.len() as int] == e);
        } else {
            let i0 = if i < p {
                i
            } else {
                i - 1
            };
            assert(gs2[i] == gs[i0]);
            let j = choose|j: int| 0 <= j < es.len() && (#[trigger] es[j]).os@ == gs[i0].name@;
            assert(es2[j] == es[j]);
        }
    }
    assert forall|j: int| 0 <= j < es2.len() implies (#[trigger] os_names(gs2)).contains(
        (#[trigger] es2[j]).os@,
    ) by {
        if j < es.len() {
            assert(es2[j] == es[j]);
            assert(os_names(gs).contains(es[j].os@));
            let k = choose|k: int| 0 <= k < os_names(gs).len() && os_names(gs)[k] == es[j].os@;
            if k < p {
                assert(os_names(gs2)[k] == es[j].os@);
            } else {
                assert(os_names(gs2)[k + 1] == es[j].os@);
            }
        } else {
            assert(es2[j] == e);
            assert(os_names(gs2)[p] == e.os@);
        }
    }
}

/// The operating systems of `quickget --list-json`, one per system with its
/// releases sorted, the icons of its first entry, ordered by name.
pub fn group_os_entries(entries: &Vec<QuickgetEntry>) -> (r: Vec<OSInfo>)
    ensures
        catalogue_of(r@, entries@),
{
    let mut groups: Vec<OSInfo> = Vec::new();
    let mut names: Vec<String> = Vec::new();
    let mut i: usize = 0;
    assert(entries@.take(0) =~= Seq::<QuickgetEntry>::empty());
    while i < entries.len()
        invariant
            i <= entries.len(),
            views(names@) == os_names(groups@),
            catalogue_of(groups@, entries@.take(i as int)),
        decreases entries.len() - i,
    {
        let e = &entries[i];
        let ghost es = entries@.take(i as int);
        assert(entries@.take(i + 1) == es.push(*e));
        let (p, found) = sorted_position(&names, e.os.as_str());
        if found {
            let ghost gs = groups@;
            let mut g = groups.remove(p);
            insert_sorted(&mut g.versions, e.release.clone());
            groups.insert(p, g);
            proof {
                assert(os_names(gs)[p as int] == gs[p as int].name@);
                lemma_catalogue_extend_existing(gs, groups@, es, *e, p as int);
                assert(os_names(groups@) =~= os_names(gs)) by {
                    assert forall|k: int| 0 <= k < gs.len() implies os_names(groups@)[k]
                        == os_names(gs)[k] by {
                        if k != p {
                            assert(groups@[k] == gs[k]);
                        }
                    }
                }
            }
        } else {
            let ghost gs = groups@;
            let mut versions: Vec<String> = Vec::new();
            versions.push(e.release.clone());
            let g = OSInfo {
                name: e.os.clone(),
                versions,
                editions: None,
                homepage: None,
                png_icon: clone_opt_string(&e.png),
                svg_icon: clone_opt_string(&e.svg),
            };
            proof {
                assert(views(g.versions@) =~= seq![e.release@]);
                lemma_catalogue_extend_new(gs, es, *e, p as int, g);
            }
            let ghost nv = views(names@);
            let name = e.os.clone();
            names.insert(p, name);
            groups.insert(p, g);
            assert(views(names@) =~= nv.insert(p as int, e.os@));
            assert(os_names(groups@) =~= os_names(gs).insert(p as int, e.os@));
        }
        i = i + 1;
    }
    assert(entries@.take(entries.len() as int) == entries@);
    groups
}

// ---------------------------------------------------------------------------
// Selecting from the catalogue
// ---------------------------------------------------------------------------

/// The value of an `OSInfo`, its strings taken as character sequences.
pub struct OSInfoView {
    pub name: Seq<char>,
    pub versions: Seq<Seq<char>>,
    pub editions: Option<Seq<Seq<char>>>,
    pub homepage: Option<Seq<char>>,
    pub png_icon: Option<Seq<char>>,
    pub svg_icon: Option<Seq<char>>,
}

pub open spec fn os_view(o: OSInfo) -> OSInfoView {
    OSInfoView {
        name: o.name@,
        versions: views(o.versions@),
        editions: match o.editions {
            Some(e) => Some(views(e@)),
            None => None,
        },
        homepage: opt_view(o.homepage),
        png_icon: opt_view(o.png_icon),
        svg_icon: opt_view(o.svg_icon),
    }
}

impl OSInfo {
    /// A copy of the record.
    pub fn duplicate(&self) -> (r: OSInfo)
        ensures
            os_view(r) == os_view(*self),
    {
        OSInfo {
            name: self.name.clone(),
            versions: clone_strings(&self.versions),
            editions: match &self.editions {
                Some(e) => Some(clone_strings(e)),
                None => None,
            },
            homepage: clone_opt_string(&self.homepage),
            png_icon: clone_opt_string(&self.png_icon),
            svg_icon: clone_opt_string(&self.svg_icon),
        }
    }
}

/// The index of the first system named `n` at or after `k`.
pub open spec fn first_named_from(all: Seq<OSInfo>, n: Seq<char>, k: int) -> Option<int>
    decreases all.len() - k,
{
    if k < 0 || k >= all.len() {
        None
    } else if all[k].name@ == n {
        Some(k)
    } else {
        first_named_from(all, n, k + 1)
    }
}

/// The index of the first system named `n`.
pub open spec fn first_named(all: Seq<OSInfo>, n: Seq<char>) -> Option<int> {
    first_named_from(all, n, 0)
}

/// The systems listed under the given names, in the order of the names,
/// each the first one of its name; names with no system are skipped.
pub open spec fn selection(all: Seq<OSInfo>, names: Seq<Seq<char>>) -> Seq<OSInfoView>
    decreases names.len(),
{
    if names.len() == 0 {
        Seq::empty()
    } else {
        let sub = selection(all, names.drop_last());
        match first_named(all, names.last()) {
            Some(i) => sub.push(os_view(all[i])),
            None => sub,
        }
    }
}

/// The popular systems, in order of preference.
pub open spec fn popular_names() -> Seq<Seq<char>> {
    seq![
        "ubuntu"@,
        "fedora"@,
        "debian"@,
        "archlinux"@,
        "manjaro"@,
        "opensuse"@,
        "centos-stream"@,
        "windows"@,
        "macos"@,
        "freebsd"@,
    ]
}

/// How many of the names have a system in the catalogue.
pub open spec fn names_found(all: Seq<OSInfo>, names: Seq<Seq<char>>) -> nat
    decreases names.len(),
{
    if names.len() == 0 {
        0
    } else {
        names_found(all, names.drop_last()) + if first_named(all, names.last()) is Some {
            1nat
        } else {
            0nat
        }
    }
}

/// Selecting by names keeps every system that one of the names finds, and
/// nothing else: one system for each name that finds one.
pub proof fn law_selection_keeps_every_found_system(
    all: Seq<OSInfo>,
    names: Seq<Seq<char>>,
    j: int,
)
    requires
        0 <= j < names.len(),
    ensures
        selection(all, names).len() == names_found(all, names),
        first_named(all, names[j]) matches Some(i) ==> selection(all, names).contains(
            os_view(all[i]),
        ),
    decreases names.len(),
{
    let sub = selection(all, names.drop_last());
    if j < names.len() - 1 {
        law_selection_keeps_every_found_system(all, names.drop_last(), j);
        assert(names.drop_last()[j] == names[j]);
        if let Some(i) = first_named(all, names[j]) {
            let k = choose|k: int| 0 <= k < sub.len() && sub[k] == os_view(all[i]);
            if let Some(m) = first_named(all, names.last()) {
                assert(sub.push(os_view(all[m]))[k] == os_view(all[i]));
            }
        }
    } else {
        if names.len() > 1 {
            law_selection_keeps_every_found_system(all, names.drop_last(), 0);
        } else {
            assert(selection(all, names.drop_last()).len() == 0);
            assert(names_found(all, names.drop_last()) == 0);
        }
        if let Some(i) = first_named(all, names[j]) {
            assert(sub.push(os_view(all[i]))[sub.len() as int] == os_view(all[i]));
        }
    }
}

/// Everything a selection holds is the first system of one of the names.
pub proof fn law_selection_holds_only_named_systems(all: Seq<OSInfo>, names: Seq<Seq<char>>, k: int)
    requires
        0 <= k < selection(all, names).len(),
    ensures
        exists|j: int|
            0 <= j < names.len() && (first_named(all, #[trigger] names[j]) matches Some(i)
                && selection(all, names)[k] == os_view(all[i])),
    decreases names.len(),
{
    let sub = selection(all, names.drop_last());
    if k < sub.len() {
        law_selection_holds_only_named_systems(all, names.drop_last(), k);
        let j = choose|j: int|
            0 <= j < names.drop_last().len() && (first_named(all, #[trigger] names.drop_last()[j])
                matches Some(i) && sub[k] == os_view(all[i]));
        assert(names[j] == names.drop_last()[j]);
        if let Some(m) = first_named(all, names.last()) {
            assert(sub.push(os_view(all[m]))[k] == sub[k]);
        }
    } else {
        let j = names.len() - 1;
        assert(names[j] == names.last());
    }
}

/// The popular systems are every popular system the catalogue offers, one
/// for each popular name it has.
pub proof fn law_popular_systems_are_all_found(all: Seq<OSInfo>, j: int)
    requires
        0 <= j < popular_names().len(),
    ensures
        selection(all, popular_names()).len() == names_found(all, popular_names()),
        first_named(all, popular_names()[j]) matches Some(i) ==> selection(
            all,
            popular_names(),
        ).contains(os_view(all[i])),
{
    law_selection_keeps_every_found_system(all, popular_names(), j);
}

/// The first system named `name`, searching from `k`.
fn find_named(all: &Vec<OSInfo>, name: &str) -> (r: Option<usize>)
    ensures
        match r {
            Some(i) => i < all.len() && first_named(all@, name@) == Some(i as int),
            None => first_named(all@, name@).is_none(),
        },
{
    let mut k: usize = 0;
    while k < all.len()
        invariant
            k <= all.len(),
            first_named_from(all@, name@, 0) == first_named_from(all@, name@, k as int),
        decreases all.len() - k,
    {
        if all[k].name == name.to_owned() {
            return Some(k);
        }
        k = k + 1;
    }
    None
}

/// The entries of `all` chosen by `names` (see `selection`).
pub fn select_systems(all: &Vec<OSInfo>, names: &Vec<&str>) -> (r: Vec<OSInfo>)
    ensures
        r@.map_values(|o: OSInfo| os_view(o)) == selection(
            all@,
            names@.map_values(|n: &str| n@),
        ),
{
    let ghost ns = names@.map_values(|n: &str| n@);
    let mut r: Vec<OSInfo> = Vec::new();
    let mut i: usize = 0;
    while i < names.len()
        invariant
            i <= names.len(),
            ns == names@.map_values(|n: &str| n@),
            r@.map_values(|o: OSInfo| os_view(o)) == selection(all@, ns.take(i as int)),
        decreases names.len() - i,
    {
        let ghost before = r@.map_values(|o: OSInfo| os_view(o));
        proof {
            let t = ns.take(i + 1);
            assert(t.drop_last() == ns.take(i as int));
            assert(t.last() == names@[i as int]@);
        }
        match find_named(all, names[i]) {
            Some(k) => {
                let o = all[k].duplicate();
                r.push(o);
                assert(r@.map_values(|o: OSInfo| os_view(o)) == before.push(os_view(all@[k as int])));
            },
            None => {},
        }
        i = i + 1;
    }
    assert(ns.take(names.len() as int) == ns);
    r
}

/// The popular systems among the supported ones, in order of preference.
pub fn popular_systems(all: &Vec<OSInfo>) -> (r: Vec<OSInfo>)
    ensures
        r@.map_values(|o: OSInfo| os_view(o)) == selection(all@, popular_names()),
{
    let names: Vec<&str> = vec![
        "ubuntu",
        "fedora",
        "debian",
        "archlinux",
        "manjaro",
        "opensuse",
        "centos-stream",
        "windows",
        "macos",
        "freebsd",
    ];
    assert(names@.map_values(|n: &str| n@) =~= popular_names());
    select_systems(all, &names)
}

/// The PNG icon of the first system named `name`.
pub fn os_icon(all: &Vec<OSInfo>, name: &str) -> (r: Option<String>)
    ensures
        match first_named(all@, name@) {
            Some(i) => opt_view(r) == opt_view(all@[i].png_icon),
            None => r.is_none(),
        },
{
    match find_named(all, name) {
        Some(k) => clone_opt_string(&all[k].png_icon),
        None => None,
    }
}

/// Name and releases of each system, as the creation form lists them.
pub fn os_choices(all: &Vec<OSInfo>) -> (r: Vec<(String, Vec<String>)>)
    ensures
        r.len() == all.len(),
        forall|i: int|
            0 <= i < all.len() ==> (#[trigger] r@[i]).0@ == all@[i].name@ && views(r@[i].1@)
                == views(all@[i].versions@),
{
    let mut r: Vec<(String, Vec<String>)> = Vec::new();
    let mut i: usize = 0;
    while i < all.len()
        invariant
            i <= all.len(),
            r.len() == i,
            forall|k: int|
                0 <= k < i ==> (#[trigger] r@[k]).0@ == all@[k].name@ && views(r@[k].1@) == views(
                    all@[k].versions@,
                ),
        decreases all.len() - i,
    {
        r.push((all[i].name.clone(), clone_strings(&all[i].versions)));
        i = i + 1;
    }
    r
}

// ---------------------------------------------------------------------------
// Other quickget output
// ---------------------------------------------------------------------------

/// The editions announced by the first line of `quickget <os>` output that
/// starts (after leading whitespace) with `- Editions:`.
pub open spec fn editions_in(ls: Seq<Seq<char>>) -> Seq<Seq<char>>
    decreases ls.len(),
{
    if ls.len() == 0 {
        Seq::empty()
    } else if starts_with(trim(ls[0]), "- Editions:"@) {
        words(trim(ls[0]).skip("- Editions:"@.len() as int))
    } else {
        editions_in(ls.drop_first())
    }
}

/// The editions listed in the output of `quickget <os>`, or none.
pub fn parse_editions(output: &str) -> (r: Vec<String>)
    ensures
        views(r@) == editions_in(lines(output@)),
{
    let v = chars_of(output);
    let ls = split_lines(&v);
    let prefix = chars_of("- Editions:");
    let mut i: usize = 0;
    assert(views(ls@).skip(0) == views(ls@));
    while i < ls.len()
        invariant
            i <= ls.len(),
            prefix@ == "- Editions:"@,
            views(ls@) == lines(output@),
            editions_in(views(ls@)) == editions_in(views(ls@).skip(i as int)),
        decreases ls.len() - i,
    {
        let lv = chars_of(ls[i].as_str());
        let a = skip_whitespace(&lv, 0);
        let b = trim_end_position(&lv, lv.len());
        let t = if a < b {
            string_from_range(&lv, a, b)
        } else {
            String::new()
        };
        let tv = chars_of(t.as_str());
        let ghost rest = views(ls@).skip(i as int);
        assert(rest[0] == ls@[i as int]@);
        assert(tv@ == trim(rest[0]));
        if crate::text::starts_with_chars(&tv, &prefix) {
            let tail = string_from_range(&tv, prefix.len(), tv.len());
            let tail_chars = chars_of(tail.as_str());
            assert(tail_chars@ == tv@.skip(prefix@.len() as int));
            return split_words(&tail_chars);
        }
        assert(rest.drop_first() == views(ls@).skip(i + 1));
        i = i + 1;
    }
    assert(views(ls@).skip(i as int).len() == 0);
    Vec::new()
}

/// The image URL `quickget --url` printed: its output trimmed.
pub fn image_url_from_output(stdout: &str) -> (r: String)
    ensures
        r@ == trim(stdout@),
{
    crate::text::trim_str(stdout)
}

/// A cached OS list is used while it is less than a day old.
pub fn cache_is_fresh(elapsed_secs: u64) -> (b: bool)
    ensures
        b == (elapsed_secs < 86400),
{
    elapsed_secs < 24 * 60 * 60
}

/// The file the OS list is cached in, under a cache directory (`/tmp`
/// when there is none).
pub open spec fn cache_file_in(cache_dir: Option<Seq<char>>) -> Seq<char> {
    let base = match cache_dir {
        Some(d) => d,
        None => "/tmp"@,
    };
    join_path(join_path(base, "quickemu-manager"@), "quickget_cache.json"@)
}

/// The directory the cache file lives in.
pub open spec fn cache_dir_in(cache_dir: Option<Seq<char>>) -> Seq<char> {
    let base = match cache_dir {
        Some(d) => d,
        None => "/tmp"@,
    };
    join_path(base, "quickemu-manager"@)
}

/// The cache directory and file for a user cache directory.
pub fn cache_location_in(cache_dir: Option<String>) -> (r: (String, String))
    ensures
        r.0@ == cache_dir_in(opt_view(cache_dir)),
        r.1@ == cache_file_in(opt_view(cache_dir)),
{
    let base = match cache_dir {
        Some(d) => d,
        None => "/tmp".to_owned(),
    };
    let dir = join(base.as_str(), "quickemu-manager");
    let file = join(dir.as_str(), "quickget_cache.json");
    (dir, file)
}

/// The cache directory and file of this user, from `dirs::cache_dir`.
pub fn cache_location() -> (r: (String, String))
    ensures
        exists|d: Option<Seq<char>>|
            r.0@ == cache_dir_in(d) && r.1@ == cache_file_in(d),
{
    let d = cache_dir();
    let r = cache_location_in(d);
    assert(r.0@ == cache_dir_in(opt_view(d)) && r.1@ == cache_file_in(opt_view(d)));
    r
}

// ---------------------------------------------------------------------------
// The list a service keeps once found
// ---------------------------------------------------------------------------

/// The value of a list of systems.
pub open spec fn systems_view(s: Seq<OSInfo>) -> Seq<OSInfoView> {
    s.map_values(|o: OSInfo| os_view(o))
}

/// A copy of a list of systems.
pub fn copy_systems(v: &Vec<OSInfo>) -> (r: Vec<OSInfo>)
    ensures
        systems_view(r@) == systems_view(v@),
{
    let mut r: Vec<OSInfo> = Vec::new();
    let mut i: usize = 0;
    while i < v.len()
        invariant
            i <= v.len(),
            systems_view(r@) == systems_view(v@).take(i as int),
        decreases v.len() - i,
    {
        let ghost before = systems_view(r@);
        r.push(v[i].duplicate());
        assert(systems_view(r@) == before.push(os_view(v@[i as int])));
        assert(systems_view(v@).take(i + 1) == systems_view(v@).take(i as int).push(
            os_view(v@[i as int]),
        ));
        i = i + 1;
    }
    assert(systems_view(v@).take(v.len() as int) == systems_view(v@));
    r
}

/// The systems a service has found, kept for as long as the service lives:
/// the first fetch that succeeds fills it, and a fetch that fails keeps
/// nothing, so that the next request fetches again.
pub struct SystemsMemo {
    systems: Option<Vec<OSInfo>>,
}

impl SystemsMemo {
    /// The list kept, if one was found.
    pub closed spec fn known(&self) -> Option<Seq<OSInfoView>> {
        match self.systems {
            Some(v) => Some(systems_view(v@)),
            None => None,
        }
    }

    /// A memo that holds nothing yet.
    pub fn new() -> (m: SystemsMemo)
        ensures
            m.known().is_none(),
    {
        SystemsMemo { systems: None }
    }

    /// The list kept, as a copy; `None` while it still has to be fetched.
    pub fn systems(&self) -> (r: Option<Vec<OSInfo>>)
        ensures
            match r {
                Some(v) => self.known() == Some(systems_view(v@)),
                None => self.known().is_none(),
            },
    {
        match &self.systems {
            Some(v) => Some(copy_systems(v)),
            None => None,
        }
    }

    /// Takes the outcome of a fetch and gives back what the request
    /// answers: a list already kept stays and is the answer; else a list
    /// found is kept and is the answer, and an error keeps nothing and is
    /// the answer.
    pub fn settle(&mut self, fetched: Result<Vec<OSInfo>, String>) -> (r: Result<
        Vec<OSInfo>,
        String,
    >)
        ensures
            old(self).known() is Some ==> final(self).known() == old(self).known() && (r matches Ok(
                w,
            ) && Some(systems_view(w@)) == old(self).known()),
            old(self).known() is None ==> match fetched {
                Ok(v) => final(self).known() == Some(systems_view(v@)) && (r matches Ok(w)
                    && systems_view(w@) == systems_view(v@)),
                Err(e) => final(self).known().is_none() && r == Err::<Vec<OSInfo>, String>(e),
            },
    {
        match &self.systems {
            Some(v) => {
                return Ok(copy_systems(v));
            },
            None => {},
        }
        match fetched {
            Ok(v) => {
                let answer = copy_systems(&v);
                self.systems = Some(v);
                Ok(answer)
            },
            Err(e) => Err(e),
        }
    }
}

} // verus!
