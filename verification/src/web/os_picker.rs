//! The choices the creation form offers: systems matching a search, and
//! the editions worth offering.
use vstd::prelude::*;

use crate::text::{
    clone_strings, contains, lowercase, same_text, str_contains, to_lowercase, views,
};

verus! {

/// A system of the list with its versions, as plain text.
pub open spec fn choice_view(c: (String, Vec<String>)) -> (Seq<char>, Seq<Seq<char>>) {
    (c.0@, views(c.1@))
}

pub open spec fn choices_view(cs: Seq<(String, Vec<String>)>) -> Seq<(Seq<char>, Seq<Seq<char>>)> {
    cs.map_values(|c: (String, Vec<String>)| choice_view(c))
}

/// The systems whose lower-cased name holds `query`, in their order.
pub open spec fn matching_choices(cs: Seq<(Seq<char>, Seq<Seq<char>>)>, query: Seq<char>) -> Seq<
    (Seq<char>, Seq<Seq<char>>),
>
    decreases cs.len(),
{
    if cs.len() == 0 {
        Seq::empty()
    } else {
        matching_choices(cs.drop_last(), query) + if contains(lowercase(cs.last().0), query) {
            seq![cs.last()]
        } else {
            Seq::empty()
        }
    }
}

/// The list the search shows: all of it for an empty search, else the
/// systems whose name holds the search, both taken in lower case.
pub open spec fn search_result(cs: Seq<(Seq<char>, Seq<Seq<char>>)>, query: Seq<char>) -> Seq<
    (Seq<char>, Seq<Seq<char>>),
> {
    if lowercase(query).len() == 0 {
        cs
    } else {
        matching_choices(cs, lowercase(query))
    }
}

/// The systems to show for a search.
pub fn filter_os_list(query: &str, source: Vec<(String, Vec<String>)>) -> (r: Vec<(String, Vec<String>)>)
    ensures
        choices_view(r@) == search_result(choices_view(source@), query@),
{
    let q = to_lowercase(query);
    if q.as_str().is_empty() {
        return source;
    }
    let mut r: Vec<(String, Vec<String>)> = Vec::new();
    let mut i: usize = 0;
    while i < source.len()
        invariant
            i <= source.len(),
            q@ == lowercase(query@),
            choices_view(r@) == matching_choices(choices_view(source@).take(i as int), q@),
        decreases source.len() - i,
    {
        let ghost before = choices_view(r@);
        let ghost src = choices_view(source@);
        let name_low = to_lowercase(source[i].0.as_str());
        let keep = str_contains(name_low.as_str(), q.as_str());
        if keep {
            let name = source[i].0.clone();
            let versions = source[i].1.clone();
            r.push((name, versions));
        }
        proof {
            let t = src.take(i + 1);
            assert(t.drop_last() == src.take(i as int));
            assert(t.last() == choice_view(source@[i as int]));
            if keep {
                assert(choices_view(r@) == before.push(choice_view(source@[i as int])));
            } else {
                assert(choices_view(r@) == before);
            }
        }
        i = i + 1;
    }
    assert(choices_view(source@).take(source.len() as int) == choices_view(source@));
    r
}

/// The editions other than one called "default" in any case.
pub open spec fn named_editions(es: Seq<Seq<char>>) -> Seq<Seq<char>>
    decreases es.len(),
{
    if es.len() == 0 {
        Seq::empty()
    } else {
        named_editions(es.drop_last()) + if lowercase(es.last()) == "default"@ {
            Seq::empty()
        } else {
            seq![es.last()]
        }
    }
}

/// The editions to offer: with more than one, the "default" edition is
/// left out.
pub open spec fn offered_editions(es: Seq<Seq<char>>) -> Seq<Seq<char>> {
    if es.len() > 1 {
        named_editions(es)
    } else {
        es
    }
}

/// The editions to offer for a system and version.
pub fn selectable_editions(editions: Vec<String>) -> (r: Vec<String>)
    ensures
        views(r@) == offered_editions(views(editions@)),
{
    if editions.len() <= 1 {
        return editions;
    }
    let mut r: Vec<String> = Vec::new();
    let mut i: usize = 0;
    while i < editions.len()
        invariant
            i <= editions.len(),
            views(r@) == named_editions(views(editions@).take(i as int)),
        decreases editions.len() - i,
    {
        let ghost before = views(r@);
        let low = to_lowercase(editions[i].as_str());
        let is_default = same_text(low.as_str(), "default");
        if !is_default {
            r.push(editions[i].clone());
        }
        proof {
            let t = views(editions@).take(i + 1);
            assert(t.drop_last() == views(editions@).take(i as int));
            assert(t.last() == editions@[i as int]@);
            if !is_default {
                assert(views(r@) == before.push(editions@[i as int]@));
            } else {
                assert(views(r@) == before);
            }
        }
        i = i + 1;
    }
    assert(views(editions@).take(editions.len() as int) == views(editions@));
    r
}

/// The position of the first system named `name`, from `k` on.
pub open spec fn first_named(cs: Seq<(Seq<char>, Seq<Seq<char>>)>, name: Seq<char>, k: int) -> Option<
    int,
>
    decreases cs.len() - k,
{
    if k < 0 || k >= cs.len() {
        None
    } else if cs[k].0 == name {
        Some(k)
    } else {
        first_named(cs, name, k + 1)
    }
}

/// The versions of the first system named `name`; none when no system has
/// that name.
pub open spec fn versions_named(cs: Seq<(Seq<char>, Seq<Seq<char>>)>, name: Seq<char>) -> Seq<
    Seq<char>,
> {
    match first_named(cs, name, 0) {
        Some(i) => cs[i].1,
        None => Seq::empty(),
    }
}

/// The versions the form offers once a system is picked.
pub fn versions_for(list: &Vec<(String, Vec<String>)>, name: &str) -> (r: Vec<String>)
    ensures
        views(r@) == versions_named(choices_view(list@), name@),
{
    let ghost cs = choices_view(list@);
    let mut i: usize = 0;
    while i < list.len()
        invariant
            i <= list.len(),
            cs == choices_view(list@),
            first_named(cs, name@, 0) == first_named(cs, name@, i as int),
        decreases list.len() - i,
    {
        assert(cs[i as int] == choice_view(list@[i as int]));
        if same_text(list[i].0.as_str(), name) {
            return clone_strings(&list[i].1);
        }
        i = i + 1;
    }
    Vec::new()
}

} // verus!
