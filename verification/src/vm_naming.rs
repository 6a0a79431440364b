//! The name the creation wizard proposes for a new VM, and when it may
//! replace what the name field holds.
use vstd::prelude::*;

use crate::services::quickget::{os_view, OSInfo, OSInfoView};
use crate::text::{
    concat, lemma_split_three, lemma_split_two, list_contains, lowercase, push_str, same_text,
    split_char, split_on_char, to_lowercase, views,
};

verus! {

/// `<os>-<version>`, or `<os>-<version>-<edition>` with the edition in
/// lower case.
pub open spec fn suggested_name(os: Seq<char>, version: Seq<char>, edition: Option<Seq<char>>) -> Seq<char> {
    match edition {
        Some(e) => os + "-"@ + version + "-"@ + lowercase(e),
        None => os + "-"@ + version,
    }
}

/// A name looks generated for the selected system when it reads
/// `<os>-<version>` (editions hidden) or `<os>-<version>-<anything>`
/// (editions shown), with one of the system's versions.
pub open spec fn looks_generated(name: Seq<char>, os: Option<OSInfoView>, editions_visible: bool) -> bool {
    let parts = split_char(name, '-');
    &&& 2 <= parts.len() <= 3
    &&& os is Some
    &&& parts[0] == os.unwrap().name
    &&& os.unwrap().versions.contains(parts[1])
    &&& ((parts.len() == 3 && editions_visible) || (parts.len() == 2 && !editions_visible))
}

pub open spec fn opt_os_view(o: Option<&OSInfo>) -> Option<OSInfoView> {
    match o {
        Some(x) => Some(os_view(*x)),
        None => None,
    }
}

/// The proposed name for a system, version and edition.
pub fn suggested_vm_name(os: &str, version: &str, edition: Option<&str>) -> (r: String)
    ensures
        r@ == suggested_name(
            os@,
            version@,
            match edition {
                Some(e) => Some(e@),
                None => None,
            },
        ),
{
    let mut r = concat(os, "-");
    push_str(&mut r, version);
    match edition {
        Some(e) => {
            push_str(&mut r, "-");
            let low = to_lowercase(e);
            push_str(&mut r, low.as_str());
        },
        None => {},
    }
    r
}

/// Whether `name` follows the generated pattern for the selected system.
pub fn is_auto_generated_name(name: &str, os: Option<&OSInfo>, editions_visible: bool) -> (b: bool)
    ensures
        b == looks_generated(name@, opt_os_view(os), editions_visible),
{
    let parts = split_on_char(name, '-');
    if parts.len() < 2 || parts.len() > 3 {
        return false;
    }
    let info = match os {
        Some(info) => info,
        None => {
            return false;
        },
    };
    assert(views(parts@)[0] == parts@[0]@);
    if !same_text(parts[0].as_str(), info.name.as_str()) {
        return false;
    }
    if !list_contains(&info.versions, parts[1].as_str()) {
        return false;
    }
    if parts.len() == 3 && editions_visible {
        true
    } else if parts.len() == 2 && !editions_visible {
        true
    } else {
        false
    }
}

/// The name to put in the name field after a selection changed: the
/// proposal, when a system and a version are selected and the field is
/// empty or holds a generated name; `None` leaves the field alone.
pub fn name_after_selection(
    current: &str,
    os: Option<&OSInfo>,
    version: Option<&str>,
    edition: Option<&str>,
    editions_visible: bool,
) -> (r: Option<String>)
    ensures
        r is Some <==> (os is Some && version is Some && (current@.len() == 0 || looks_generated(
            current@,
            opt_os_view(os),
            editions_visible,
        ))),
        r matches Some(n) ==> n@ == suggested_name(
            os.unwrap().name@,
            version.unwrap()@,
            match edition {
                Some(e) => Some(e@),
                None => None,
            },
        ),
{
    match (os, version) {
        (Some(info), Some(ver)) => {
            let replace = current.is_empty() || is_auto_generated_name(current, os, editions_visible);
            if replace {
                Some(suggested_vm_name(info.name.as_str(), ver, edition))
            } else {
                None
            }
        },
        _ => None,
    }
}

/// A proposed name is recognised as generated for the same system, so a
/// later selection may replace it: with editions hidden for
/// `<os>-<version>`, with editions shown for `<os>-<version>-<edition>`.
/// This holds when the system name, the version and the lower-cased
/// edition hold no `-`.
pub proof fn law_suggested_name_looks_generated(
    os: OSInfoView,
    version: Seq<char>,
    edition: Option<Seq<char>>,
)
    requires
        os.versions.contains(version),
        !os.name.contains('-'),
        !version.contains('-'),
        edition matches Some(e) ==> !lowercase(e).contains('-'),
    ensures
        looks_generated(suggested_name(os.name, version, edition), Some(os), edition is Some),
{
    reveal_strlit("-");
    assert("-"@ =~= seq!['-']);
    match edition {
        Some(e) => {
            let n = suggested_name(os.name, version, edition);
            assert(n =~= os.name + seq!['-'] + version + seq!['-'] + lowercase(e));
            lemma_split_three(os.name, version, lowercase(e), '-');
        },
        None => {
            let n = suggested_name(os.name, version, edition);
            assert(n =~= os.name + seq!['-'] + version);
            lemma_split_two(os.name, version, '-');
        },
    }
}

} // verus!
