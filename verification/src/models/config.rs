//! Application settings: the list of VM directories and user preferences.
use vstd::prelude::*;

use crate::environment::{config_dir, home_dir};
use crate::paths::{join, join_path, paths_equal, same_path};
use crate::text::{opt_view, views};

verus! {

#[derive(Debug, Clone, Copy, PartialEq, Eq)]
pub enum Theme {
    System,
    Light,
    Dark,
}

/// Settings of the manager. Paths are held as strings.
#[derive(Debug, Clone, PartialEq)]
pub struct AppConfig {
    pub vm_directories: Vec<String>,
    pub quickemu_path: Option<String>,
    pub quickget_path: Option<String>,
    pub auto_download_tools: bool,
    pub theme: Theme,
    pub update_interval_ms: u64,
}

/// Whether a directory with the same path as `d` is listed.
pub open spec fn listed(ds: Seq<Seq<char>>, d: Seq<char>) -> bool {
    exists|i: int| 0 <= i < ds.len() && #[trigger] same_path(ds[i], d)
}

/// Whether no two listed directories have the same path.
pub open spec fn distinct_paths(ds: Seq<Seq<char>>) -> bool {
    forall|i: int, j: int|
        0 <= i < ds.len() && 0 <= j < ds.len() && i != j ==> !same_path(ds[i], ds[j])
}

/// The directory list after adding `d`: unchanged when a directory with
/// the same path is already listed, otherwise `d` at the end.
pub open spec fn added_directory(ds: Seq<Seq<char>>, d: Seq<char>) -> Seq<Seq<char>> {
    if listed(ds, d) {
        ds
    } else {
        ds.push(d)
    }
}

/// The directory list without any directory that has the same path as
/// `d`, order kept.
pub open spec fn removed_directory(ds: Seq<Seq<char>>, d: Seq<char>) -> Seq<Seq<char>>
    decreases ds.len(),
{
    if ds.len() == 0 {
        ds
    } else if same_path(ds.last(), d) {
        removed_directory(ds.drop_last(), d)
    } else {
        removed_directory(ds.drop_last(), d).push(ds.last())
    }
}

/// The directory list with `d` first and no other directory of its path.
pub open spec fn primary_set(ds: Seq<Seq<char>>, d: Seq<char>) -> Seq<Seq<char>> {
    seq![d] + removed_directory(ds, d)
}

/// The directories a fresh configuration lists for a given home directory.
pub open spec fn default_directories(home: Option<Seq<char>>) -> Seq<Seq<char>> {
    match home {
        Some(h) => seq![join_path(h, ".config/quickemu"@), join_path(h, "VMs"@)],
        None => Seq::empty(),
    }
}

/// The directory new VMs go to: the first listed one, else `VMs` in the home
/// directory, else `/tmp/VMs`.
pub open spec fn primary_directory(ds: Seq<Seq<char>>, home: Option<Seq<char>>) -> Seq<char> {
    if ds.len() > 0 {
        ds[0]
    } else {
        match home {
            Some(h) => join_path(h, "VMs"@),
            None => "/tmp/VMs"@,
        }
    }
}

fn clone_string(s: &String) -> (r: String)
    ensures
        r@ == s@,
{
    s.clone()
}

impl AppConfig {
    /// The directory list as character sequences.
    pub open spec fn directories(&self) -> Seq<Seq<char>> {
        views(self.vm_directories@)
    }

    /// A fresh configuration for the given home directory.
    pub fn with_home_dir(home: Option<String>) -> (c: Self)
        ensures
            c.directories() == default_directories(opt_view(home)),
            c.quickemu_path.is_none(),
            c.quickget_path.is_none(),
            c.auto_download_tools,
            c.theme == Theme::System,
            c.update_interval_ms == 1000,
    {
        let mut vm_dirs: Vec<String> = Vec::new();
        match home {
            Some(h) => {
                let a = join(h.as_str(), ".config/quickemu");
                let b = join(h.as_str(), "VMs");
                vm_dirs.push(a);
                vm_dirs.push(b);
                assert(views(vm_dirs@) =~= seq![a@, b@]);
            },
            None => {
                assert(views(vm_dirs@) =~= Seq::<Seq<char>>::empty());
            },
        }
        AppConfig {
            vm_directories: vm_dirs,
            quickemu_path: None,
            quickget_path: None,
            auto_download_tools: true,
            theme: Theme::System,
            update_interval_ms: 1000,
        }
    }

    /// The directory new VMs go to, for a known home directory.
    pub fn primary_vm_directory_in(&self, home: Option<String>) -> (r: String)
        ensures
            r@ == primary_directory(self.directories(), opt_view(home)),
    {
        if self.vm_directories.len() > 0 {
            clone_string(&self.vm_directories[0])
        } else {
            match home {
                Some(h) => join(h.as_str(), "VMs"),
                None => "/tmp/VMs".to_owned(),
            }
        }
    }

    /// Get the primary VM directory (first directory, used for creating new
    /// VMs), falling back on the user's home directory.
    pub fn get_primary_vm_directory(&self) -> (r: String)
        ensures
            self.directories().len() > 0 ==> r@ == self.directories()[0],
            exists|home: Option<Seq<char>>|
                r@ == primary_directory(self.directories(), home),
    {
        let home = home_dir();
        let ghost h = opt_view(home);
        let r = self.primary_vm_directory_in(home);
        assert(r@ == primary_directory(self.directories(), h));
        r
    }

    /// The settings directory and file under a user configuration
    /// directory, or the error when there is none.
    pub fn config_location_in(config_dir: Option<String>) -> (r: Result<(String, String), String>)
        ensures
            match config_dir {
                Some(d) => r matches Ok((dir, file)) && dir@ == join_path(d@, "quickemu-manager"@)
                    && file@ == join_path(join_path(d@, "quickemu-manager"@), "config.toml"@),
                None => r matches Err(e) && e@ == "Could not find config directory"@,
            },
    {
        match config_dir {
            Some(d) => {
                let dir = join(d.as_str(), "quickemu-manager");
                let file = join(dir.as_str(), "config.toml");
                Ok((dir, file))
            },
            None => Err("Could not find config directory".to_owned()),
        }
    }

    /// The settings directory and file of this user, from
    /// `dirs::config_dir`.
    pub fn config_location() -> (r: Result<(String, String), String>)
        ensures
            r matches Ok((dir, file)) ==> (exists|d: Seq<char>|
                dir@ == join_path(d, "quickemu-manager"@)) && file@ == join_path(
                dir@,
                "config.toml"@,
            ),
            r matches Err(e) ==> e@ == "Could not find config directory"@,
    {
        let d = config_dir();
        Self::config_location_in(d)
    }

    /// Get all VM directories for discovery
    pub fn get_all_vm_directories(&self) -> (r: &Vec<String>)
        ensures
            r == &self.vm_directories,
    {
        &self.vm_directories
    }

    /// Remove a VM directory
    pub fn remove_vm_directory(&mut self, directory: &String)
        ensures
            final(self).directories() == removed_directory(old(self).directories(), directory@),
            final(self).quickemu_path == old(self).quickemu_path,
            final(self).quickget_path == old(self).quickget_path,
            final(self).auto_download_tools == old(self).auto_download_tools,
            final(self).theme == old(self).theme,
            final(self).update_interval_ms == old(self).update_interval_ms,
    {
        let ghost ds = old(self).directories();
        let mut kept: Vec<String> = Vec::new();
        let mut i: usize = 0;
        while i < self.vm_directories.len()
            invariant
                i <= self.vm_directories.len(),
                ds == views(self.vm_directories@),
                views(kept@) == removed_directory(ds.take(i as int), directory@),
            decreases self.vm_directories.len() - i,
        {
            let ghost before = views(kept@);
            let same = paths_equal(self.vm_directories[i].as_str(), directory.as_str());
            if !same {
                let c = clone_string(&self.vm_directories[i]);
                kept.push(c);
                assert(views(kept@) == before.push(c@));
            }
            proof {
                let t = ds.take(i + 1);
                assert(t.drop_last() == ds.take(i as int));
                assert(t.last() == self.vm_directories@[i as int]@);
                assert(same == same_path(t.last(), directory@));
                assert(views(kept@) == removed_directory(t, directory@));
            }
            i = i + 1;
        }
        assert(ds.take(i as int) == ds);
        self.vm_directories = kept;
    }

    /// Add a VM directory for discovery
    pub fn add_vm_directory(&mut self, directory: String)
        ensures
            final(self).directories() == added_directory(old(self).directories(), directory@),
            final(self).quickemu_path == old(self).quickemu_path,
            final(self).quickget_path == old(self).quickget_path,
            final(self).auto_download_tools == old(self).auto_download_tools,
            final(self).theme == old(self).theme,
            final(self).update_interval_ms == old(self).update_interval_ms,
    {
        let ghost ds = old(self).directories();
        let mut i: usize = 0;
        while i < self.vm_directories.len()
            invariant
                i <= self.vm_directories.len(),
                ds == views(self.vm_directories@),
                forall|j: int| 0 <= j < i ==> !#[trigger] same_path(ds[j], directory@),
            decreases self.vm_directories.len() - i,
        {
            if paths_equal(self.vm_directories[i].as_str(), directory.as_str()) {
                assert(same_path(ds[i as int], directory@));
                return;
            }
            i = i + 1;
        }
        assert(!listed(ds, directory@));
        let ghost d = directory@;
        self.vm_directories.push(directory);
        assert(views(self.vm_directories@) =~= ds.push(d));
    }

    /// Set the primary VM directory (moves it to first position)
    pub fn set_primary_vm_directory(&mut self, directory: String)
        ensures
            final(self).directories() == primary_set(old(self).directories(), directory@),
            final(self).quickemu_path == old(self).quickemu_path,
            final(self).quickget_path == old(self).quickget_path,
            final(self).auto_download_tools == old(self).auto_download_tools,
            final(self).theme == old(self).theme,
            final(self).update_interval_ms == old(self).update_interval_ms,
    {
        self.remove_vm_directory(&directory);
        let ghost rest = self.directories();
        let ghost d = directory@;
        self.vm_directories.insert(0, directory);
        assert(views(self.vm_directories@) =~= seq![d] + rest);
    }
}

impl Default for AppConfig {
    fn default() -> (c: Self)
        ensures
            exists|home: Option<Seq<char>>| c.directories() == default_directories(home),
            c.quickemu_path.is_none(),
            c.quickget_path.is_none(),
            c.auto_download_tools,
            c.theme == Theme::System,
            c.update_interval_ms == 1000,
    {
        let home = home_dir();
        let ghost h = opt_view(home);
        let c = AppConfig::with_home_dir(home);
        assert(c.directories() == default_directories(h));
        c
    }
}

// ---------------------------------------------------------------------------
// Laws of the directory list
// ---------------------------------------------------------------------------

/// Removing `d` leaves no directory with its path.
pub proof fn law_removed_directory_is_unlisted(ds: Seq<Seq<char>>, d: Seq<char>)
    ensures
        !listed(removed_directory(ds, d), d),
    decreases ds.len(),
{
    if ds.len() > 0 {
        law_removed_directory_is_unlisted(ds.drop_last(), d);
        let r = removed_directory(ds.drop_last(), d);
        if !same_path(ds.last(), d) {
            let q = r.push(ds.last());
            assert forall|i: int| 0 <= i < q.len() implies !#[trigger] same_path(q[i], d) by {
                if i < r.len() {
                    assert(q[i] == r[i]);
                    assert(!same_path(r[i], d));
                }
            }
        }
    }
}

/// Removing `d` keeps every listed directory of another path, and adds
/// none.
pub proof fn law_removal_keeps_others(ds: Seq<Seq<char>>, d: Seq<char>, x: Seq<char>)
    requires
        !same_path(x, d),
    ensures
        removed_directory(ds, d).contains(x) <==> ds.contains(x),
    decreases ds.len(),
{
    if ds.len() > 0 {
        law_removal_keeps_others(ds.drop_last(), d, x);
        let r = removed_directory(ds.drop_last(), d);
        let p = ds.drop_last();
        if ds.contains(x) {
            let k = choose|k: int| 0 <= k < ds.len() && ds[k] == x;
            if k < ds.len() - 1 {
                assert(p[k] == x);
            }
        }
        if p.contains(x) {
            let k = choose|k: int| 0 <= k < p.len() && p[k] == x;
            assert(ds[k] == x);
        }
        if !same_path(ds.last(), d) {
            let q = r.push(ds.last());
            if q.contains(x) {
                let k = choose|k: int| 0 <= k < q.len() && q[k] == x;
                if k < r.len() {
                    assert(r[k] == x);
                } else {
                    assert(ds[ds.len() - 1] == x);
                }
            }
            if r.contains(x) {
                let k = choose|k: int| 0 <= k < r.len() && r[k] == x;
                assert(q[k] == x);
            }
            if ds.last() == x {
                assert(q[q.len() - 1] == x);
            }
        }
    }
}

/// Removing a directory whose path is not listed changes nothing.
pub proof fn law_removing_unlisted_is_identity(ds: Seq<Seq<char>>, d: Seq<char>)
    requires
        !listed(ds, d),
    ensures
        removed_directory(ds, d) == ds,
    decreases ds.len(),
{
    if ds.len() > 0 {
        let p = ds.drop_last();
        assert(!listed(p, d)) by {
            if listed(p, d) {
                let k = choose|k: int| 0 <= k < p.len() && #[trigger] same_path(p[k], d);
                assert(ds[k] == p[k]);
                assert(same_path(ds[k], d));
            }
        }
        law_removing_unlisted_is_identity(p, d);
        assert(!same_path(ds[ds.len() - 1], d));
        assert(p.push(ds.last()) == ds);
    }
}

/// Adding a directory lists its path.
pub proof fn law_added_directory_is_listed(ds: Seq<Seq<char>>, d: Seq<char>)
    ensures
        listed(added_directory(ds, d), d),
{
    if !listed(ds, d) {
        assert(same_path(ds.push(d)[ds.len() as int], d));
    }
}

/// Adding the same directory twice is adding it once.
pub proof fn law_add_is_idempotent(ds: Seq<Seq<char>>, d: Seq<char>)
    ensures
        added_directory(added_directory(ds, d), d) == added_directory(ds, d),
{
    law_added_directory_is_listed(ds, d);
}

/// Removing a directory undoes adding it.
pub proof fn law_remove_undoes_add(ds: Seq<Seq<char>>, d: Seq<char>)
    ensures
        removed_directory(added_directory(ds, d), d) == removed_directory(ds, d),
{
    if !listed(ds, d) {
        assert(ds.push(d).drop_last() == ds);
        assert(same_path(ds.push(d).last(), d));
    }
}

/// After `set_primary_vm_directory(d)`, `d` is the primary directory, and
/// no other listed directory has its path.
pub proof fn law_set_primary_makes_primary(ds: Seq<Seq<char>>, d: Seq<char>, home: Option<Seq<char>>)
    ensures
        primary_directory(primary_set(ds, d), home) == d,
        primary_set(ds, d)[0] == d,
        !listed(primary_set(ds, d).drop_first(), d),
{
    law_removed_directory_is_unlisted(ds, d);
    assert(primary_set(ds, d).drop_first() == removed_directory(ds, d));
}

/// Setting the same primary directory twice is setting it once.
pub proof fn law_set_primary_is_idempotent(ds: Seq<Seq<char>>, d: Seq<char>)
    ensures
        primary_set(primary_set(ds, d), d) == primary_set(ds, d),
{
    let r = removed_directory(ds, d);
    law_removed_directory_is_unlisted(ds, d);
    lemma_remove_after_front(r, d);
    law_removing_unlisted_is_identity(r, d);
}

proof fn lemma_remove_after_front(r: Seq<Seq<char>>, d: Seq<char>)
    ensures
        removed_directory(seq![d] + r, d) == removed_directory(r, d),
    decreases r.len(),
{
    if r.len() == 0 {
        let s = seq![d] + r;
        assert(s.drop_last() == Seq::<Seq<char>>::empty());
        assert(s.last() == d);
        assert(same_path(s.last(), d));
        assert(removed_directory(s, d) == removed_directory(s.drop_last(), d));
        assert(removed_directory(Seq::<Seq<char>>::empty(), d) == Seq::<Seq<char>>::empty());
    } else {
        let s = seq![d] + r;
        assert(s.drop_last() == seq![d] + r.drop_last());
        assert(s.last() == r.last());
        lemma_remove_after_front(r.drop_last(), d);
        if same_path(r.last(), d) {
            assert(removed_directory(s, d) == removed_directory(s.drop_last(), d));
        } else {
            assert(removed_directory(s, d) == removed_directory(s.drop_last(), d).push(s.last()));
        }
    }
}

/// Removal keeps the remaining directories in their order, so a list in
/// which no two directories share a path stays so.
pub proof fn law_removal_keeps_distinct_paths(ds: Seq<Seq<char>>, d: Seq<char>)
    requires
        distinct_paths(ds),
    ensures
        distinct_paths(removed_directory(ds, d)),
    decreases ds.len(),
{
    if ds.len() > 0 {
        let p = ds.drop_last();
        assert(distinct_paths(p)) by {
            assert forall|i: int, j: int| 0 <= i < p.len() && 0 <= j < p.len() && i != j implies !same_path(
                p[i],
                p[j],
            ) by {
                assert(p[i] == ds[i] && p[j] == ds[j]);
            }
        }
        law_removal_keeps_distinct_paths(p, d);
        law_removed_directory_is_unlisted(p, d);
        let r = removed_directory(p, d);
        if !same_path(ds.last(), d) {
            let last = ds.last();
            assert forall|i: int| 0 <= i < r.len() implies !same_path(r[i], last) by {
                assert(!same_path(r[i], d));
                law_removal_keeps_others(p, d, r[i]);
                assert(r.contains(r[i]));
                let k = choose|k: int| 0 <= k < p.len() && p[k] == r[i];
                assert(ds[k] == p[k]);
                assert(!same_path(ds[k], ds[ds.len() - 1]));
            }
            let q = r.push(last);
            assert forall|i: int, j: int| 0 <= i < q.len() && 0 <= j < q.len() && i != j implies !same_path(
                q[i],
                q[j],
            ) by {
                if i < r.len() && j < r.len() {
                    assert(q[i] == r[i] && q[j] == r[j]);
                } else if i < r.len() {
                    assert(q[i] == r[i]);
                    assert(!same_path(r[i], last));
                } else if j < r.len() {
                    assert(q[j] == r[j]);
                    assert(!same_path(r[j], last));
                }
            }
        }
    }
}

/// Every change of the directory list keeps its directories of distinct
/// paths.
pub proof fn law_directory_changes_keep_distinct_paths(ds: Seq<Seq<char>>, d: Seq<char>)
    requires
        distinct_paths(ds),
    ensures
        distinct_paths(added_directory(ds, d)),
        distinct_paths(removed_directory(ds, d)),
        distinct_paths(primary_set(ds, d)),
{
    law_removal_keeps_distinct_paths(ds, d);
    law_removed_directory_is_unlisted(ds, d);
    let r = removed_directory(ds, d);
    let q = seq![d] + r;
    assert forall|i: int, j: int| 0 <= i < q.len() && 0 <= j < q.len() && i != j implies !same_path(
        q[i],
        q[j],
    ) by {
        if i > 0 && j > 0 {
            assert(q[i] == r[i - 1] && q[j] == r[j - 1]);
        } else if i == 0 {
            assert(q[j] == r[j - 1]);
            assert(!same_path(r[j - 1], d));
        } else {
            assert(q[i] == r[i - 1]);
            assert(!same_path(r[i - 1], d));
        }
    }
    if !listed(ds, d) {
        let a = ds.push(d);
        assert forall|i: int, j: int| 0 <= i < a.len() && 0 <= j < a.len() && i != j implies !same_path(
            a[i],
            a[j],
        ) by {
            if i < ds.len() && j < ds.len() {
                assert(a[i] == ds[i] && a[j] == ds[j]);
            } else if i < ds.len() {
                assert(a[i] == ds[i]);
                assert(!same_path(ds[i], d));
            } else if j < ds.len() {
                assert(a[j] == ds[j]);
                assert(!same_path(ds[j], d));
            }
        }
    }
}

/// In a list of distinct paths, removing `d` takes away exactly one
/// directory when its path is listed, and none otherwise.
pub proof fn law_removal_length(ds: Seq<Seq<char>>, d: Seq<char>)
    requires
        distinct_paths(ds),
    ensures
        removed_directory(ds, d).len() == ds.len() - (if listed(ds, d) {
            1int
        } else {
            0int
        }),
    decreases ds.len(),
{
    if ds.len() > 0 {
        let p = ds.drop_last();
        assert(distinct_paths(p)) by {
            assert forall|i: int, j: int| 0 <= i < p.len() && 0 <= j < p.len() && i != j implies !same_path(
                p[i],
                p[j],
            ) by {
                assert(p[i] == ds[i] && p[j] == ds[j]);
            }
        }
        law_removal_length(p, d);
        if same_path(ds.last(), d) {
            assert(!listed(p, d)) by {
                if listed(p, d) {
                    let k = choose|k: int| 0 <= k < p.len() && #[trigger] same_path(p[k], d);
                    assert(ds[k] == p[k]);
                    assert(!same_path(ds[k], ds[ds.len() - 1]));
                }
            }
            law_removing_unlisted_is_identity(p, d);
            assert(same_path(ds[ds.len() - 1], d));
        } else {
            assert(listed(ds, d) == listed(p, d)) by {
                if listed(ds, d) {
                    let k = choose|k: int| 0 <= k < ds.len() && #[trigger] same_path(ds[k], d);
                    assert(k != ds.len() - 1);
                    assert(p[k] == ds[k]);
                    assert(same_path(p[k], d));
                }
                if listed(p, d) {
                    let k = choose|k: int| 0 <= k < p.len() && #[trigger] same_path(p[k], d);
                    assert(ds[k] == p[k]);
                    assert(same_path(ds[k], d));
                }
            }
        }
    }
}

/// Moving `d` to the front of the list: the listed paths become those
/// listed before together with `d`'s, the directories kept are those of
/// other paths together with `d` itself, and for a list of distinct paths
/// the list grows by one exactly when `d`'s path was not listed.
pub proof fn law_set_primary_paths(ds: Seq<Seq<char>>, d: Seq<char>, x: Seq<char>)
    requires
        distinct_paths(ds),
    ensures
        listed(primary_set(ds, d), x) <==> (listed(ds, x) || same_path(x, d)),
        primary_set(ds, d).contains(x) <==> (x == d || (ds.contains(x) && !same_path(x, d))),
        primary_set(ds, d).len() == ds.len() + (if listed(ds, d) {
            0int
        } else {
            1int
        }),
{
    let r = removed_directory(ds, d);
    let q = seq![d] + r;
    law_removal_length(ds, d);
    law_removed_directory_is_unlisted(ds, d);
    if listed(q, x) {
        let k = choose|k: int| 0 <= k < q.len() && #[trigger] same_path(q[k], x);
        if k > 0 {
            assert(q[k] == r[k - 1]);
            let y = r[k - 1];
            assert(!same_path(y, d));
            law_removal_keeps_others(ds, d, y);
            assert(r.contains(y));
            let j = choose|j: int| 0 <= j < ds.len() && ds[j] == y;
            assert(same_path(ds[j], x));
        }
    }
    if same_path(x, d) {
        assert(same_path(q[0], x));
    } else if listed(ds, x) {
        let k = choose|k: int| 0 <= k < ds.len() && #[trigger] same_path(ds[k], x);
        let y = ds[k];
        assert(!same_path(y, d));
        law_removal_keeps_others(ds, d, y);
        assert(ds.contains(y));
        let j = choose|j: int| 0 <= j < r.len() && r[j] == y;
        assert(q[j + 1] == y);
        assert(same_path(q[j + 1], x));
    }
    if q.contains(x) {
        let k = choose|k: int| 0 <= k < q.len() && q[k] == x;
        if k > 0 {
            assert(q[k] == r[k - 1]);
            assert(!same_path(r[k - 1], d));
            law_removal_keeps_others(ds, d, x);
            assert(r.contains(x));
        }
    }
    if x == d {
        assert(q[0] == x);
    } else if ds.contains(x) && !same_path(x, d) {
        law_removal_keeps_others(ds, d, x);
        let j = choose|j: int| 0 <= j < r.len() && r[j] == x;
        assert(q[j + 1] == x);
    }
}

} // verus!
