//! Line-based edits of a quickemu VM configuration file: renaming, RAM,
//! CPU cores and the display server.
use vstd::prelude::*;

use crate::models::vm::VM as CoreVM;
use crate::paths::{join, join_path};
use crate::text::{
    chars_of, concat, contains, decimal, is_blank, join as join_text, lemma_contains_concat,
    lemma_contains_self, lemma_join_contains,
    join_strings, lemma_skip_ws_bounds, lines, matches_at, push_decimal, push_str,
    same_text, skip_whitespace, split_lines, starts_with, str_contains, trim, trim_start, views,
};
use crate::web::models::EditVMRequest;

verus! {

/// A line is selected when, leading whitespace aside, it begins with
/// `prefix`, and it holds `needle` somewhere.
pub open spec fn line_selected(line: Seq<char>, prefix: Seq<char>, needle: Seq<char>) -> bool {
    starts_with(trim_start(line), prefix) && contains(line, needle)
}

/// A selected line becomes `replacement`; any other line stays.
pub open spec fn replaced_line(
    line: Seq<char>,
    prefix: Seq<char>,
    needle: Seq<char>,
    replacement: Seq<char>,
) -> Seq<char> {
    if line_selected(line, prefix, needle) {
        replacement
    } else {
        line
    }
}

/// The text split into lines, each selected line replaced, joined again
/// with `\n`.
pub open spec fn rewritten(
    content: Seq<char>,
    prefix: Seq<char>,
    needle: Seq<char>,
    replacement: Seq<char>,
) -> Seq<char> {
    join_text(
        lines(content).map_values(|l: Seq<char>| replaced_line(l, prefix, needle, replacement)),
        "\n"@,
    )
}

/// Some line of the text is selected.
pub open spec fn some_line_selected(content: Seq<char>, prefix: Seq<char>, needle: Seq<char>) -> bool {
    exists|i: int| 0 <= i < lines(content).len() && line_selected(#[trigger] lines(content)[i], prefix, needle)
}

/// Whether `line` is selected by `prefix` and `needle`.
pub fn is_line_selected(line: &str, prefix: &str, needle: &str) -> (b: bool)
    ensures
        b == line_selected(line@, prefix@, needle@),
{
    let v = chars_of(line);
    let p = chars_of(prefix);
    let a = skip_whitespace(&v, 0);
    let starts = matches_at(&v, &p, a);
    proof {
        lemma_skip_ws_bounds(v@, 0);
        let t = trim_start(v@);
        if starts {
            assert(t.subrange(0, p@.len() as int) == v@.subrange(a as int, a + p@.len()));
        }
        if starts_with(t, p@) {
            assert(t.subrange(0, p@.len() as int) == v@.subrange(a as int, a + p@.len()));
        }
    }
    if !starts {
        return false;
    }
    str_contains(line, needle)
}

/// Replaces every selected line of `content` and joins the lines with
/// `\n`; also tells whether any line was selected.
pub fn replace_selected_lines(content: &str, prefix: &str, needle: &str, replacement: &str) -> (r: (
    String,
    bool,
))
    ensures
        r.0@ == rewritten(content@, prefix@, needle@, replacement@),
        r.1 == some_line_selected(content@, prefix@, needle@),
{
    let v = chars_of(content);
    let ls = split_lines(&v);
    let ghost src = lines(content@);
    let ghost f = |l: Seq<char>| replaced_line(l, prefix@, needle@, replacement@);
    let mut out: Vec<String> = Vec::new();
    let mut found = false;
    let mut i: usize = 0;
    while i < ls.len()
        invariant
            views(ls@) == src,
            src == lines(content@),
            f == (|l: Seq<char>| replaced_line(l, prefix@, needle@, replacement@)),
            i <= ls.len(),
            views(out@) == src.take(i as int).map_values(f),
            found == exists|j: int| 0 <= j < i && line_selected(#[trigger] src[j], prefix@, needle@),
        decreases ls.len() - i,
    {
        let line = &ls[i];
        assert(line@ == src[i as int]);
        let sel = is_line_selected(line.as_str(), prefix, needle);
        let ghost before = views(out@);
        if sel {
            out.push(replacement.to_owned());
            found = true;
        } else {
            out.push(line.clone());
        }
        proof {
            assert(views(out@) == before.push(f(src[i as int])));
            assert(src.take(i + 1).map_values(f) == src.take(i as int).map_values(f).push(
                f(src[i as int]),
            ));
        }
        i = i + 1;
    }
    assert(src.take(ls.len() as int) == src);
    let joined = join_strings(&out, "\n");
    (joined, found)
}

// ---------------------------------------------------------------------------
// The edits of a VM configuration
// ---------------------------------------------------------------------------

/// `# <new_name>` in place of every comment line that names the VM.
pub open spec fn renamed_config(content: Seq<char>, old_name: Seq<char>, new_name: Seq<char>) -> Seq<char> {
    rewritten(content, "# "@, old_name, "# "@ + new_name)
}

/// `ram="<ram>"` in place of every `ram=` line.
pub open spec fn ram_config(content: Seq<char>, ram: Seq<char>) -> Seq<char> {
    rewritten(content, "ram="@, Seq::empty(), "ram=\""@ + ram + "\""@)
}

/// `cpu_cores=<n>` in place of every `cpu_cores=` line, or appended on a
/// line of its own when there is none.
pub open spec fn cpu_cores_config(content: Seq<char>, cores: u32) -> Seq<char> {
    let line = "cpu_cores="@ + decimal(cores as nat);
    let body = rewritten(content, "cpu_cores="@, Seq::empty(), line);
    if some_line_selected(content, "cpu_cores="@, Seq::empty()) {
        body
    } else {
        body + "\n"@ + line
    }
}

/// The configuration with the SPICE display server, or `None` when it
/// already names it.
pub open spec fn spice_config(content: Seq<char>) -> Option<Seq<char>> {
    let spice = "display_server=\"spice\""@;
    if contains(content, spice) {
        None
    } else if contains(content, "display_server="@) {
        Some(rewritten(content, "display_server="@, Seq::empty(), spice))
    } else {
        Some(content + "\n"@ + spice + "\n"@)
    }
}

/// Renames the VM in its configuration text.
pub fn rename_in_config(content: &str, old_name: &str, new_name: &str) -> (r: String)
    ensures
        r@ == renamed_config(content@, old_name@, new_name@),
{
    let replacement = concat("# ", new_name);
    let (r, _) = replace_selected_lines(content, "# ", old_name, replacement.as_str());
    r
}

/// Sets the RAM of the VM in its configuration text.
pub fn set_ram_in_config(content: &str, ram: &str) -> (r: String)
    ensures
        r@ == ram_config(content@, ram@),
{
    let mut replacement = concat("ram=\"", ram);
    push_str(&mut replacement, "\"");
    proof {
        reveal_strlit("");
            assert(""@ =~= Seq::<char>::empty());
    }
    let (r, _) = replace_selected_lines(content, "ram=", "", replacement.as_str());
    r
}

/// Sets the CPU core count of the VM in its configuration text.
pub fn set_cpu_cores_in_config(content: &str, cores: u32) -> (r: String)
    ensures
        r@ == cpu_cores_config(content@, cores),
{
    let mut line = String::new();
    push_str(&mut line, "cpu_cores=");
    push_decimal(&mut line, cores as u64);
    proof {
        reveal_strlit("");
            assert(""@ =~= Seq::<char>::empty());
    }
    let (mut r, found) = replace_selected_lines(content, "cpu_cores=", "", line.as_str());
    if !found {
        push_str(&mut r, "\n");
        push_str(&mut r, line.as_str());
    }
    r
}

/// The configuration text with `display_server="spice"`, or `None` when
/// nothing needs to change.
pub fn ensure_spice_display_in(content: &str) -> (r: Option<String>)
    ensures
        opt_seq(r) == spice_config(content@),
{
    if str_contains(content, "display_server=\"spice\"") {
        return None;
    }
    if str_contains(content, "display_server=") {
        proof {
            reveal_strlit("");
            assert(""@ =~= Seq::<char>::empty());
        }
        let (r, _) = replace_selected_lines(
            content,
            "display_server=",
            "",
            "display_server=\"spice\"",
        );
        Some(r)
    } else {
        let mut r = concat(content, "\n");
        push_str(&mut r, "display_server=\"spice\"");
        push_str(&mut r, "\n");
        Some(r)
    }
}

pub open spec fn opt_seq(o: Option<String>) -> Option<Seq<char>> {
    match o {
        Some(s) => Some(s@),
        None => None,
    }
}

/// Where quickemu keeps the configuration of a VM it created by name.
pub open spec fn spice_config_path(home: Seq<char>, vm_name: Seq<char>) -> Seq<char> {
    join_path(join_path(home, ".config/quickemu/my-vm"@), vm_name + ".conf"@)
}

/// The path of the configuration file of a VM created under `home`.
pub fn created_config_path(home: &str, vm_name: &str) -> (r: String)
    ensures
        r@ == spice_config_path(home@, vm_name@),
{
    let dir = join(home, ".config/quickemu/my-vm");
    let file = concat(vm_name, ".conf");
    join(dir.as_str(), file.as_str())
}

// ---------------------------------------------------------------------------
// Editing a VM
// ---------------------------------------------------------------------------

/// A requested name changes the VM when it is not blank and differs from
/// the current name.
pub open spec fn name_changes(vm_name: Seq<char>, requested: Option<Seq<char>>) -> bool {
    given_text(requested) && requested.unwrap() != vm_name
}

/// A requested text is applied when it is given and not blank.
pub open spec fn given_text(requested: Option<Seq<char>>) -> bool {
    match requested {
        Some(r) => trim(r).len() > 0,
        None => false,
    }
}

/// A requested core count is applied when it is positive and differs from
/// the current one.
pub open spec fn cores_change(vm_cores: u32, requested: Option<u32>) -> bool {
    match requested {
        Some(c) => c > 0 && c != vm_cores,
        None => false,
    }
}

/// The configuration text after an edit request, or `None` when the
/// request changes nothing.
pub open spec fn edited_config(
    content: Seq<char>,
    vm_name: Seq<char>,
    vm_cores: u32,
    name: Option<Seq<char>>,
    ram: Option<Seq<char>>,
    cores: Option<u32>,
) -> Option<Seq<char>> {
    let c1 = if name_changes(vm_name, name) {
        renamed_config(content, vm_name, name.unwrap())
    } else {
        content
    };
    let c2 = if given_text(ram) {
        ram_config(c1, ram.unwrap())
    } else {
        c1
    };
    let c3 = if cores_change(vm_cores, cores) {
        cpu_cores_config(c2, cores.unwrap())
    } else {
        c2
    };
    if name_changes(vm_name, name) || given_text(ram) || cores_change(vm_cores, cores) {
        Some(c3)
    } else {
        None
    }
}

/// The refusal to edit a VM that is running.
pub fn check_editable(vm: &CoreVM) -> (r: Result<(), String>)
    ensures
        r.is_ok() == !(vm.status is Running),
        r matches Err(m) ==> m@ == "Cannot edit a running VM. Please stop the VM first."@,
{
    if vm.is_running() {
        Err("Cannot edit a running VM. Please stop the VM first.".to_owned())
    } else {
        Ok(())
    }
}

/// The new configuration text of `vm` for an edit request, or `None` when
/// nothing changes.
pub fn edit_config(content: &str, vm: &CoreVM, request: &EditVMRequest) -> (r: Option<String>)
    ensures
        opt_seq(r) == edited_config(
            content@,
            vm.name@,
            vm.config.cpu_cores,
            opt_seq(request.name),
            opt_seq(request.ram),
            request.cpu_cores,
        ),
{
    let mut text = content.to_owned();
    let mut updated = false;
    match &request.name {
        Some(name) => {
            if !is_blank(name.as_str()) && !same_text(name.as_str(), vm.name.as_str()) {
                text = rename_in_config(text.as_str(), vm.name.as_str(), name.as_str());
                updated = true;
            }
        },
        None => {},
    }
    match &request.ram {
        Some(ram) => {
            if !is_blank(ram.as_str()) {
                text = set_ram_in_config(text.as_str(), ram.as_str());
                updated = true;
            }
        },
        None => {},
    }
    match request.cpu_cores {
        Some(cores) => {
            if cores > 0 && cores != vm.config.cpu_cores {
                text = set_cpu_cores_in_config(text.as_str(), cores);
                updated = true;
            }
        },
        None => {},
    }
    if updated {
        Some(text)
    } else {
        None
    }
}

/// The VM record after its configuration was rewritten for `request`:
/// a non-blank name or RAM size and a positive core count are taken over.
pub fn apply_edit(vm: &mut CoreVM, request: &EditVMRequest)
    ensures
        final(vm).name@ == (if given_text(opt_seq(request.name)) {
            request.name.unwrap()@
        } else {
            old(vm).name@
        }),
        final(vm).config.ram@ == (if given_text(opt_seq(request.ram)) {
            request.ram.unwrap()@
        } else {
            old(vm).config.ram@
        }),
        final(vm).config.cpu_cores == (if request.cpu_cores.is_some() && request.cpu_cores.unwrap()
            > 0 {
            request.cpu_cores.unwrap()
        } else {
            old(vm).config.cpu_cores
        }),
        final(vm).id == old(vm).id,
        final(vm).status == old(vm).status,
        final(vm).config_path == old(vm).config_path,
        final(vm).config.display == old(vm).config.display,
        final(vm).config.guest_os == old(vm).config.guest_os,
{
    match &request.name {
        Some(name) => {
            if !is_blank(name.as_str()) {
                vm.name = name.clone();
            }
        },
        None => {},
    }
    match &request.ram {
        Some(ram) => {
            if !is_blank(ram.as_str()) {
                vm.config.ram = ram.clone();
            }
        },
        None => {},
    }
    match request.cpu_cores {
        Some(cores) => {
            if cores > 0 {
                vm.config.cpu_cores = cores;
            }
        },
        None => {},
    }
}

// ---------------------------------------------------------------------------
// What the edits leave in the text
// ---------------------------------------------------------------------------

/// When some line is selected, the rewritten text holds the replacement.
pub proof fn lemma_rewritten_holds_replacement(
    content: Seq<char>,
    prefix: Seq<char>,
    needle: Seq<char>,
    replacement: Seq<char>,
)
    requires
        some_line_selected(content, prefix, needle),
    ensures
        contains(rewritten(content, prefix, needle, replacement), replacement),
{
    let ls = lines(content);
    let i = choose|i: int| 0 <= i < ls.len() && line_selected(#[trigger] ls[i], prefix, needle);
    let mapped = ls.map_values(|l: Seq<char>| replaced_line(l, prefix, needle, replacement));
    assert(mapped[i] == replacement);
    lemma_join_contains(mapped, "\n"@, i);
}

/// Setting the core count always leaves a line `cpu_cores=<n>`: it
/// replaces the existing ones or is appended.
pub proof fn law_cpu_cores_written(content: Seq<char>, cores: u32)
    ensures
        contains(cpu_cores_config(content, cores), "cpu_cores="@ + decimal(cores as nat)),
{
    let line = "cpu_cores="@ + decimal(cores as nat);
    let body = rewritten(content, "cpu_cores="@, Seq::empty(), line);
    if some_line_selected(content, "cpu_cores="@, Seq::empty()) {
        lemma_rewritten_holds_replacement(content, "cpu_cores="@, Seq::empty(), line);
    } else {
        lemma_contains_self(line);
        lemma_contains_concat(body + "\n"@, line, line);
    }
}

/// Setting the RAM size leaves `ram="<ram>"` in a configuration that has
/// a `ram=` line; one without it is left without.
pub proof fn law_ram_written(content: Seq<char>, ram: Seq<char>)
    requires
        some_line_selected(content, "ram="@, Seq::empty()),
    ensures
        contains(ram_config(content, ram), "ram=\""@ + ram + "\""@),
{
    lemma_rewritten_holds_replacement(content, "ram="@, Seq::empty(), "ram=\""@ + ram + "\""@);
}

/// Renaming leaves `# <new name>` in a configuration with a comment line
/// naming the VM.
pub proof fn law_rename_written(content: Seq<char>, old_name: Seq<char>, new_name: Seq<char>)
    requires
        some_line_selected(content, "# "@, old_name),
    ensures
        contains(renamed_config(content, old_name, new_name), "# "@ + new_name),
{
    lemma_rewritten_holds_replacement(content, "# "@, old_name, "# "@ + new_name);
}

/// Once the SPICE display is ensured, the configuration names it, and
/// ensuring it again changes nothing; this holds unless the text
/// mentions `display_server=` only where no line starts with it.
pub proof fn law_spice_display_ensured(content: Seq<char>)
    requires
        contains(content, "display_server="@) ==> (contains(content, "display_server=\"spice\""@)
            || some_line_selected(content, "display_server="@, Seq::empty())),
    ensures
        match spice_config(content) {
            None => contains(content, "display_server=\"spice\""@),
            Some(c) => contains(c, "display_server=\"spice\""@) && spice_config(c).is_none(),
        },
{
    let spice = "display_server=\"spice\""@;
    if contains(content, spice) {
    } else if contains(content, "display_server="@) {
        lemma_rewritten_holds_replacement(content, "display_server="@, Seq::empty(), spice);
    } else {
        lemma_contains_self(spice);
        lemma_contains_concat(content + "\n"@, spice, spice);
        lemma_contains_concat(content + "\n"@ + spice, "\n"@, spice);
    }
}

/// A request with a RAM size that is not blank is always saved, and when it
/// changes nothing else the saved text is the configuration with its `ram=`
/// lines set, which holds `ram="<ram>"` when the configuration has such a
/// line.
pub proof fn law_ram_request_is_saved(
    content: Seq<char>,
    vm_name: Seq<char>,
    vm_cores: u32,
    name: Option<Seq<char>>,
    ram: Seq<char>,
    cores: Option<u32>,
)
    requires
        trim(ram).len() > 0,
    ensures
        edited_config(content, vm_name, vm_cores, name, Some(ram), cores) is Some,
        !name_changes(vm_name, name) && !cores_change(vm_cores, cores) ==> edited_config(
            content,
            vm_name,
            vm_cores,
            name,
            Some(ram),
            cores,
        ) == Some(ram_config(content, ram)),
        !name_changes(vm_name, name) && !cores_change(vm_cores, cores) && some_line_selected(
            content,
            "ram="@,
            Seq::empty(),
        ) ==> (edited_config(content, vm_name, vm_cores, name, Some(ram), cores) matches Some(c)
            && contains(c, "ram=\""@ + ram + "\""@)),
{
    if some_line_selected(content, "ram="@, Seq::empty()) {
        law_ram_written(content, ram);
    }
}

/// An edit request is saved exactly when it renames the VM, gives a RAM
/// size or changes the core count; otherwise nothing is written.
pub proof fn law_edit_saved_iff_something_changes(
    content: Seq<char>,
    vm_name: Seq<char>,
    vm_cores: u32,
    name: Option<Seq<char>>,
    ram: Option<Seq<char>>,
    cores: Option<u32>,
)
    ensures
        edited_config(content, vm_name, vm_cores, name, ram, cores) is Some <==> (
            (name matches Some(n) && trim(n).len() > 0 && n != vm_name)
            || (ram matches Some(r) && trim(r).len() > 0)
            || (cores matches Some(c) && c > 0 && c != vm_cores)),
{
}

/// A request with a positive core count other than the VM's is always
/// saved, and when it changes nothing else the saved text holds the line
/// `cpu_cores=<n>`.
pub proof fn law_cores_request_is_saved(
    content: Seq<char>,
    vm_name: Seq<char>,
    vm_cores: u32,
    name: Option<Seq<char>>,
    ram: Option<Seq<char>>,
    cores: u32,
)
    requires
        cores > 0,
        cores != vm_cores,
    ensures
        edited_config(content, vm_name, vm_cores, name, ram, Some(cores)) is Some,
        !name_changes(vm_name, name) && !given_text(ram) ==> (edited_config(
            content,
            vm_name,
            vm_cores,
            name,
            ram,
            Some(cores),
        ) matches Some(c) && contains(c, "cpu_cores="@ + decimal(cores as nat))),
{
    law_cpu_cores_written(content, cores);
}

/// A request that renames the VM is always saved, and when it changes
/// nothing else the saved text names the VM anew wherever a comment line
/// named it.
pub proof fn law_rename_request_is_saved(
    content: Seq<char>,
    vm_name: Seq<char>,
    vm_cores: u32,
    name: Seq<char>,
    ram: Option<Seq<char>>,
    cores: Option<u32>,
)
    requires
        trim(name).len() > 0,
        name != vm_name,
    ensures
        edited_config(content, vm_name, vm_cores, Some(name), ram, cores) is Some,
        !given_text(ram) && !cores_change(vm_cores, cores) && some_line_selected(
            content,
            "# "@,
            vm_name,
        ) ==> (edited_config(content, vm_name, vm_cores, Some(name), ram, cores) matches Some(c)
            && contains(c, "# "@ + name)),
{
    if some_line_selected(content, "# "@, vm_name) {
        law_rename_written(content, vm_name, name);
    }
}

} // verus!
