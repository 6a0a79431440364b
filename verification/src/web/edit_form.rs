//! The form that edits a VM: what it starts with and the request it sends.
use vstd::prelude::*;

use crate::text::{
    is_blank, opt_view, push_signed_decimal, push_str, same_text, signed_decimal, trim,
    trim_str,
};
use crate::web::models::{EditVMRequest, VM};

verus! {

/// The whole gigabytes the form starts with for a VM of `ram_mb`
/// megabytes, at least one.
pub open spec fn starting_gigabytes(ram_mb: u32) -> i32 {
    if ram_mb >= 1024 {
        (ram_mb / 1024) as i32
    } else {
        1
    }
}

/// The RAM field's first value.
pub fn initial_ram_gb(ram_mb: u32) -> (r: i32)
    ensures
        r == starting_gigabytes(ram_mb),
{
    if ram_mb >= 1024 {
        (ram_mb / 1024) as i32
    } else {
        1
    }
}

/// The core count typed into the form, taken as an unsigned number the
/// way a cast from `i32` to `u32` takes it (two's complement).
pub open spec fn cores_entered(c: i32) -> u32 {
    if c >= 0 {
        c as u32
    } else {
        (c + 0x1_0000_0000) as u32
    }
}

fn cores_as_u32(c: i32) -> (r: u32)
    ensures
        r == cores_entered(c),
{
    if c >= 0 {
        c as u32
    } else {
        (c as i64 + 0x1_0000_0000i64) as u32
    }
}

/// The RAM text a request carries: the gigabytes in decimal, then `G`.
pub open spec fn ram_text(gb: i32) -> Seq<char> {
    signed_decimal(gb as int) + "G"@
}

/// The request a valid form sends: only what changed, each field `None`
/// where it is as the VM has it.
pub open spec fn edit_of(vm: VM, name: Seq<char>, ram_gb: i32, cpu_cores: i32) -> (
    Seq<char>,
    Option<Seq<char>>,
    Option<Seq<char>>,
    Option<u32>,
) {
    let n = trim(name);
    let c = cores_entered(cpu_cores);
    (
        vm.id@,
        if n != vm.name@ {
            Some(n)
        } else {
            None
        },
        if ram_gb as int != (vm.ram_mb / 1024) as int {
            Some(ram_text(ram_gb))
        } else {
            None
        },
        if c != vm.cpu_cores {
            Some(c)
        } else {
            None
        },
    )
}

/// What a request holds, as plain values.
pub open spec fn request_view(r: EditVMRequest) -> (
    Seq<char>,
    Option<Seq<char>>,
    Option<Seq<char>>,
    Option<u32>,
) {
    (r.vm_id@, opt_view(r.name), opt_view(r.ram), r.cpu_cores)
}

/// Checks the form and builds the request: a name that is blank once
/// trimmed, then a core count of zero, then zero gigabytes of RAM, are
/// refused with their messages, in that order.
pub fn edit_request(vm: &VM, name: &str, ram_gb: i32, cpu_cores: i32) -> (r: Result<
    EditVMRequest,
    &'static str,
>)
    ensures
        trim(name@).len() == 0 ==> (r matches Err(e) && e@ == "VM name cannot be empty"@),
        trim(name@).len() > 0 && cores_entered(cpu_cores) == 0 ==> (r matches Err(e) && e@
            == "CPU cores must be at least 1"@),
        trim(name@).len() > 0 && cores_entered(cpu_cores) != 0 && ram_gb == 0 ==> (r matches Err(
            e,
        ) && e@ == "RAM must be at least 1GB"@),
        trim(name@).len() > 0 && cores_entered(cpu_cores) != 0 && ram_gb != 0 ==> (r matches Ok(
            req,
        ) && request_view(req) == edit_of(*vm, name@, ram_gb, cpu_cores)),
{
    if is_blank(name) {
        return Err("VM name cannot be empty");
    }
    let cores = cores_as_u32(cpu_cores);
    if cores == 0 {
        return Err("CPU cores must be at least 1");
    }
    if ram_gb == 0 {
        return Err("RAM must be at least 1GB");
    }
    let trimmed = trim_str(name);
    let new_name = if same_text(trimmed.as_str(), vm.name.as_str()) {
        None
    } else {
        Some(trimmed)
    };
    let old_gb: u32 = vm.ram_mb / 1024;
    let ram = if ram_gb < 0 || ram_gb as u32 != old_gb {
        let mut t = String::new();
        push_signed_decimal(&mut t, ram_gb as i64);
        push_str(&mut t, "G");
        Some(t)
    } else {
        None
    };
    let new_cores = if cores != vm.cpu_cores {
        Some(cores)
    } else {
        None
    };
    Ok(EditVMRequest { vm_id: vm.id.clone(), name: new_name, ram, cpu_cores: new_cores })
}

} // verus!
