//! What the home view decides: when the VM list is fetched again, how
//! each VM's status is marked in the sidebar, and what a deletion leaves.
use vstd::prelude::*;

use crate::text::same_text;
use crate::web::models::{VMStatus, VM};

verus! {

/// What one check of the server's VM cache version asks for.
#[derive(Debug, Clone, Copy, PartialEq, Eq)]
pub enum PollAction {
    /// Nothing changed, or the version could not be read.
    Keep,
    /// The list changed: remember this version and fetch the VMs again.
    Refetch(u64),
}

/// The action for a version check, `last` the version the list was
/// fetched at and `fetched` what the server reported, if it answered.
pub open spec fn poll_action(last: u64, fetched: Option<u64>) -> PollAction {
    match fetched {
        Some(v) => if v != last {
            PollAction::Refetch(v)
        } else {
            PollAction::Keep
        },
        None => PollAction::Keep,
    }
}

/// One check of the server's VM cache version, made every two seconds: a
/// version that differs from the last one seen is taken and the list
/// fetched again; the same version, or no answer, leaves all as it is.
pub fn poll_step(last: u64, fetched: Option<u64>) -> (r: PollAction)
    ensures
        r == poll_action(last, fetched),
{
    match fetched {
        Some(v) => if v != last {
            PollAction::Refetch(v)
        } else {
            PollAction::Keep
        },
        None => PollAction::Keep,
    }
}

/// The colour of the dot that marks a status in the sidebar.
pub open spec fn status_dot(s: VMStatus) -> Seq<char> {
    match s {
        VMStatus::Running { .. } => "bg-macos-green-500"@,
        VMStatus::Stopped => "bg-macos-gray-400"@,
        VMStatus::Starting => "bg-macos-yellow-500"@,
        VMStatus::Stopping => "bg-macos-orange-500"@,
        VMStatus::Error(_) => "bg-macos-red-500"@,
    }
}

/// The class of the dot that marks a VM's status in the sidebar.
pub fn status_dot_class(status: &VMStatus) -> (r: &'static str)
    ensures
        r@ == status_dot(*status),
{
    match status {
        VMStatus::Running { .. } => "bg-macos-green-500",
        VMStatus::Stopped => "bg-macos-gray-400",
        VMStatus::Starting => "bg-macos-yellow-500",
        VMStatus::Stopping => "bg-macos-orange-500",
        VMStatus::Error(_) => "bg-macos-red-500",
    }
}

/// The VMs of `s` whose id is not `id`, in their order.
pub open spec fn vms_without(s: Seq<VM>, id: Seq<char>) -> Seq<VM>
    decreases s.len(),
{
    if s.len() == 0 {
        s
    } else if s.last().id@ == id {
        vms_without(s.drop_last(), id)
    } else {
        vms_without(s.drop_last(), id).push(s.last())
    }
}

/// The list after the VM `id` was deleted: every VM with that id goes, the
/// others stay in their order.
pub fn without_vm(vms: Vec<VM>, id: &str) -> (r: Vec<VM>)
    ensures
        r@ == vms_without(vms@, id@),
{
    let ghost orig = vms@;
    let mut v = vms;
    let mut i: usize = 0;
    let ghost mut k: int = 0;
    while i < v.len()
        invariant
            0 <= k <= orig.len(),
            v@ == vms_without(orig.take(k), id@) + orig.skip(k),
            i == vms_without(orig.take(k), id@).len(),
        decreases orig.len() - k,
    {
        let ghost kept = vms_without(orig.take(k), id@);
        assert(k < orig.len()) by {
            if k >= orig.len() {
                assert(orig.skip(k).len() == 0);
            }
        }
        assert(v@[i as int] == orig[k]);
        let ghost t = orig.take(k + 1);
        assert(t.drop_last() == orig.take(k));
        assert(t.last() == orig[k]);
        if same_text(v[i].id.as_str(), id) {
            v.remove(i);
            assert(vms_without(t, id@) == kept);
            assert(v@ =~= kept + orig.skip(k + 1));
        } else {
            assert(vms_without(t, id@) == kept.push(orig[k]));
            assert(v@ =~= kept.push(orig[k]) + orig.skip(k + 1));
            i = i + 1;
        }
        proof {
            k = k + 1;
        }
    }
    assert(orig.skip(k).len() == 0);
    assert(k == orig.len());
    assert(orig.take(k) == orig);
    assert(v@ =~= vms_without(orig, id@));
    v
}

/// After a deletion no VM with the deleted id is left.
pub proof fn law_deleted_vm_is_gone(s: Seq<VM>, id: Seq<char>)
    ensures
        forall|i: int| 0 <= i < vms_without(s, id).len() ==> #[trigger] vms_without(s, id)[i].id@ != id,
    decreases s.len(),
{
    if s.len() > 0 {
        law_deleted_vm_is_gone(s.drop_last(), id);
        let r = vms_without(s.drop_last(), id);
        if s.last().id@ != id {
            let q = r.push(s.last());
            assert forall|i: int| 0 <= i < q.len() implies #[trigger] q[i].id@ != id by {
                if i < r.len() {
                    assert(q[i] == r[i]);
                }
            }
        }
    }
}

} // verus!
