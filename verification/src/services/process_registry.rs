//! Which process runs each VM, as the process monitor records it.
use vstd::prelude::*;

use crate::models::vm::VMId;
use crate::services::session_table::{lemma_position_from, position_from, SessionTable};

verus! {

/// The QEMU process id recorded for each VM.
pub struct ProcessRegistry {
    vm_processes: SessionTable<u32>,
}

/// Whether `pid` is among the live process ids.
pub open spec fn is_live(live: Seq<u32>, pid: u32) -> bool {
    live.contains(pid)
}

impl ProcessRegistry {
    pub closed spec fn wf(&self) -> bool {
        self.vm_processes.wf()
    }

    /// The process recorded for a VM id.
    pub closed spec fn pid_of(&self, vm: Seq<char>) -> Option<u32> {
        self.vm_processes.lookup(vm)
    }

    pub closed spec fn count(&self) -> nat {
        self.vm_processes.len_spec()
    }

    pub fn new() -> (r: Self)
        ensures
            r.wf(),
            r.count() == 0,
            forall|vm: Seq<char>| #[trigger] r.pid_of(vm).is_none(),
    {
        ProcessRegistry { vm_processes: SessionTable::new() }
    }

    /// Records the process of a VM, replacing an earlier one.
    pub fn register_vm_process(&mut self, vm_id: &VMId, pid: u32)
        requires
            old(self).wf(),
        ensures
            final(self).wf(),
            final(self).pid_of(vm_id.0@) == Some(pid),
            forall|k: Seq<char>| k != vm_id.0@ ==> #[trigger] final(self).pid_of(k) == old(self).pid_of(k),
    {
        self.vm_processes.insert(vm_id.0.clone(), pid);
    }

    /// Forgets the process of a VM.
    pub fn unregister_vm_process(&mut self, vm_id: &VMId)
        requires
            old(self).wf(),
        ensures
            final(self).wf(),
            final(self).pid_of(vm_id.0@).is_none(),
            forall|k: Seq<char>| k != vm_id.0@ ==> #[trigger] final(self).pid_of(k) == old(self).pid_of(k),
    {
        self.vm_processes.remove(vm_id.0.as_str());
    }

    /// The process recorded for a VM.
    pub fn registered_pid(&self, vm_id: &VMId) -> (r: Option<u32>)
        requires
            self.wf(),
        ensures
            r == self.pid_of(vm_id.0@),
    {
        match self.vm_processes.get(vm_id.0.as_str()) {
            Some(p) => Some(*p),
            None => None,
        }
    }

    /// Every VM with its recorded process, each once.
    pub fn registered(&self) -> (r: Vec<(String, u32)>)
        requires
            self.wf(),
        ensures
            r@.len() == self.count(),
            forall|i: int| 0 <= i < r@.len() ==> self.pid_of((#[trigger] r@[i]).0@) == Some(r@[i].1),
            forall|vm: Seq<char>| #[trigger] self.pid_of(vm).is_some() ==> exists|i: int|
                0 <= i < r@.len() && r@[i].0@ == vm,
    {
        let n = self.vm_processes.len();
        let mut r: Vec<(String, u32)> = Vec::new();
        let mut i: usize = 0;
        while i < n
            invariant
                self.wf(),
                n == self.count(),
                i <= n,
                r@.len() == i,
                forall|j: int| 0 <= j < i ==> (#[trigger] r@[j]).0@ == self.vm_processes.key_seq()[j]
                    && r@[j].1 == self.vm_processes.val_seq()[j],
            decreases n - i,
        {
            let k = self.vm_processes.key_at(i).clone();
            let p = *self.vm_processes.value_at(i);
            r.push((k, p));
            i = i + 1;
        }
        proof {
            assert forall|j: int| 0 <= j < r@.len() implies self.pid_of((#[trigger] r@[j]).0@)
                == Some(r@[j].1) by {
                self.vm_processes.lemma_lookup_at(j);
            }
            assert forall|vm: Seq<char>| #[trigger] self.pid_of(vm).is_some() implies exists|j: int|
                0 <= j < r@.len() && r@[j].0@ == vm by {
                lemma_position_from(self.vm_processes.key_seq(), vm, 0);
                let p = position_from(self.vm_processes.key_seq(), vm, 0)->0;
                assert(r@[p].0@ == vm);
            }
        }
        r
    }

    /// Forgets every VM whose process is no longer among the live ones.
    pub fn cleanup_stale_processes(&mut self, live: &Vec<u32>)
        requires
            old(self).wf(),
        ensures
            final(self).wf(),
            forall|k: Seq<char>| #[trigger] final(self).pid_of(k) == match old(self).pid_of(k) {
                Some(p) => if is_live(live@, p) {
                    Some(p)
                } else {
                    None
                },
                None => None,
            },
    {
        let ghost before = self.vm_processes;
        let n = self.vm_processes.len();
        let mut kept: SessionTable<u32> = SessionTable::new();
        let mut i: usize = 0;
        assert forall|k: Seq<char>| #[trigger] kept.lookup(k) == match position_from(
            before.key_seq(),
            k,
            0,
        ) {
            Some(j) => if j < 0 && is_live(live@, before.val_seq()[j]) {
                Some(before.val_seq()[j])
            } else {
                None
            },
            None => None,
        } by {
            lemma_position_from(before.key_seq(), k, 0);
        }
        while i < n
            invariant
                before == self.vm_processes,
                before.wf(),
                kept.wf(),
                n == before.len_spec(),
                i <= n,
                forall|k: Seq<char>| #[trigger] kept.lookup(k) == match position_from(before.key_seq(), k, 0) {
                    Some(j) => if j < i && is_live(live@, before.val_seq()[j]) {
                        Some(before.val_seq()[j])
                    } else {
                        None
                    },
                    None => None,
                },
            decreases n - i,
        {
            let ghost prev = kept;
            let pid = *self.vm_processes.value_at(i);
            let mut alive = false;
            let mut m: usize = 0;
            while m < live.len()
                invariant
                    m <= live.len(),
                    alive == exists|t: int| 0 <= t < m && live@[t] == pid,
                decreases live.len() - m,
            {
                if live[m] == pid {
                    alive = true;
                }
                m = m + 1;
            }
            let ghost key = before.key_seq()[i as int];
            proof {
                before.lemma_lookup_at(i as int);
                lemma_position_from(before.key_seq(), key, 0);
                assert(alive == is_live(live@, pid));
            }
            if alive {
                let k = self.vm_processes.key_at(i).clone();
                kept.insert(k, pid);
            }
            assert forall|k: Seq<char>| #[trigger] kept.lookup(k) == match position_from(
                before.key_seq(),
                k,
                0,
            ) {
                Some(j) => if j < i + 1 && is_live(live@, before.val_seq()[j]) {
                    Some(before.val_seq()[j])
                } else {
                    None
                },
                None => None,
            } by {
                lemma_position_from(before.key_seq(), k, 0);
                if k != key {
                    match position_from(before.key_seq(), k, 0) {
                        Some(j) => {
                            assert(j != i);
                        },
                        None => {},
                    }
                }
            }
            i = i + 1;
        }
        self.vm_processes = kept;
        assert forall|k: Seq<char>| #[trigger] self.pid_of(k) == match old(self).pid_of(k) {
            Some(p) => if is_live(live@, p) {
                Some(p)
            } else {
                None
            },
            None => None,
        } by {
            lemma_position_from(before.key_seq(), k, 0);
        }
    }
}

} // verus!
