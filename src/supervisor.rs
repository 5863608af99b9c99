//! Handles of the helper processes this application launched.
//!
//! The supervisor records each successful launch as a live handle and
//! hands each handle out for termination exactly once: on an explicit
//! `terminate`, or in `release_all` when its owner goes away. The caller
//! keeps the operating-system process under the handle's number and kills
//! and waits for it whenever the supervisor says so.

use crate::helpers::{HelperKind, SpawnError};
use vstd::prelude::*;

verus! {

/// One launched helper process.
#[derive(Debug, Clone, Copy, PartialEq, Eq, Structural)]
pub struct HelperProcessHandle {
    pub kind: HelperKind,
    pub id: u64,
}

/// The abstract state: the live handles in launch order, and the number
/// the next launch gets.
pub struct SupervisorModel {
    pub live: Seq<HelperProcessHandle>,
    pub next_id: u64,
}

/// Handle numbers are distinct and below the next one to give out.
pub open spec fn supervisor_wf(m: SupervisorModel) -> bool {
    &&& forall|i: int, j: int|
        0 <= i < m.live.len() && 0 <= j < m.live.len() && i != j ==> #[trigger] m.live[i].id
            != #[trigger] m.live[j].id
    &&& forall|i: int| 0 <= i < m.live.len() ==> #[trigger] m.live[i].id < m.next_id
}

pub open spec fn holds_id(live: Seq<HelperProcessHandle>, id: u64) -> bool {
    exists|i: int| 0 <= i < live.len() && #[trigger] live[i].id == id
}

/// Records the outcome of a launch of `kind`: on success a new live
/// handle; on failure `Launch` with the message and no handle.
pub open spec fn spawn_step(m: SupervisorModel, kind: HelperKind, outcome: Result<(), String>) -> (SupervisorModel, Result<HelperProcessHandle, SpawnError>) {
    match outcome {
        Ok(()) => if m.next_id < u64::MAX {
            let h = HelperProcessHandle { kind, id: m.next_id };
            (SupervisorModel { live: m.live.push(h), next_id: (m.next_id + 1) as u64 }, Ok(h))
        } else {
            (m, Err(SpawnError::Untracked))
        },
        Err(msg) => (m, Err(SpawnError::Launch(msg))),
    }
}

/// Takes the handle numbered `id` out of the live set; `true` when it was
/// live, so the caller must now end the process, `false` when there is
/// nothing left to do.
pub open spec fn terminate_step(m: SupervisorModel, id: u64) -> (SupervisorModel, bool) {
    if holds_id(m.live, id) {
        let i = choose|i: int| 0 <= i < m.live.len() && #[trigger] m.live[i].id == id;
        (SupervisorModel { live: m.live.remove(i), next_id: m.next_id }, true)
    } else {
        (m, false)
    }
}

/// Tracks the live helper handles.
pub struct ProcessSupervisor {
    live: Vec<HelperProcessHandle>,
    next_id: u64,
}

impl ProcessSupervisor {
    pub closed spec fn view(&self) -> SupervisorModel {
        SupervisorModel { live: self.live@, next_id: self.next_id }
    }

    pub open spec fn wf(&self) -> bool {
        supervisor_wf(self.view())
    }

    /// A supervisor with no handles.
    pub fn new() -> (r: ProcessSupervisor)
        ensures
            r.wf(),
            r.view().live == Seq::<HelperProcessHandle>::empty(),
    {
        ProcessSupervisor { live: Vec::new(), next_id: 0 }
    }

    /// The live handles, in launch order.
    pub fn live(&self) -> (r: &Vec<HelperProcessHandle>)
        ensures
            r@ == self.view().live,
    {
        &self.live
    }

    /// Whether `handle` is still live.
    pub fn is_live(&self, handle: &HelperProcessHandle) -> (r: bool)
        ensures
            r == holds_id(self.view().live, handle.id),
    {
        let mut i: usize = 0;
        while i < self.live.len()
            invariant
                i <= self.live@.len(),
                forall|j: int| 0 <= j < i ==> #[trigger] self.live@[j].id != handle.id,
            decreases self.live@.len() - i,
        {
            if self.live[i].id == handle.id {
                return true;
            }
            i = i + 1;
        }
        false
    }

    /// Records the outcome of launching a helper of `kind`: see
    /// `spawn_step`.
    pub fn record_spawn(&mut self, kind: HelperKind, outcome: Result<(), String>) -> (r: Result<
        HelperProcessHandle,
        SpawnError,
    >)
        requires
            old(self).wf(),
        ensures
            final(self).wf(),
            (final(self).view(), r) == spawn_step(old(self).view(), kind, outcome),
    {
        match outcome {
            Ok(()) => {
                if self.next_id == u64::MAX {
                    return Err(SpawnError::Untracked);
                }
                let h = HelperProcessHandle { kind, id: self.next_id };
                self.live.push(h);
                self.next_id = self.next_id + 1;
                Ok(h)
            },
            Err(msg) => Err(SpawnError::Launch(msg)),
        }
    }

    /// Takes `handle` out of the live set: see `terminate_step`. Returns
    /// whether the caller must now end the process; a handle already
    /// terminated gives `false`.
    pub fn terminate(&mut self, handle: &HelperProcessHandle) -> (r: bool)
        requires
            old(self).wf(),
        ensures
            final(self).wf(),
            (final(self).view(), r) == terminate_step(old(self).view(), handle.id),
    {
        let ghost m = self.view();
        let mut i: usize = 0;
        while i < self.live.len()
            invariant
                self.view() == m,
                m == old(self).view(),
                supervisor_wf(m),
                i <= self.live@.len(),
                forall|j: int| 0 <= j < i ==> #[trigger] self.live@[j].id != handle.id,
            decreases self.live@.len() - i,
        {
            if self.live[i].id == handle.id {
                assert(holds_id(m.live, handle.id)) by {
                    assert(m.live[i as int].id == handle.id);
                }
                let ghost k = choose|k: int| 0 <= k < m.live.len() && #[trigger] m.live[k].id == handle.id;
                assert(k == i as int);
                self.live.remove(i);
                assert(self.view().live == m.live.remove(k));
                assert(self.view() == terminate_step(m, handle.id).0);
                assert(supervisor_wf(self.view())) by {
                    assert forall|a: int| 0 <= a < self.live@.len() implies #[trigger] self.live@[a]
                        == m.live[if a < i {
                        a
                    } else {
                        a + 1
                    }] by {}
                }
                return true;
            }
            i = i + 1;
        }
        false
    }

    /// Hands out every live handle, in launch order, for termination, and
    /// leaves none live. Run when the supervisor's owner goes away, on
    /// every exit path.
    pub fn release_all(&mut self) -> (r: Vec<HelperProcessHandle>)
        requires
            old(self).wf(),
        ensures
            final(self).wf(),
            r@ == old(self).view().live,
            final(self).view().live == Seq::<HelperProcessHandle>::empty(),
            final(self).view().next_id == old(self).view().next_id,
    {
        let mut out: Vec<HelperProcessHandle> = Vec::new();
        out.append(&mut self.live);
        out
    }
}

/// A launch that failed leaves no live handle behind; a handle terminated
/// once is not live, and terminating it again does nothing.
pub proof fn lemma_failed_spawn_and_double_terminate(
    m: SupervisorModel,
    kind: HelperKind,
    msg: String,
    id: u64,
)
    requires
        supervisor_wf(m),
    ensures
        spawn_step(m, kind, Err(msg)).0 == m,
        spawn_step(m, kind, Err(msg)).1 == Err::<HelperProcessHandle, SpawnError>(
            SpawnError::Launch(msg),
        ),
        ({
            let (m1, _) = terminate_step(m, id);
            let (m2, again) = terminate_step(m1, id);
            &&& !holds_id(m1.live, id)
            &&& !again
            &&& m2 == m1
        }),
{
    if holds_id(m.live, id) {
        let i = choose|i: int| 0 <= i < m.live.len() && #[trigger] m.live[i].id == id;
        let rest = m.live.remove(i);
        assert forall|a: int| 0 <= a < rest.len() implies #[trigger] rest[a].id != id by {
            let b = if a < i {
                a
            } else {
                a + 1
            };
            assert(rest[a] == m.live[b]);
            assert(m.live[b].id != m.live[i].id);
        }
    }
}

} // verus!
