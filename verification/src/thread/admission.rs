//! Which requests start now and which wait.

use vstd::prelude::*;

use super::http_thread::{HttpThread, TaskId, ThreadView};

verus! {

/// One pass over the requests that wait: those that had to wait before come first.
pub struct Admission {
    pending: Vec<TaskId>,
    next: usize,
    active: usize,
    max: usize,
}

pub ghost struct AdmissionView {
    /// The requests that had to wait before and are still to be looked at.
    pub pending: Seq<TaskId>,
    /// How many requests run.
    pub active: usize,
    /// How many requests may run.
    pub max: usize,
}

impl View for Admission {
    type V = AdmissionView;

    closed spec fn view(&self) -> AdmissionView {
        AdmissionView {
            pending: self.pending@.skip(self.next as int),
            active: self.active,
            max: self.max,
        }
    }
}

/// Whether a request starts: there is room, or it is aborted, so that it ends at once.
pub open spec fn starts(aborted: bool, active: usize, max: usize) -> bool {
    aborted || active < max
}

impl HttpThread {
    /// Begins to start requests, unless that is no use: all may not start, and none
    /// that waits was aborted.
    pub fn admit_tasks(&mut self, active: usize, max: usize) -> (r: Option<Admission>)
        requires
            old(self).wf(),
        ensures
            final(self).wf(),
            r is None <==> active >= max && !old(self)@.has_pending_queued_abort,
            r is None ==> final(self)@ == old(self)@,
            r matches Some(admission) ==> {
                &&& admission.wf()
                &&& admission@ == (AdmissionView {
                    pending: old(self)@.deferred_tasks,
                    active,
                    max,
                })
                &&& final(self)@ == (ThreadView {
                    has_pending_queued_abort: false,
                    deferred_tasks: Seq::empty(),
                    ..old(self)@
                })
            },
    {
        if active >= max && !self.has_pending_queued_abort {
            return None;
        }
        self.has_pending_queued_abort = false;
        let mut pending: Vec<TaskId> = Vec::new();
        core::mem::swap(&mut pending, &mut self.deferred_tasks);
        assert(pending@.skip(0) =~= pending@);
        Some(Admission { pending, next: 0, active, max })
    }

    /// Decides on a request: `true` if it is to start; else it waits.
    pub fn decide_on(&mut self, admission: &Admission, task: TaskId, aborted: bool) -> (start: bool)
        requires
            old(self).wf(),
        ensures
            final(self).wf(),
            start == starts(aborted, admission@.active, admission@.max),
            final(self)@ == if start {
                old(self)@
            } else {
                ThreadView { deferred_tasks: old(self)@.deferred_tasks.push(task), ..old(self)@ }
            },
    {
        if aborted || admission.active < admission.max {
            true
        } else {
            self.deferred_tasks.push(task);
            false
        }
    }
}

impl Admission {
    pub closed spec fn wf(&self) -> bool {
        self.next <= self.pending@.len()
    }

    /// The next request to decide on: one that had to wait before, or else the first
    /// that nobody has looked at.
    pub fn next_task(&mut self, thread: &mut HttpThread) -> (r: Option<TaskId>)
        requires
            old(self).wf(),
            old(thread).wf(),
        ensures
            final(self).wf(),
            final(thread).wf(),
            if old(self)@.pending.len() > 0 {
                &&& r == Some(old(self)@.pending.first())
                &&& final(self)@ == (AdmissionView {
                    pending: old(self)@.pending.drop_first(),
                    ..old(self)@
                })
                &&& final(thread)@ == old(thread)@
            } else if old(thread)@.queued_tasks.len() > 0 {
                &&& r == Some(old(thread)@.queued_tasks.first())
                &&& final(self)@ == old(self)@
                &&& final(thread)@ == (ThreadView {
                    queued_tasks: old(thread)@.queued_tasks.drop_first(),
                    ..old(thread)@
                })
            } else {
                &&& r is None
                &&& final(self)@ == old(self)@
                &&& final(thread)@ == old(thread)@
            },
    {
        if self.next < self.pending.len() {
            let task = self.pending[self.next];
            self.next = self.next + 1;
            assert(self@.pending =~= old(self)@.pending.drop_first());
            return Some(task);
        }
        let r = thread.queued_tasks.pop_front();
        assert(r is Some ==> thread@.queued_tasks =~= old(thread)@.queued_tasks.drop_first());
        r
    }

    /// A request has started; `active` run now.
    pub fn started(&mut self, active: usize)
        requires
            old(self).wf(),
        ensures
            final(self).wf(),
            final(self)@ == (AdmissionView { active, ..old(self)@ }),
    {
        self.active = active;
    }
}

/// A request as it is looked at.
pub ghost struct Candidate {
    pub task: TaskId,
    pub aborted: bool,
    /// How many requests run once it has started.
    pub active_then: usize,
}

/// What a pass has decided.
pub ghost struct Decided {
    pub started: Seq<TaskId>,
    pub deferred: Seq<TaskId>,
    pub active: usize,
}

/// What a pass over the candidates decides: each is decided on with the number of
/// requests that run after the last start.
pub open spec fn decide(candidates: Seq<Candidate>, active: usize, max: usize) -> Decided
    decreases candidates.len(),
{
    if candidates.len() == 0 {
        Decided { started: Seq::empty(), deferred: Seq::empty(), active }
    } else {
        let so_far = decide(candidates.drop_last(), active, max);
        let next = candidates.last();
        if starts(next.aborted, so_far.active, max) {
            Decided {
                started: so_far.started.push(next.task),
                active: next.active_then,
                ..so_far
            }
        } else {
            Decided { deferred: so_far.deferred.push(next.task), ..so_far }
        }
    }
}

/// The requests that were looked at.
pub open spec fn tasks(candidates: Seq<Candidate>) -> Seq<TaskId> {
    candidates.map_values(|c: Candidate| c.task)
}

/// A pass loses no request and starts none twice: each either starts or waits.
pub proof fn no_task_is_lost(candidates: Seq<Candidate>, active: usize, max: usize)
    ensures
        ({
            let decided = decide(candidates, active, max);
            decided.started.to_multiset().add(decided.deferred.to_multiset()) == tasks(
                candidates,
            ).to_multiset()
        }),
    decreases candidates.len(),
{
    broadcast use vstd::seq_lib::group_to_multiset_ensures;

    let decided = decide(candidates, active, max);
    if candidates.len() == 0 {
        assert(tasks(candidates) =~= Seq::empty());
        assert(decided.started.to_multiset().add(decided.deferred.to_multiset()) =~= tasks(
            candidates,
        ).to_multiset());
    } else {
        no_task_is_lost(candidates.drop_last(), active, max);
        let so_far = decide(candidates.drop_last(), active, max);
        let task = candidates.last().task;
        assert(tasks(candidates) =~= tasks(candidates.drop_last()).push(task));
        assert(decided.started.to_multiset().add(decided.deferred.to_multiset())
            =~= so_far.started.to_multiset().add(so_far.deferred.to_multiset()).insert(task));
    }
}

/// While as many requests run as may, exactly those start that are aborted; the
/// others wait, in their order.
pub proof fn full_thread_starts_only_aborted(candidates: Seq<Candidate>, active: usize, max: usize)
    requires
        active >= max,
        forall|i: int|
            0 <= i < candidates.len() ==> (#[trigger] candidates[i]).active_then >= max,
    ensures
        decide(candidates, active, max).started == tasks(
            candidates.filter(|c: Candidate| c.aborted),
        ),
        decide(candidates, active, max).deferred == tasks(
            candidates.filter(|c: Candidate| !c.aborted),
        ),
        decide(candidates, active, max).active >= max,
    decreases candidates.len(),
{
    let aborted = |c: Candidate| c.aborted;
    let live = |c: Candidate| !c.aborted;
    if candidates.len() == 0 {
        assert(candidates.filter(aborted).len() == 0) by {
            reveal(Seq::filter);
        }
        assert(candidates.filter(live).len() == 0) by {
            reveal(Seq::filter);
        }
        assert(tasks(candidates.filter(aborted)) =~= Seq::empty());
        assert(tasks(candidates.filter(live)) =~= Seq::empty());
    } else {
        let before = candidates.drop_last();
        let next = candidates.last();
        full_thread_starts_only_aborted(before, active, max);
        assert(candidates =~= before.push(next));
        before.lemma_filter_push(next, aborted);
        before.lemma_filter_push(next, live);
        assert(tasks(before.filter(aborted).push(next)) =~= tasks(before.filter(aborted)).push(
            next.task,
        ));
        assert(tasks(before.filter(live).push(next)) =~= tasks(before.filter(live)).push(next.task));
    }
}

/// While there is room, every request starts, in the order in which it is looked at.
pub proof fn free_thread_starts_all(candidates: Seq<Candidate>, active: usize, max: usize)
    requires
        active < max,
        forall|i: int| 0 <= i < candidates.len() ==> (#[trigger] candidates[i]).active_then < max,
    ensures
        decide(candidates, active, max).started == tasks(candidates),
        decide(candidates, active, max).deferred == Seq::<TaskId>::empty(),
        decide(candidates, active, max).active < max,
    decreases candidates.len(),
{
    if candidates.len() == 0 {
        assert(tasks(candidates) =~= Seq::empty());
    } else {
        free_thread_starts_all(candidates.drop_last(), active, max);
        assert(tasks(candidates) =~= tasks(candidates.drop_last()).push(candidates.last().task));
    }
}

} // verus!
