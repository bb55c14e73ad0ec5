use vstd::prelude::*;

verus! {

/// Admission control of the render workers: how many run, and how many may.
/// A would-be spawner is admitted only while fewer than `limit` run, and the
/// count is raised as part of the admission, before the worker starts.
pub struct WorkerPool {
    active: usize,
    limit: usize,
}

impl WorkerPool {
    pub closed spec fn active_spec(&self) -> nat {
        self.active as nat
    }

    pub closed spec fn limit_spec(&self) -> nat {
        self.limit as nat
    }

    /// Never more workers than the limit.
    pub open spec fn wf(&self) -> bool {
        self.active_spec() <= self.limit_spec()
    }

    /// A pool with no running worker that admits up to `limit` at once.
    pub fn new(limit: usize) -> (r: Self)
        requires
            limit > 0,
        ensures
            r.wf(),
            r.active_spec() == 0,
            r.limit_spec() == limit,
    {
        WorkerPool { active: 0, limit }
    }

    /// Number of running workers.
    pub fn active(&self) -> (r: usize)
        ensures
            r == self.active_spec(),
    {
        self.active
    }

    /// Admits one more worker when fewer than the limit run, counting it;
    /// otherwise leaves the count alone, and the caller waits for a release.
    pub fn try_admit(&mut self) -> (admitted: bool)
        requires
            old(self).wf(),
        ensures
            final(self).wf(),
            final(self).limit_spec() == old(self).limit_spec(),
            admitted == (old(self).active_spec() < old(self).limit_spec()),
            admitted ==> final(self).active_spec() == old(self).active_spec() + 1,
            !admitted ==> final(self).active_spec() == old(self).active_spec(),
    {
        if self.active < self.limit {
            self.active = self.active + 1;
            true
        } else {
            false
        }
    }

    /// A worker has finished: its place is free for one waiting spawner.
    pub fn release(&mut self)
        requires
            old(self).wf(),
            old(self).active_spec() > 0,
        ensures
            final(self).wf(),
            final(self).limit_spec() == old(self).limit_spec(),
            final(self).active_spec() == old(self).active_spec() - 1,
    {
        self.active = self.active - 1;
    }
}

} // verus!
