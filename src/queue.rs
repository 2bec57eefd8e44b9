use vstd::prelude::*;
use std::collections::VecDeque;
use crate::job::RayJob;

verus! {

/// `job` tagged with `generation`.
pub open spec fn retagged<R>(job: RayJob<R>, generation: u64) -> RayJob<R> {
    RayJob { generation, ..job }
}

/// A first-in, first-out queue of trace jobs. Sharing it between threads
/// (behind one lock) is up to its owner.
pub struct JobQueue<R> {
    jobs: VecDeque<RayJob<R>>,
}

impl<R> View for JobQueue<R> {
    type V = Seq<RayJob<R>>;

    closed spec fn view(&self) -> Seq<RayJob<R>> {
        self.jobs@
    }
}

impl<R> JobQueue<R> {
    pub fn new() -> (r: JobQueue<R>)
        ensures
            r@ == Seq::<RayJob<R>>::empty(),
    {
        JobQueue { jobs: VecDeque::new() }
    }

    pub fn len(&self) -> (r: usize)
        ensures
            r == self@.len(),
    {
        self.jobs.len()
    }

    pub fn is_empty(&self) -> (r: bool)
        ensures
            r == (self@.len() == 0),
    {
        self.jobs.len() == 0
    }

    /// Appends `job` at the back.
    pub fn enqueue(&mut self, job: RayJob<R>)
        ensures
            final(self)@ == old(self)@.push(job),
    {
        self.jobs.push_back(job);
    }

    /// Removes and returns the front job; `None` on an empty queue.
    pub fn try_dequeue(&mut self) -> (r: Option<RayJob<R>>)
        ensures
            old(self)@.len() == 0 ==> r.is_none() && final(self)@ == old(self)@,
            old(self)@.len() > 0 ==> r == Some(old(self)@[0]) && final(self)@ == old(self)@.drop_first(),
    {
        self.jobs.pop_front()
    }
}

impl<R: Copy> JobQueue<R> {
    /// Drops every queued job and installs `jobs`, in order, each tagged
    /// with `generation`.
    pub fn replace(&mut self, jobs: &Vec<RayJob<R>>, generation: u64)
        ensures
            final(self)@ == jobs@.map_values(|j: RayJob<R>| retagged(j, generation)),
    {
        self.jobs.clear();
        let mut i: usize = 0;
        while i < jobs.len()
            invariant
                i <= jobs@.len(),
                self.jobs@ == jobs@.subrange(0, i as int).map_values(
                    |j: RayJob<R>| retagged(j, generation),
                ),
            decreases jobs@.len() - i,
        {
            let job = jobs[i];
            self.jobs.push_back(RayJob { generation, ..job });
            assert(jobs@.subrange(0, i + 1) =~= jobs@.subrange(0, i as int).push(jobs@[i as int]));
            assert(self.jobs@ =~= jobs@.subrange(0, i + 1).map_values(
                |j: RayJob<R>| retagged(j, generation),
            ));
            i = i + 1;
        }
        assert(jobs@.subrange(0, jobs@.len() as int) =~= jobs@);
    }
}

} // verus!
