//! The registry of jobs, keyed by unique name, and the polling tick that
//! executes every due job and then evicts every expired one.
//!
//! The registry is a vector of jobs whose invariant keeps the names pairwise
//! distinct and every interval strictly positive; its view is the sequence of
//! job views in registration order.

use vstd::prelude::*;

use crate::job::Job;
use crate::job::JobView;
use crate::job::executed_at;
use crate::job::expired_at_spec;
use crate::job::is_due_at_spec;
use crate::job::job_wf;

verus! {

/// Why a registry operation failed.
#[derive(Debug, Clone, PartialEq, Eq)]
pub enum SchedulerError {
    /// `add_job` found another job registered under the same name.
    JobAlreadyExists(String),
    /// `remove_job` found no job registered under the name.
    JobDoesntExist(String),
}

/// Whether some job in `s` carries the name.
pub open spec fn contains_name(s: Seq<JobView>, name: Seq<char>) -> bool {
    exists|i: int| 0 <= i < s.len() && s[i].name == name
}

/// The registry invariant: names pairwise distinct, every job well formed.
pub open spec fn scheduler_wf(s: Seq<JobView>) -> bool {
    &&& forall|i: int, j: int| 0 <= i < j < s.len() ==> s[i].name != s[j].name
    &&& forall|i: int| 0 <= i < s.len() ==> job_wf(#[trigger] s[i])
}

/// One job as the execution pass of a tick at `now` leaves it: executed at
/// `now` when due, untouched otherwise.
pub open spec fn tick_job(j: JobView, now: i64) -> JobView {
    if is_due_at_spec(j, now) {
        executed_at(j, now)
    } else {
        j
    }
}

/// The whole registry as the execution pass of a tick at `now` leaves it.
pub open spec fn tick_all(s: Seq<JobView>, now: i64) -> Seq<JobView> {
    s.map_values(|j: JobView| tick_job(j, now))
}

/// The registry with every job expired at `now` evicted, order kept.
pub open spec fn evict_expired(s: Seq<JobView>, now: i64) -> Seq<JobView>
    decreases s.len(),
{
    if s.len() == 0 {
        Seq::empty()
    } else if !expired_at_spec(s[0], now) {
        seq![s[0]] + evict_expired(s.drop_first(), now)
    } else {
        evict_expired(s.drop_first(), now)
    }
}

/// The registry as one whole polling tick at `now` leaves it: every due job
/// executed first, and only then every expired job evicted — so a job both
/// due and expired at the same tick receives one final execution before it
/// goes.
pub open spec fn run_tick_spec(s: Seq<JobView>, now: i64) -> Seq<JobView> {
    evict_expired(tick_all(s, now), now)
}

/// An in-memory registry of named jobs with a polling tick.
#[derive(Debug)]
pub struct Scheduler {
    jobs: Vec<Job>,
}

impl View for Scheduler {
    type V = Seq<JobView>;

    closed spec fn view(&self) -> Seq<JobView> {
        self.jobs@.map_values(|j: Job| j@)
    }
}

impl Scheduler {
    /// An empty registry.
    pub fn new() -> (s: Scheduler)
        ensures
            s@ == Seq::<JobView>::empty(),
            scheduler_wf(s@),
    {
        let s = Scheduler { jobs: Vec::new() };
        proof {
            assert(s@ =~= Seq::<JobView>::empty());
        }
        s
    }

    /// How many jobs are registered.
    pub fn job_count(&self) -> (n: usize)
        ensures
            n == self@.len(),
    {
        self.jobs.len()
    }

    /// The index of the job registered under `name`, if any.
    fn find_index(&self, name: &str) -> (r: Option<usize>)
        ensures
            r matches Some(i) ==> i < self@.len() && self@[i as int].name == name@,
            r is None ==> !contains_name(self@, name@),
    {
        let n = self.jobs.len();
        let mut i: usize = 0;
        while i < n
            invariant
                i <= n,
                n == self@.len(),
                forall|k: int| 0 <= k < i ==> self@[k].name != name@,
            decreases n - i,
        {
            if self.jobs[i].name_equals(name) {
                return Some(i);
            }
            i = i + 1;
        }
        None
    }

    /// Register `job` under its name: rejected, leaving the registry
    /// unchanged, when the name is already taken; appended otherwise.
    pub fn add_job(&mut self, job: Job) -> (r: Result<(), SchedulerError>)
        requires
            scheduler_wf(old(self)@),
            job_wf(job@),
        ensures
            contains_name(old(self)@, job@.name) ==> (*final(self) == *old(self) && (
            r matches Err(e) && e matches SchedulerError::JobAlreadyExists(n) && n@ == job@.name)),
            !contains_name(old(self)@, job@.name) ==> (r is Ok && final(self)@ == old(self)@.push(
                job@,
            )),
            scheduler_wf(final(self)@),
    {
        match self.find_index(job.name()) {
            Some(_) => Err(SchedulerError::JobAlreadyExists(job.name().to_string())),
            None => {
                let ghost pre = self@;
                self.jobs.push(job);
                proof {
                    assert(self@ =~= pre.push(job@));
                }
                Ok(())
            },
        }
    }

    /// Deregister and hand back the job under `name`: rejected, leaving the
    /// registry unchanged, when no job carries the name.
    pub fn remove_job(&mut self, job_name: &str) -> (r: Result<Job, SchedulerError>)
        requires
            scheduler_wf(old(self)@),
        ensures
            !contains_name(old(self)@, job_name@) ==> (*final(self) == *old(self) && (
            r matches Err(e) && e matches SchedulerError::JobDoesntExist(n) && n@ == job_name@)),
            contains_name(old(self)@, job_name@) ==> (r matches Ok(job) && job@.name == job_name@
                && (exists|i: int|
                0 <= i < old(self)@.len() && job@ == old(self)@[i] && final(self)@ == old(
                    self,
                )@.remove(i))),
            scheduler_wf(final(self)@),
    {
        match self.find_index(job_name) {
            None => Err(SchedulerError::JobDoesntExist(job_name.to_string())),
            Some(i) => {
                let ghost pre = self@;
                let job = self.jobs.remove(i);
                proof {
                    assert(self@ =~= pre.remove(i as int));
                }
                Ok(job)
            },
        }
    }

    /// A read-only borrow of the job under `name`, absent when no job
    /// carries it.
    pub fn get_job(&self, job_name: &str) -> (r: Option<&Job>)
        ensures
            r matches Some(job) ==> (job@.name == job_name@ && (exists|i: int|
                0 <= i < self@.len() && job@ == self@[i])),
            r is None ==> !contains_name(self@, job_name@),
    {
        match self.find_index(job_name) {
            None => None,
            Some(i) => Some(&self.jobs[i]),
        }
    }

    /// One polling tick at the explicit instant `now`: first every due job
    /// is executed in place, and only after that pass is every expired job
    /// evicted. A job both due and already expired thus runs once more
    /// before it is removed.
    pub fn run_at(&mut self, now: i64)
        requires
            scheduler_wf(old(self)@),
        ensures
            final(self)@ == run_tick_spec(old(self)@, now),
            scheduler_wf(final(self)@),
    {
        let ghost orig = self@;
        let n = self.jobs.len();
        let mut i: usize = 0;
        while i < n
            invariant
                i <= n,
                n == self@.len(),
                orig.len() == n,
                scheduler_wf(orig),
                forall|k: int| 0 <= k < i ==> self@[k] == tick_job(orig[k], now),
                forall|k: int| i <= k < n ==> self@[k] == orig[k],
            decreases n - i,
        {
            let ghost pre = self@;
            if self.jobs[i].is_due_at(now) {
                let mut job = self.jobs.remove(i);
                job.execute_at(now);
                self.jobs.insert(i, job);
                proof {
                    assert(self@ =~= pre.update(i as int, executed_at(pre[i as int], now)));
                }
            }
            i = i + 1;
        }
        proof {
            assert(self@ =~= tick_all(orig, now));
            lemma_tick_all_wf(orig, now);
        }

        let ghost ticked = self@;
        let mut kept: Vec<Job> = Vec::new();
        proof {
            assert(kept@.map_values(|j: Job| j@) =~= Seq::<JobView>::empty());
            assert(evict_expired(ticked, now) =~= kept@.map_values(|j: Job| j@) + evict_expired(
                self@,
                now,
            ));
        }
        while self.jobs.len() > 0
            invariant
                evict_expired(ticked, now) == kept@.map_values(|j: Job| j@) + evict_expired(
                    self@,
                    now,
                ),
            decreases self.jobs.len(),
        {
            let ghost pre = self@;
            let ghost kept_pre = kept@.map_values(|j: Job| j@);
            let job = self.jobs.remove(0);
            proof {
                assert(self@ =~= pre.drop_first());
            }
            if !job.should_remove_at(now) {
                kept.push(job);
                proof {
                    assert(kept@.map_values(|j: Job| j@) =~= kept_pre.push(pre[0]));
                    assert(kept_pre + (seq![pre[0]] + evict_expired(pre.drop_first(), now))
                        =~= kept_pre.push(pre[0]) + evict_expired(pre.drop_first(), now));
                }
            }
        }
        proof {
            assert(evict_expired(self@, now) =~= Seq::<JobView>::empty());
            assert(kept@.map_values(|j: Job| j@) + evict_expired(self@, now) =~= kept@.map_values(
                |j: Job| j@,
            ));
        }
        self.jobs = kept;
        proof {
            lemma_evict_expired_wf(ticked, now);
        }
    }

    /// One polling tick at the sampled wall-clock instant: the registry is
    /// left exactly as [`Scheduler::run_at`] leaves it for that instant.
    pub fn run(&mut self)
        requires
            scheduler_wf(old(self)@),
        ensures
            exists|now: i64| final(self)@ == run_tick_spec(old(self)@, now),
            scheduler_wf(final(self)@),
    {
        let now = crate::job::now_millis();
        self.run_at(now);
        proof {
            assert(self@ == run_tick_spec(old(self)@, now));
        }
    }
}

/// Every element of the evicted registry is an element of the original that
/// is not expired at `now`.
proof fn lemma_evict_expired_membership(s: Seq<JobView>, now: i64)
    ensures
        forall|k: int| 0 <= k < evict_expired(s, now).len() ==> (exists|i: int|
            0 <= i < s.len() && #[trigger] evict_expired(s, now)[k] == s[i] && !expired_at_spec(
                s[i],
                now,
            )),
    decreases s.len(),
{
    if s.len() == 0 {
    } else {
        lemma_evict_expired_membership(s.drop_first(), now);
        let rest = evict_expired(s.drop_first(), now);
        assert forall|k: int| 0 <= k < evict_expired(s, now).len() implies (exists|i: int|
            0 <= i < s.len() && #[trigger] evict_expired(s, now)[k] == s[i] && !expired_at_spec(
                s[i],
                now,
            )) by {
            if !expired_at_spec(s[0], now) {
                if k == 0 {
                    assert(evict_expired(s, now)[0] == s[0]);
                } else {
                    assert(evict_expired(s, now)[k] == rest[k - 1]);
                    let i = choose|i: int|
                        0 <= i < s.drop_first().len() && rest[k - 1] == s.drop_first()[i]
                            && !expired_at_spec(s.drop_first()[i], now);
                    assert(s.drop_first()[i] == s[i + 1]);
                }
            } else {
                assert(evict_expired(s, now)[k] == rest[k]);
                let i = choose|i: int|
                    0 <= i < s.drop_first().len() && rest[k] == s.drop_first()[i]
                        && !expired_at_spec(s.drop_first()[i], now);
                assert(s.drop_first()[i] == s[i + 1]);
            }
        }
    }
}

/// Eviction preserves the registry invariant.
proof fn lemma_evict_expired_wf(s: Seq<JobView>, now: i64)
    requires
        scheduler_wf(s),
    ensures
        scheduler_wf(evict_expired(s, now)),
    decreases s.len(),
{
    if s.len() == 0 {
    } else {
        let rest = s.drop_first();
        assert(scheduler_wf(rest)) by {
            assert forall|i: int| 0 <= i < rest.len() implies job_wf(#[trigger] rest[i]) by {
                assert(rest[i] == s[i + 1]);
            }
            assert forall|i: int, j: int| 0 <= i < j < rest.len() implies rest[i].name
                != rest[j].name by {
                assert(rest[i] == s[i + 1] && rest[j] == s[j + 1]);
            }
        }
        lemma_evict_expired_wf(rest, now);
        lemma_evict_expired_membership(rest, now);
        if !expired_at_spec(s[0], now) {
            let e = evict_expired(s, now);
            let er = evict_expired(rest, now);
            assert forall|i: int, j: int| 0 <= i < j < e.len() implies e[i].name != e[j].name by {
                if i == 0 {
                    assert(e[j] == er[j - 1]);
                    let m = choose|m: int|
                        0 <= m < rest.len() && er[j - 1] == rest[m] && !expired_at_spec(
                            rest[m],
                            now,
                        );
                    assert(rest[m] == s[m + 1]);
                    assert(s[0].name != s[m + 1].name);
                } else {
                    assert(e[i] == er[i - 1] && e[j] == er[j - 1]);
                }
            }
            assert forall|i: int| 0 <= i < e.len() implies job_wf(#[trigger] e[i]) by {
                if i == 0 {
                    assert(e[0] == s[0]);
                } else {
                    assert(e[i] == er[i - 1]);
                    let m = choose|m: int|
                        0 <= m < rest.len() && er[i - 1] == rest[m] && !expired_at_spec(
                            rest[m],
                            now,
                        );
                }
            }
        }
    }
}

/// The execution pass preserves the registry invariant: it changes no name
/// and no interval.
proof fn lemma_tick_all_wf(s: Seq<JobView>, now: i64)
    requires
        scheduler_wf(s),
    ensures
        scheduler_wf(tick_all(s, now)),
        tick_all(s, now).len() == s.len(),
{
    let t = tick_all(s, now);
    assert forall|i: int| 0 <= i < t.len() implies job_wf(#[trigger] t[i]) by {
        assert(t[i] == tick_job(s[i], now));
    }
    assert forall|i: int, j: int| 0 <= i < j < t.len() implies t[i].name != t[j].name by {
        assert(t[i] == tick_job(s[i], now) && t[j] == tick_job(s[j], now));
    }
}

} // verus!
