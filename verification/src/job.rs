//! A single recurring job: a named task with a strictly positive run
//! interval, an absolute expiration instant, a message payload, and the
//! instant of its most recent execution (absent until the first run).
//!
//! Instants are milliseconds since the Unix epoch; intervals are milliseconds.
//! Every operation that depends on the current time comes in two forms: a
//! `..._at` function that takes the instant `now` as an argument and carries
//! the exact contract, and a convenience form of the original name that
//! samples the wall clock and delegates to it.

use vstd::prelude::*;

verus! {

/// The mathematical value of a [`Job`]: its fields as plain values.
pub ghost struct JobView {
    pub name: Seq<char>,
    pub expire: i64,
    pub interval: i64,
    pub message: Seq<char>,
    pub last_run: Option<i64>,
}

/// Why a job could not be built or re-armed.
#[derive(Debug, Clone, PartialEq, Eq)]
pub enum JobError {
    /// The supplied expiration instant was not strictly in the future.
    ExpirationInPast(i64),
    /// The supplied interval was not strictly positive.
    ZeroInterval,
}

/// A job is well formed when its interval is strictly positive. The
/// constructor establishes this and no operation changes the interval.
pub open spec fn job_wf(j: JobView) -> bool {
    j.interval > 0
}

/// A job is due at `now` when it has never run, or when at least one full
/// interval has elapsed since its most recent run.
pub open spec fn is_due_at_spec(j: JobView, now: i64) -> bool {
    match j.last_run {
        None => true,
        Some(t) => now >= t + j.interval,
    }
}

/// A job is expired at `now` when its expiration instant has been reached.
pub open spec fn expired_at_spec(j: JobView, now: i64) -> bool {
    now >= j.expire
}

/// The job as it stands after an execution at instant `t`: only the record
/// of the most recent run changes.
pub open spec fn executed_at(j: JobView, t: i64) -> JobView {
    JobView {
        name: j.name,
        expire: j.expire,
        interval: j.interval,
        message: j.message,
        last_run: Some(t),
    }
}

/// The job as it stands after its expiration is re-armed to `e`: only the
/// expiration changes.
pub open spec fn with_expiration(j: JobView, e: i64) -> JobView {
    JobView {
        name: j.name,
        expire: e,
        interval: j.interval,
        message: j.message,
        last_run: j.last_run,
    }
}

/// A named task with an execution interval, an absolute expiration, and a
/// message payload handed to whoever drives the scheduler.
#[derive(Debug, Clone)]
pub struct Job {
    name: String,
    expire: i64,
    interval: i64,
    message: String,
    most_recent_run: Option<i64>,
}

impl View for Job {
    type V = JobView;

    closed spec fn view(&self) -> JobView {
        JobView {
            name: self.name@,
            expire: self.expire,
            interval: self.interval,
            message: self.message@,
            last_run: self.most_recent_run,
        }
    }
}

impl Job {
    /// Validated construction against an explicit instant `now`: the
    /// expiration must be strictly after `now` and the interval strictly
    /// positive, checked in that order.
    pub fn new_at(name: &str, expire: i64, interval: i64, message: &str, now: i64) -> (r: Result<
        Job,
        JobError,
    >)
        ensures
            expire <= now ==> r == Err::<Job, JobError>(JobError::ExpirationInPast(expire)),
            now < expire && interval <= 0 ==> r == Err::<Job, JobError>(JobError::ZeroInterval),
            now < expire && 0 < interval ==> (r matches Ok(j) && j@ == (JobView {
                name: name@,
                expire,
                interval,
                message: message@,
                last_run: None,
            })),
    {
        if Self::instant_is_in_the_past(expire, now) {
            Err(JobError::ExpirationInPast(expire))
        } else if Self::interval_is_zero(interval) {
            Err(JobError::ZeroInterval)
        } else {
            Ok(Job {
                name: name.to_string(),
                expire,
                interval,
                message: message.to_string(),
                most_recent_run: None,
            })
        }
    }

    /// Validated construction against the wall clock. Which branch is taken
    /// depends on the sampled instant; what each branch yields is exact.
    pub fn new(name: &str, expire: i64, interval: i64, message: &str) -> (r: Result<Job, JobError>)
        ensures
            r matches Ok(j) ==> (j@ == (JobView {
                name: name@,
                expire,
                interval,
                message: message@,
                last_run: None,
            }) && 0 < interval),
            interval <= 0 ==> r is Err,
            r matches Err(e) ==> (e == JobError::ExpirationInPast(expire) || (
            e == JobError::ZeroInterval && interval <= 0)),
    {
        let now = now_millis();
        Self::new_at(name, expire, interval, message, now)
    }

    /// The job's name, the registry's unique key.
    pub fn name(&self) -> (r: &str)
        ensures
            r@ == self@.name,
    {
        self.name.as_str()
    }

    /// The absolute expiration instant, in milliseconds since the epoch.
    pub fn expire(&self) -> (r: i64)
        ensures
            r == self@.expire,
    {
        self.expire
    }

    /// The run interval, in milliseconds.
    pub fn interval(&self) -> (r: i64)
        ensures
            r == self@.interval,
    {
        self.interval
    }

    /// The message payload handed out at execution time.
    pub fn message(&self) -> (r: &str)
        ensures
            r@ == self@.message,
    {
        self.message.as_str()
    }

    /// Whether this job's name equals `other`.
    pub fn name_equals(&self, other: &str) -> (r: bool)
        ensures
            r == (self@.name == other@),
    {
        let other_owned: String = other.to_string();
        self.name == other_owned
    }

    /// Record an execution at the explicit instant `now`: the most recent
    /// run becomes `now` and nothing else changes.
    pub fn execute_at(&mut self, now: i64)
        ensures
            final (self)@ == executed_at(old(self)@, now),
    {
        self.most_recent_run = Some(now);
    }

    /// Record an execution at the sampled wall-clock instant.
    pub fn execute(&mut self)
        ensures
            final (self)@.last_run is Some,
            final (self)@.name == old(self)@.name,
            final (self)@.expire == old(self)@.expire,
            final (self)@.interval == old(self)@.interval,
            final (self)@.message == old(self)@.message,
    {
        let now = now_millis();
        self.execute_at(now);
    }

    fn instant_is_in_the_past(instant: i64, now: i64) -> (r: bool)
        ensures
            r == (instant <= now),
    {
        instant <= now
    }

    fn interval_is_zero(interval: i64) -> (r: bool)
        ensures
            r == (interval <= 0),
    {
        interval <= 0
    }

    /// Re-arm the expiration against an explicit instant `now`: rejected,
    /// leaving the job unchanged, unless the new instant is strictly after
    /// `now`.
    pub fn update_expiration_at(&mut self, expiration: i64, now: i64) -> (r: Result<(), JobError>)
        ensures
            expiration <= now ==> (r == Err::<(), JobError>(JobError::ExpirationInPast(expiration))
                && *final(self) == *old(self)),
            now < expiration ==> (r == Ok::<(), JobError>(()) && final (self)@ == with_expiration(
                old(self)@,
                expiration,
            )),
    {
        if Self::instant_is_in_the_past(expiration, now) {
            Err(JobError::ExpirationInPast(expiration))
        } else {
            self.expire = expiration;
            Ok(())
        }
    }

    /// Re-arm the expiration against the wall clock. On success only the
    /// expiration changes; on failure nothing does.
    pub fn update_expiration(&mut self, expiration: i64) -> (r: Result<(), JobError>)
        ensures
            r is Ok ==> final (self)@ == with_expiration(old(self)@, expiration),
            r is Err ==> (r == Err::<(), JobError>(JobError::ExpirationInPast(expiration))
                && *final(self) == *old(self)),
    {
        let now = now_millis();
        self.update_expiration_at(expiration, now)
    }

    /// Whether the job is due at the explicit instant `now`.
    pub fn is_due_at(&self, now: i64) -> (r: bool)
        requires
            job_wf(self@),
        ensures
            r == is_due_at_spec(self@, now),
    {
        match self.most_recent_run {
            None => true,
            Some(last_time) => {
                match last_time.checked_add(self.interval) {
                    // The next due instant does not fit in an i64, so it is
                    // certainly after `now`.
                    None => false,
                    Some(next) => now >= next,
                }
            },
        }
    }

    /// Whether the job is due at the sampled wall-clock instant. A job that
    /// has never run is due whatever the clock says.
    pub fn is_due(&self) -> (r: bool)
        requires
            job_wf(self@),
        ensures
            self@.last_run is None ==> r,
    {
        let now = now_millis();
        self.is_due_at(now)
    }

    /// The instant of the most recent execution, absent if the job has never
    /// run.
    pub fn most_recent_run(&self) -> (r: Option<i64>)
        ensures
            r == self@.last_run,
    {
        self.most_recent_run
    }

    /// Pretend the job has just run one interval after the explicit instant
    /// `now`, postponing its next execution past `now + interval`. If that
    /// instant does not fit in an i64 the job is left unchanged.
    pub fn next_run_time_at(&mut self, now: i64)
        ensures
            now + old(self)@.interval <= i64::MAX && now + old(self)@.interval >= i64::MIN ==> final (
            self)@ == executed_at(old(self)@, (now + old(self)@.interval) as i64),
            now + old(self)@.interval > i64::MAX || now + old(self)@.interval < i64::MIN
                ==> *final(self) == *old(self),
    {
        match now.checked_add(self.interval) {
            Some(next) => {
                self.most_recent_run = Some(next);
            },
            None => {},
        }
    }

    /// Pretend the job has just run one interval after the sampled wall-clock
    /// instant. Only the record of the most recent run can change.
    pub fn next_run_time(&mut self)
        ensures
            final (self)@.name == old(self)@.name,
            final (self)@.expire == old(self)@.expire,
            final (self)@.interval == old(self)@.interval,
            final (self)@.message == old(self)@.message,
    {
        let now = now_millis();
        self.next_run_time_at(now);
    }

    /// Whether the job should be evicted at the explicit instant `now`.
    pub fn should_remove_at(&self, now: i64) -> (r: bool)
        ensures
            r == expired_at_spec(self@, now),
    {
        now >= self.expire
    }

    /// Whether the job should be evicted at the sampled wall-clock instant.
    /// The exact contract is on [`Job::should_remove_at`]; which instant is
    /// compared here depends on the clock.
    pub fn should_remove(&self) -> (r: bool) {
        let now = now_millis();
        self.should_remove_at(now)
    }
}

/// A job that has never run is due, whatever the current instant.
pub proof fn lemma_fresh_job_is_due(j: JobView, now: i64)
    requires
        j.last_run is None,
    ensures
        is_due_at_spec(j, now),
{
}

/// After an execution at instant `t`, a job is due at `now` exactly when a
/// full interval has elapsed: not due while `now < t + interval`, due again
/// once `now >= t + interval`.
pub proof fn lemma_due_after_execution(j: JobView, t: i64, now: i64)
    ensures
        is_due_at_spec(executed_at(j, t), now) <==> now >= t + j.interval,
{
}

/// After the expiration is re-armed to `e`, whether the job should be
/// removed at any later instant is governed by `e` alone.
pub proof fn lemma_expiration_update_governs_removal(j: JobView, e: i64, now: i64)
    ensures
        expired_at_spec(with_expiration(j, e), now) <==> now >= e,
{
}

/// Relies on `chrono::Utc::now` for the current wall-clock instant and on
/// `chrono::DateTime::timestamp_millis` to read it as milliseconds since the
/// Unix epoch. The result depends on the clock, so nothing is promised of it.
#[verifier::external_body]
pub(crate) fn now_millis() -> i64 {
    chrono::Utc::now().timestamp_millis()
}

} // verus!
