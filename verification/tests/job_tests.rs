use chrono::Duration as CDuration;
use chrono::Utc;
use job_scheduler::job::Job;
use job_scheduler::job::JobError;

fn now_ms() -> i64 {
    Utc::now().timestamp_millis()
}

#[test]
fn when_valid_parameters_create_job() {
    let name = "test-job-valid-parameters";
    let expire = now_ms() + CDuration::hours(1).num_milliseconds();
    let interval = CDuration::seconds(15).num_milliseconds();
    let message = "test-job-message";

    let result = Job::new(name, expire, interval, message);
    assert!(result.is_ok());

    let job = result.unwrap();
    assert_eq!(job.name(), name);
    assert_eq!(job.expire(), expire);
    assert_eq!(job.interval(), interval);
    assert_eq!(job.message(), message);
}

#[test]
fn when_invalid_expire_get_job_error() {
    let name = "test-job-invalid-expire";
    let expire_in_past = now_ms() - CDuration::hours(1).num_milliseconds();
    let interval = CDuration::seconds(15).num_milliseconds();
    let message = "test job invalid expire";

    let result = Job::new(name, expire_in_past, interval, message);
    assert!(result.is_err());
    let error = result.unwrap_err();
    assert!(matches!(error, JobError::ExpirationInPast(..)))
}

#[test]
fn when_invalid_zero_interval_get_job_error() {
    let name = "test-job-invalid-interval";
    let expire = now_ms() + CDuration::hours(1).num_milliseconds();
    let zero_interval = CDuration::seconds(0).num_milliseconds();
    let message = "test job invalid interval";

    let result = Job::new(name, expire, zero_interval, message);
    assert!(result.is_err());
    let error = result.unwrap_err();
    assert!(matches!(error, JobError::ZeroInterval))
}

#[test]
fn when_job_executed_validated_is_due() {
    let name = "test-job-valid-parameters";
    let start = now_ms();
    let expire = start + CDuration::minutes(1).num_milliseconds();
    let interval = CDuration::seconds(10).num_milliseconds();
    let message = "test-job-message";

    let result = Job::new_at(name, expire, interval, message, start);
    let mut job = result.unwrap();

    assert!(job.is_due_at(start));
    job.execute_at(start);
    // Job is not due immediately after execution
    assert!(!job.is_due_at(start));
    // Simulated passage of time
    let later = start + CDuration::seconds(11).num_milliseconds();
    // Now the job should be due again
    assert!(job.is_due_at(later));
}

#[test]
fn when_job_executed_validate_execution() {
    let name = "test-job-valid-parameters";
    let expire = now_ms() + CDuration::minutes(1).num_milliseconds();
    let interval = CDuration::seconds(10).num_milliseconds();
    let message = "test-job-message";

    let result = Job::new(name, expire, interval, message);
    let mut job = result.unwrap();
    assert!(job.most_recent_run().is_none());
    job.execute();
    assert!(job.most_recent_run().is_some());
}

#[test]
fn when_update_expiration_validate() {
    let name = "test-job-valid-parameters";
    let expire = now_ms() + CDuration::minutes(1).num_milliseconds();
    let interval = CDuration::seconds(10).num_milliseconds();
    let message = "test-job-message";

    let result = Job::new(name, expire, interval, message);
    let mut job = result.unwrap();

    let expire_new = now_ms() + CDuration::minutes(10).num_milliseconds();
    let result = job.update_expiration(expire_new);
    assert!(result.is_ok())
}

#[test]
fn when_update_expiration_is_invalid() {
    let name = "test-job-valid-parameters";
    let expire = now_ms() + CDuration::minutes(1).num_milliseconds();
    let interval = CDuration::seconds(10).num_milliseconds();
    let message = "test-job-message";

    let result = Job::new(name, expire, interval, message);
    let mut job = result.unwrap();

    let expire_new = now_ms() - CDuration::minutes(10).num_milliseconds();
    let result = job.update_expiration(expire_new);
    assert!(result.is_err());
    assert!(matches!(result.unwrap_err(), JobError::ExpirationInPast(_)))
}

#[test]
fn expiration_at_or_before_now_is_rejected() {
    // Exactly "now" is already in the past for construction purposes.
    let r = Job::new_at("boundary", 1_000, 10, "msg", 1_000);
    assert_eq!(r.unwrap_err(), JobError::ExpirationInPast(1_000));

    let r = Job::new_at("earlier", 999, 10, "msg", 1_000);
    assert_eq!(r.unwrap_err(), JobError::ExpirationInPast(999));
}

#[test]
fn non_positive_interval_is_rejected() {
    let r = Job::new_at("zero", 2_000, 0, "msg", 1_000);
    assert_eq!(r.unwrap_err(), JobError::ZeroInterval);

    let r = Job::new_at("negative", 2_000, -5, "msg", 1_000);
    assert_eq!(r.unwrap_err(), JobError::ZeroInterval);
}

#[test]
fn fresh_job_is_due_at_any_instant() {
    let job = Job::new_at("fresh", 10_000, 500, "msg", 1_000).unwrap();
    assert!(job.is_due_at(0));
    assert!(job.is_due_at(1_000));
    assert!(job.is_due_at(i64::MIN));
    assert!(job.is_due_at(i64::MAX));
}

#[test]
fn due_again_exactly_one_interval_after_execution() {
    let mut job = Job::new_at("cooldown", 100_000, 500, "msg", 1_000).unwrap();
    job.execute_at(2_000);
    assert_eq!(job.most_recent_run(), Some(2_000));
    assert!(!job.is_due_at(2_000));
    assert!(!job.is_due_at(2_499));
    assert!(job.is_due_at(2_500));
    assert!(job.is_due_at(9_999));
}

#[test]
fn cooldown_near_the_end_of_time_never_elapses() {
    let mut job = Job::new_at("far", i64::MAX, 10, "msg", 0).unwrap();
    job.execute_at(i64::MAX - 5);
    // The next due instant does not fit in an i64, so the job is not due
    // at any representable instant.
    assert!(!job.is_due_at(i64::MAX));
}

#[test]
fn update_expiration_governs_removal() {
    let mut job = Job::new_at("rearm", 5_000, 10, "msg", 1_000).unwrap();
    assert!(!job.should_remove_at(4_999));
    assert!(job.should_remove_at(5_000));

    // Rejected while not strictly in the future; expiration is unchanged.
    let r = job.update_expiration_at(4_000, 4_000);
    assert_eq!(r.unwrap_err(), JobError::ExpirationInPast(4_000));
    assert_eq!(job.expire(), 5_000);

    // Accepted once strictly in the future; removal follows the new value.
    let r = job.update_expiration_at(9_000, 4_000);
    assert!(r.is_ok());
    assert_eq!(job.expire(), 9_000);
    assert!(!job.should_remove_at(8_999));
    assert!(job.should_remove_at(9_000));
}

#[test]
fn update_expiration_can_rearm_an_expired_job() {
    let mut job = Job::new_at("lapsed", 2_000, 10, "msg", 1_000).unwrap();
    // The old expiration has been reached but no poll has evicted the job.
    assert!(job.should_remove_at(3_000));
    let r = job.update_expiration_at(10_000, 3_000);
    assert!(r.is_ok());
    assert!(!job.should_remove_at(3_000));
}

#[test]
fn next_run_time_postpones_by_one_interval() {
    let mut job = Job::new_at("postpone", 100_000, 500, "msg", 1_000).unwrap();
    job.next_run_time_at(2_000);
    assert_eq!(job.most_recent_run(), Some(2_500));
    assert!(!job.is_due_at(2_500));
    assert!(job.is_due_at(3_000));

    // When the postponed instant does not fit in an i64 the job is
    // left unchanged.
    let mut far = Job::new_at("too-far", i64::MAX, 10, "msg", 0).unwrap();
    far.next_run_time_at(i64::MAX - 5);
    assert_eq!(far.most_recent_run(), None);
}

#[test]
fn daily_report_is_due_immediately() {
    let now = now_ms();
    let expire = now + CDuration::hours(1).num_milliseconds();
    let interval = CDuration::seconds(10).num_milliseconds();
    let job = Job::new("daily-report", expire, interval, "payload").unwrap();
    assert!(job.is_due());
    assert!(job.is_due_at(now));
}
