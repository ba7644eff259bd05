use starscout::job::orphaned_job_ids;
use starscout::job::recover_orphans;
use starscout::job::JobStatus;
use starscout::job::UserJob;
use starscout::orchestrator::JobError;
use starscout::orchestrator::JobManager;

fn pending_job(id: u64, user_id: u64) -> UserJob {
    UserJob::new_pending(id, user_id, 1_000)
}

#[test]
fn start_twice_then_finish_then_start_again() {
    let mut mgr = JobManager::new();
    assert_eq!(mgr.start_job(7, 100), Ok(100));
    assert_eq!(
        mgr.start_job(7, 101),
        Err(JobError::JobAlreadyRunning { user_id: 7 })
    );
    mgr.finish_job(7);
    assert_eq!(mgr.start_job(7, 102), Ok(102));
}

#[test]
fn registry_tracks_running_jobs() {
    let mut mgr = JobManager::new();
    assert_eq!(mgr.active_job_count(), 0);
    assert!(!mgr.is_job_running(1));
    mgr.start_job(1, 10).unwrap();
    mgr.start_job(2, 11).unwrap();
    assert_eq!(mgr.active_job_count(), 2);
    assert!(mgr.is_job_running(1));
    assert!(mgr.is_job_running(2));
    let mut users = mgr.list_active_jobs();
    users.sort();
    assert_eq!(users, vec![1, 2]);
}

#[test]
fn stop_job_returns_job_id_and_clears_entry() {
    let mut mgr = JobManager::new();
    mgr.start_job(5, 55).unwrap();
    assert_eq!(mgr.stop_job(5), Ok(55));
    assert!(!mgr.is_job_running(5));
    assert_eq!(mgr.stop_job(5), Err(JobError::JobNotFound { user_id: 5 }));
}

#[test]
fn crash_recovery_fails_non_terminal_jobs() {
    let creating = UserJob {
        status: JobStatus::InProgress("creating embeddings".to_string()),
        total_repos: 8,
        processed_repos: 3,
        failed_repos: 1,
        ..pending_job(1, 40)
    };
    let done = UserJob {
        status: JobStatus::Completed,
        completed_at: Some(2_000),
        ..pending_job(2, 41)
    };
    let fresh = pending_job(3, 42);
    let recovered = recover_orphans(vec![creating, done.clone(), fresh], 9_000);
    assert_eq!(recovered[0].status, JobStatus::Failed);
    assert_eq!(recovered[0].completed_at, Some(9_000));
    assert_eq!(recovered[0].processed_repos, 3);
    assert_eq!(recovered[0].failed_repos, 1);
    assert_eq!(recovered[1], done);
    assert_eq!(recovered[2].status, JobStatus::Failed);
    assert_eq!(recovered[2].completed_at, Some(9_000));
}

#[test]
fn orphan_ids_are_the_non_terminal_ones() {
    let jobs = vec![
        UserJob {
            status: JobStatus::InProgress("fetching".to_string()),
            ..pending_job(1, 9)
        },
        UserJob {
            status: JobStatus::Completed,
            completed_at: Some(5),
            ..pending_job(2, 9)
        },
        pending_job(3, 9),
        UserJob {
            status: JobStatus::Failed,
            completed_at: Some(6),
            ..pending_job(4, 9)
        },
    ];
    assert_eq!(orphaned_job_ids(&jobs), vec![1, 3]);
}

#[test]
fn job_record_lifecycle_updates_fields() {
    let job = pending_job(10, 70);
    assert!(job.is_pending());
    assert!(!job.is_processing());
    assert!(!job.is_completed());
    let job = job.with_status("Fetching stars...".to_string(), 1_100);
    assert!(job.is_processing());
    let job = job.with_progress(10, 6, 2, 1_200);
    assert_eq!(job.total_repos, 10);
    assert_eq!(job.processed_repos, 6);
    assert_eq!(job.failed_repos, 2);
    let job = job.into_completed(1_300);
    assert!(job.is_completed());
    assert_eq!(job.completed_at, Some(1_300));
}

#[test]
fn failed_job_keeps_counters() {
    let job = pending_job(11, 71).with_progress(4, 1, 1, 1_050);
    let job = job.into_failed(1_060);
    assert_eq!(job.status, JobStatus::Failed);
    assert_eq!(job.total_repos, 4);
    assert_eq!(job.processed_repos, 1);
    assert_eq!(job.failed_repos, 1);
    assert_eq!(job.completed_at, Some(1_060));
}

#[test]
fn percentages_round_down_and_handle_zero_total() {
    let job = pending_job(12, 72);
    assert_eq!(job.success_rate(), 0);
    assert_eq!(job.completion_percentage(), 0);
    let job = job.with_progress(3, 2, 1, 1_070);
    assert_eq!(job.success_rate(), 66);
    assert_eq!(job.completion_percentage(), 66);
    let job = job.with_progress(4, 4, 0, 1_080);
    assert_eq!(job.success_rate(), 100);
    assert_eq!(job.completion_percentage(), 100);
}
