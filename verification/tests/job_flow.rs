use flashpods::db::jobs::JobRepository;
use flashpods::db::uploads::UploadRepository;
use flashpods::jobs::{
    check_admission, container_config_for_job, create_job_finish, create_job_start,
    kill_job_apply, kill_job_check, CreateJobError, CreateStart, KillError,
};
use flashpods::models::job::{Job, JobStatus, JobType};
use flashpods::db::jobs::ResourceUsage;

const NOW: i64 = 1_700_000_000;

fn request(job_type: &str) -> flashpods::models::job::CreateJobRequest {
    flashpods::models::job::CreateJobRequest {
        client_job_id: None,
        job_type: String::from(job_type),
        command: None,
        task: None,
        context: None,
        git_branch: None,
        files_id: None,
        image: String::from("ubuntu:22.04"),
        cpus: 2,
        memory_gb: 4,
        timeout_minutes: 30,
    }
}

fn worker_request(command: &str) -> flashpods::models::job::CreateJobRequest {
    let mut req = request("worker");
    req.command = Some(String::from(command));
    req
}

fn raw_job(id: &str, status: JobStatus, cpus: i32, memory_gb: i32) -> Job {
    Job {
        id: String::from(id),
        user_id: String::from("default"),
        job_type: JobType::Worker,
        status,
        command: Some(String::from("true")),
        task: None,
        context: None,
        git_branch: None,
        files_id: None,
        image: String::from("ubuntu:22.04"),
        cpus,
        memory_gb,
        timeout_minutes: 30,
        container_id: None,
        exit_code: None,
        error: None,
        created_at: NOW,
        started_at: None,
        completed_at: None,
    }
}

#[test]
fn test_validation_worker_requires_command() {
    let mut jobs = JobRepository::new();
    let uploads = UploadRepository::new();
    let req = request("worker");
    let r = create_job_start(&mut jobs, &uploads, &req, NOW);
    assert!(matches!(r, Err(CreateJobError::MissingCommand)));
    assert!(jobs.jobs.is_empty());
}

#[test]
fn test_validation_agent_requires_task() {
    let mut jobs = JobRepository::new();
    let uploads = UploadRepository::new();
    let req = request("agent");
    let r = create_job_start(&mut jobs, &uploads, &req, NOW);
    assert!(matches!(r, Err(CreateJobError::MissingTask)));
    assert!(jobs.jobs.is_empty());
}

#[test]
fn test_validation_unknown_type() {
    let mut jobs = JobRepository::new();
    let uploads = UploadRepository::new();
    let req = request("batch");
    let r = create_job_start(&mut jobs, &uploads, &req, NOW);
    assert!(matches!(r, Err(CreateJobError::InvalidJobType)));
}

#[test]
fn test_validation_passes_with_required_field() {
    let mut jobs = JobRepository::new();
    let uploads = UploadRepository::new();

    let r = create_job_start(&mut jobs, &uploads, &worker_request("echo hi"), NOW);
    assert!(matches!(r, Ok(CreateStart::Started(_))));

    let mut agent_req = request("agent");
    agent_req.task = Some(String::from("summarize"));
    let r = create_job_start(&mut jobs, &uploads, &agent_req, NOW);
    assert!(matches!(r, Ok(CreateStart::Started(_))));
}

#[test]
fn test_idempotent_creation_returns_same_job() {
    let mut jobs = JobRepository::new();
    let uploads = UploadRepository::new();
    let mut req = worker_request("echo hi");
    req.client_job_id = Some(String::from("client-1"));

    let first = create_job_start(&mut jobs, &uploads, &req, NOW).unwrap();
    let first_id = match first {
        CreateStart::Started(j) => j.id,
        CreateStart::Existing(_) => panic!("first call must create"),
    };
    assert_eq!(jobs.jobs.len(), 1);

    let second = create_job_start(&mut jobs, &uploads, &req, NOW + 5).unwrap();
    match second {
        CreateStart::Existing(resp) => {
            assert_eq!(resp.job_id, first_id);
            assert!(!resp.created);
        },
        CreateStart::Started(_) => panic!("second call must not create"),
    }
    // Only one row exists in storage.
    assert_eq!(jobs.jobs.len(), 1);
}

#[test]
fn test_admission_control_boundary() {
    // Given 14 CPUs in use out of 16: 3 more is rejected, 2 more fits.
    let usage = ResourceUsage { used_cpus: 14, used_memory_gb: 10, running_jobs: 3 };
    assert!(!check_admission(&usage, 3, 4));
    assert!(check_admission(&usage, 2, 4));
}

#[test]
fn test_admission_rejects_through_create() {
    let mut jobs = JobRepository::new();
    let uploads = UploadRepository::new();
    // Two running jobs totalling 14 CPUs.
    jobs.create(&raw_job("job_busy1", JobStatus::Running, 8, 8), None).unwrap();
    jobs.create(&raw_job("job_busy2", JobStatus::Running, 6, 6), None).unwrap();

    let mut req = worker_request("echo hi");
    req.cpus = 3;
    let r = create_job_start(&mut jobs, &uploads, &req, NOW);
    assert!(matches!(r, Err(CreateJobError::ResourceExhausted)));
    assert_eq!(jobs.jobs.len(), 2);

    req.cpus = 2;
    let r = create_job_start(&mut jobs, &uploads, &req, NOW);
    assert!(matches!(r, Ok(CreateStart::Started(_))));
    assert_eq!(jobs.jobs.len(), 3);
}

#[test]
fn test_admission_rejects_on_memory() {
    let mut jobs = JobRepository::new();
    let uploads = UploadRepository::new();
    jobs.create(&raw_job("job_fat", JobStatus::Running, 2, 30), None).unwrap();

    let mut req = worker_request("echo hi");
    req.memory_gb = 4;
    let r = create_job_start(&mut jobs, &uploads, &req, NOW);
    assert!(matches!(r, Err(CreateJobError::ResourceExhausted)));
}

#[test]
fn test_create_worker_scenario_runs() {
    // A worker job with `command="echo hi"` and no files: within one
    // request it goes Pending -> Starting -> Running, and the response
    // reports created == true, status == Running.
    let mut jobs = JobRepository::new();
    let uploads = UploadRepository::new();

    let started = match create_job_start(&mut jobs, &uploads, &worker_request("echo hi"), NOW) {
        Ok(CreateStart::Started(j)) => j,
        _ => panic!("creation must start a job"),
    };
    assert_eq!(started.status, JobStatus::Starting);
    assert_eq!(started.command.as_deref(), Some("echo hi"));
    assert_eq!(started.cpus, 2);

    let resp = create_job_finish(&mut jobs, &started.id, Ok(String::from("container-abc")), NOW)
        .unwrap();
    assert!(resp.created);
    assert_eq!(resp.status, JobStatus::Running);
    assert_eq!(resp.job_id, started.id);

    let job = jobs.get(&started.id).unwrap();
    assert_eq!(job.status, JobStatus::Running);
    assert_eq!(job.container_id.as_deref(), Some("container-abc"));
    assert_eq!(job.started_at, Some(NOW));
}

#[test]
fn test_create_agent_with_uploading_files_rejected() {
    // An agent job referencing an upload still in Uploading state is
    // refused as not finalized, and no job row is created.
    let mut jobs = JobRepository::new();
    let mut uploads = UploadRepository::new();
    uploads.create("upload_raw", "user1").unwrap();

    let mut req = request("agent");
    req.task = Some(String::from("summarize"));
    req.files_id = Some(String::from("upload_raw"));

    let r = create_job_start(&mut jobs, &uploads, &req, NOW);
    assert!(matches!(r, Err(CreateJobError::UploadNotReady)));
    assert!(jobs.jobs.is_empty());
}

#[test]
fn test_create_with_unknown_files_rejected() {
    let mut jobs = JobRepository::new();
    let uploads = UploadRepository::new();
    let mut req = worker_request("echo hi");
    req.files_id = Some(String::from("upload_missing"));
    let r = create_job_start(&mut jobs, &uploads, &req, NOW);
    assert!(matches!(r, Err(CreateJobError::UploadNotFound)));
}

#[test]
fn test_create_with_finalized_files_admitted() {
    let mut jobs = JobRepository::new();
    let mut uploads = UploadRepository::new();
    uploads.create("upload_ok", "user1").unwrap();
    uploads.finalize("upload_ok", 512, 2).unwrap();

    let mut req = worker_request("echo hi");
    req.files_id = Some(String::from("upload_ok"));
    let r = create_job_start(&mut jobs, &uploads, &req, NOW);
    assert!(matches!(r, Ok(CreateStart::Started(_))));
}

#[test]
fn test_create_clamps_reservation() {
    let mut jobs = JobRepository::new();
    let uploads = UploadRepository::new();
    let mut req = worker_request("echo hi");
    req.cpus = 100;
    req.memory_gb = 100;
    req.timeout_minutes = 200;
    let started = match create_job_start(&mut jobs, &uploads, &req, NOW) {
        Ok(CreateStart::Started(j)) => j,
        _ => panic!("creation must start a job"),
    };
    assert_eq!(started.cpus, 8);
    assert_eq!(started.memory_gb, 16);
    assert_eq!(started.timeout_minutes, 120);
}

#[test]
fn test_stale_mapping_is_a_conflict() {
    // A client id whose mapping points at a Cleaned job is not returned
    // idempotently; re-creating under the same client id is a store
    // conflict, surfaced as a database error, and changes nothing.
    let mut jobs = JobRepository::new();
    let uploads = UploadRepository::new();
    let mut req = worker_request("echo hi");
    req.client_job_id = Some(String::from("client-stale"));

    let started = match create_job_start(&mut jobs, &uploads, &req, NOW) {
        Ok(CreateStart::Started(j)) => j,
        _ => panic!("creation must start a job"),
    };
    jobs.update_status_at(&started.id, JobStatus::Cleaned, NOW);

    let r = create_job_start(&mut jobs, &uploads, &req, NOW + 10);
    assert!(matches!(r, Err(CreateJobError::DatabaseError)));
    assert_eq!(jobs.jobs.len(), 1);
}

#[test]
fn test_create_with_chosen_id() {
    let mut jobs = JobRepository::new();
    let uploads = UploadRepository::new();

    // A free id must be accepted once every gate passes.
    let r = flashpods::jobs::create_job_start_with_id(
        &mut jobs,
        &uploads,
        &worker_request("echo hi"),
        String::from("job_chosen000000"),
        NOW,
    );
    match r {
        Ok(CreateStart::Started(j)) => assert_eq!(j.id, "job_chosen000000"),
        _ => panic!("a free id must be accepted"),
    }

    // The same id again is a duplicate key.
    let r = flashpods::jobs::create_job_start_with_id(
        &mut jobs,
        &uploads,
        &worker_request("echo hi"),
        String::from("job_chosen000000"),
        NOW,
    );
    assert!(matches!(r, Err(CreateJobError::DatabaseError)));
    assert_eq!(jobs.jobs.len(), 1);
}

#[test]
fn test_container_failure_marks_job_failed() {
    let mut jobs = JobRepository::new();
    let uploads = UploadRepository::new();
    let started = match create_job_start(&mut jobs, &uploads, &worker_request("echo hi"), NOW) {
        Ok(CreateStart::Started(j)) => j,
        _ => panic!("creation must start a job"),
    };

    let r = create_job_finish(
        &mut jobs,
        &started.id,
        Err(String::from("image not found")),
        NOW,
    );
    assert!(matches!(r, Err(CreateJobError::ContainerStartFailed)));

    // The job row is retained for auditability, marked failed.
    let job = jobs.get(&started.id).unwrap();
    assert_eq!(job.status, JobStatus::Failed);
    assert_eq!(job.error.as_deref(), Some("image not found"));
    assert!(job.completed_at.is_some());
}

#[test]
fn test_kill_unknown_job() {
    let jobs = JobRepository::new();
    let r = kill_job_check(&jobs, "job_missing0");
    assert!(matches!(r, Err(KillError::JobNotFound)));
}

#[test]
fn test_kill_terminal_job_rejected() {
    // After a job reaches Completed, a kill is refused as already terminal
    // and the stored exit code is untouched.
    let mut jobs = JobRepository::new();
    let mut done = raw_job("job_done0000", JobStatus::Pending, 2, 4);
    done.command = Some(String::from("true"));
    jobs.create(&done, None).unwrap();
    jobs.update_status_at("job_done0000", JobStatus::Completed, NOW);
    jobs.set_exit_code("job_done0000", 0);

    let r = kill_job_check(&jobs, "job_done0000");
    assert!(matches!(r, Err(KillError::JobAlreadyTerminal)));

    let job = jobs.get("job_done0000").unwrap();
    assert_eq!(job.exit_code, Some(0));
    assert_eq!(job.status, JobStatus::Completed);
}

#[test]
fn test_kill_running_job() {
    let mut jobs = JobRepository::new();
    let uploads = UploadRepository::new();
    let started = match create_job_start(&mut jobs, &uploads, &worker_request("sleep 60"), NOW) {
        Ok(CreateStart::Started(j)) => j,
        _ => panic!("creation must start a job"),
    };
    create_job_finish(&mut jobs, &started.id, Ok(String::from("c-1")), NOW).unwrap();

    let checked = kill_job_check(&jobs, &started.id).unwrap();
    assert_eq!(checked.container_id.as_deref(), Some("c-1"));

    kill_job_apply(&mut jobs, &started.id, NOW + 30);
    let job = jobs.get(&started.id).unwrap();
    assert_eq!(job.status, JobStatus::Cancelled);
    assert_eq!(job.exit_code, Some(137));
    assert_eq!(job.completed_at, Some(NOW + 30));
}

#[test]
fn test_get_job_derived_times() {
    let mut jobs = JobRepository::new();
    jobs.create(&raw_job("job_timed000", JobStatus::Pending, 2, 4), None).unwrap();
    jobs.update_status_at("job_timed000", JobStatus::Running, 100);

    // While running: elapsed only.
    let r = flashpods::jobs::get_job(&jobs, "job_timed000", 300).unwrap();
    assert_eq!(r.elapsed_seconds, Some(200));
    assert_eq!(r.duration_seconds, None);

    // Once finished: duration from start to completion.
    jobs.update_status_at("job_timed000", JobStatus::Completed, 250);
    let r = flashpods::jobs::get_job(&jobs, "job_timed000", 300).unwrap();
    assert_eq!(r.duration_seconds, Some(150));
    assert_eq!(r.elapsed_seconds, Some(200));

    assert!(flashpods::jobs::get_job(&jobs, "job_other000", 300).is_none());
}

#[test]
fn test_list_jobs_flow_defaults_and_caps() {
    let mut jobs = JobRepository::new();
    for i in 0..25 {
        let mut j = raw_job(&format!("job_{:08}", i), JobStatus::Pending, 1, 1);
        j.created_at = i;
        jobs.create(&j, None).unwrap();
    }
    // Default limit is 20.
    let r = flashpods::jobs::list_jobs(&jobs, None, None, NOW);
    assert_eq!(r.len(), 20);
    // Newest first.
    assert_eq!(r[0].created_at, 24);
    // The cap is 100 even if more is asked for.
    let r = flashpods::jobs::list_jobs(&jobs, None, Some(1000), NOW);
    assert_eq!(r.len(), 25);
    let r = flashpods::jobs::list_jobs(&jobs, None, Some(3), NOW);
    assert_eq!(r.len(), 3);
    assert_eq!(r[0].created_at, 24);
    assert_eq!(r[2].created_at, 22);
    // A negative limit yields nothing.
    let r = flashpods::jobs::list_jobs(&jobs, None, Some(-1), NOW);
    assert!(r.is_empty());
}

#[test]
fn test_container_config_from_job() {
    let mut job = raw_job("job_cfg00000", JobStatus::Starting, 4, 8);
    job.files_id = Some(String::from("upload_77"));
    let config = container_config_for_job(&job);
    assert_eq!(config.job_id, "job_cfg00000");
    assert_eq!(config.upload_id, "upload_77");
    assert_eq!(config.cpus, 4);
    assert_eq!(config.memory_gb, 8);
    assert_eq!(config.command.as_deref(), Some("true"));

    job.files_id = None;
    let config = container_config_for_job(&job);
    assert_eq!(config.upload_id, "");
}
