use flashpods::models::job::{
    default_cpus, default_image, default_memory, default_timeout, JobStatus, JobType,
    ResourceLimits,
};
use flashpods::models::upload::{UploadConfig, UploadState};

#[test]
fn test_resource_limits_clamp() {
    let limits = ResourceLimits::for_job_type(JobType::Worker);
    let (cpus, mem, timeout) = limits.clamp(100, 100, 200);
    assert_eq!(cpus, 8); // max for worker
    assert_eq!(mem, 16); // max for worker
    assert_eq!(timeout, 120); // max timeout

    let (cpus, mem, timeout) = limits.clamp(0, 0, 0);
    assert_eq!(cpus, 1); // min
    assert_eq!(mem, 1); // min
    assert_eq!(timeout, 1); // min

    // Values within range should be unchanged
    let (cpus, mem, timeout) = limits.clamp(4, 8, 60);
    assert_eq!(cpus, 4);
    assert_eq!(mem, 8);
    assert_eq!(timeout, 60);
}

#[test]
fn test_resource_limits_agent() {
    let limits = ResourceLimits::for_job_type(JobType::Agent);
    let (cpus, mem, _) = limits.clamp(100, 100, 100);
    assert_eq!(cpus, 4); // max for agent
    assert_eq!(mem, 8); // max for agent
}

#[test]
fn test_job_type_parse() {
    assert_eq!(JobType::from_str("worker"), Some(JobType::Worker));
    assert_eq!(JobType::from_str("agent"), Some(JobType::Agent));
    assert_eq!(JobType::from_str("WORKER"), Some(JobType::Worker));
    assert_eq!(JobType::from_str("Agent"), Some(JobType::Agent));
    assert_eq!(JobType::from_str("batch"), None);
    assert_eq!(JobType::from_str(""), None);
}

#[test]
fn test_job_type_as_str() {
    assert_eq!(JobType::Worker.as_str(), "worker");
    assert_eq!(JobType::Agent.as_str(), "agent");
}

#[test]
fn test_job_status_names() {
    assert_eq!(JobStatus::Pending.as_str(), "pending");
    assert_eq!(JobStatus::Starting.as_str(), "starting");
    assert_eq!(JobStatus::Running.as_str(), "running");
    assert_eq!(JobStatus::Completed.as_str(), "completed");
    assert_eq!(JobStatus::Failed.as_str(), "failed");
    assert_eq!(JobStatus::TimedOut.as_str(), "timed_out");
    assert_eq!(JobStatus::Cancelled.as_str(), "cancelled");
    assert_eq!(JobStatus::Cleaning.as_str(), "cleaning");
    assert_eq!(JobStatus::Cleaned.as_str(), "cleaned");
}

#[test]
fn test_job_status_terminal() {
    assert!(JobStatus::Completed.is_terminal());
    assert!(JobStatus::Failed.is_terminal());
    assert!(JobStatus::TimedOut.is_terminal());
    assert!(JobStatus::Cancelled.is_terminal());
    assert!(!JobStatus::Pending.is_terminal());
    assert!(!JobStatus::Starting.is_terminal());
    assert!(!JobStatus::Running.is_terminal());
    assert!(!JobStatus::Cleaning.is_terminal());
    assert!(!JobStatus::Cleaned.is_terminal());
}

#[test]
fn test_upload_state_names() {
    assert_eq!(UploadState::Uploading.as_str(), "uploading");
    assert_eq!(UploadState::Finalized.as_str(), "finalized");
    assert_eq!(UploadState::Consumed.as_str(), "consumed");
    assert_eq!(UploadState::Expired.as_str(), "expired");
}

#[test]
fn test_request_defaults() {
    assert_eq!(default_image(), "ubuntu:22.04");
    assert_eq!(default_cpus(), 2);
    assert_eq!(default_memory(), 4);
    assert_eq!(default_timeout(), 30);
}

#[test]
fn test_upload_config_default() {
    let config = UploadConfig::default();
    assert_eq!(config.upload_dir, "/tmp/flashpods/uploads");
    assert_eq!(config.max_upload_size_bytes, 2 * 1024 * 1024 * 1024);
    assert_eq!(config.max_total_disk_bytes, 10 * 1024 * 1024 * 1024);
    assert_eq!(config.ttl_uploading_minutes, 30);
    assert_eq!(config.ttl_finalized_minutes, 60);
}
