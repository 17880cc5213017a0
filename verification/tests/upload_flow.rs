use flashpods::db::uploads::UploadRepository;
use flashpods::models::upload::{UploadConfig, UploadState};
use flashpods::uploads::{finalize_upload_flow, get_upload, UploadFlowError};

const NOW: i64 = 1_700_000_000;

fn small_config() -> UploadConfig {
    UploadConfig {
        upload_dir: String::from("/tmp/flashpods/uploads"),
        max_upload_size_bytes: 1000,
        max_total_disk_bytes: 2500,
        ttl_uploading_minutes: 30,
        ttl_finalized_minutes: 60,
    }
}

#[test]
fn test_flow_finalizes_known_upload() {
    let mut repo = UploadRepository::new();
    repo.create_at("u1", "user1", NOW).unwrap();

    let resp = finalize_upload_flow(&mut repo, "u1", 1024, 5, &UploadConfig::default(), NOW)
        .unwrap();
    assert_eq!(resp.state, UploadState::Finalized);
    assert_eq!(resp.size_bytes, Some(1024));
    assert_eq!(resp.file_count, Some(5));
}

#[test]
fn test_flow_registers_unseen_upload() {
    let mut repo = UploadRepository::new();
    let resp = finalize_upload_flow(&mut repo, "u_new", 10, 1, &UploadConfig::default(), NOW)
        .unwrap();
    assert_eq!(resp.upload_id, "u_new");
    assert_eq!(resp.state, UploadState::Finalized);
    assert_eq!(repo.uploads.len(), 1);
}

#[test]
fn test_flow_rejects_oversized_upload() {
    let mut repo = UploadRepository::new();
    let r = finalize_upload_flow(&mut repo, "u_big", 1001, 1, &small_config(), NOW);
    assert!(matches!(r, Err(UploadFlowError::TooLarge)));
    assert!(repo.uploads.is_empty());
}

#[test]
fn test_flow_rejects_when_quota_full() {
    let mut repo = UploadRepository::new();
    let config = small_config();
    finalize_upload_flow(&mut repo, "u_a", 1000, 1, &config, NOW).unwrap();
    finalize_upload_flow(&mut repo, "u_b", 1000, 1, &config, NOW).unwrap();
    // 2000 of 2500 used: 600 more would exceed the quota.
    let r = finalize_upload_flow(&mut repo, "u_c", 600, 1, &config, NOW);
    assert!(matches!(r, Err(UploadFlowError::QuotaExceeded)));
    // 500 more exactly fills it.
    let r = finalize_upload_flow(&mut repo, "u_c", 500, 1, &config, NOW);
    assert!(r.is_ok());
}

#[test]
fn test_finalize_one_shot_through_flow() {
    // After finalize(id, 1024, 5) succeeds, a second finalize fails as
    // already finalized and the stored size, file count and finalize time
    // are unchanged.
    let mut repo = UploadRepository::new();
    repo.create_at("u_once", "user1", NOW).unwrap();
    finalize_upload_flow(&mut repo, "u_once", 1024, 5, &UploadConfig::default(), NOW).unwrap();

    let r = finalize_upload_flow(&mut repo, "u_once", 2048, 10, &UploadConfig::default(), NOW + 60);
    assert!(matches!(r, Err(UploadFlowError::AlreadyFinalized)));

    let u = repo.get("u_once").unwrap();
    assert_eq!(u.size_bytes, Some(1024));
    assert_eq!(u.file_count, Some(5));
    assert_eq!(u.finalized_at, Some(NOW));
}

#[test]
fn test_flow_refuses_consumed_and_expired() {
    let mut repo = UploadRepository::new();
    let config = UploadConfig::default();
    finalize_upload_flow(&mut repo, "u_used", 10, 1, &config, NOW).unwrap();
    repo.consume("u_used", String::from("job_1"));
    let r = finalize_upload_flow(&mut repo, "u_used", 10, 1, &config, NOW);
    assert!(matches!(r, Err(UploadFlowError::AlreadyConsumed)));

    repo.create_at("u_late", "user1", NOW).unwrap();
    repo.mark_expired("u_late");
    let r = finalize_upload_flow(&mut repo, "u_late", 10, 1, &config, NOW);
    assert!(matches!(r, Err(UploadFlowError::Expired)));
}

#[test]
fn test_get_upload_projection() {
    let mut repo = UploadRepository::new();
    repo.create_at("u_read", "user1", NOW).unwrap();
    let resp = get_upload(&repo, "u_read").unwrap();
    assert_eq!(resp.upload_id, "u_read");
    assert_eq!(resp.state, UploadState::Uploading);
    assert_eq!(resp.created_at, NOW);
    assert!(get_upload(&repo, "u_other").is_none());
}
