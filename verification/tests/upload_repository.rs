use flashpods::db::uploads::{FinalizeError, UploadRepository};
use flashpods::models::upload::UploadState;

#[test]
fn test_create_upload() {
    let mut repo = UploadRepository::new();

    let upload = repo.create("upload_test1", "user1").unwrap();
    assert_eq!(upload.id, "upload_test1");
    assert_eq!(upload.state, UploadState::Uploading);
    assert!(upload.expires_at.is_some());
}

#[test]
fn test_create_upload_sets_uploading_ttl() {
    let mut repo = UploadRepository::new();
    let upload = repo.create("upload_ttl", "user1").unwrap();
    assert_eq!(upload.expires_at, Some(upload.created_at + 30 * 60));
}

#[test]
fn test_finalize_upload() {
    let mut repo = UploadRepository::new();

    repo.create("upload_test2", "user1").unwrap();
    let upload = repo.finalize("upload_test2", 1024, 5).unwrap();

    assert_eq!(upload.state, UploadState::Finalized);
    assert_eq!(upload.size_bytes, Some(1024));
    assert_eq!(upload.file_count, Some(5));
    assert!(upload.finalized_at.is_some());
}

#[test]
fn test_finalize_extends_expiry() {
    let mut repo = UploadRepository::new();
    repo.create_at("upload_ttl2", "user1", 1_000).unwrap();
    let upload = repo.finalize_at("upload_ttl2", 10, 1, 2_000).unwrap();
    assert_eq!(upload.finalized_at, Some(2_000));
    assert_eq!(upload.expires_at, Some(2_000 + 60 * 60));
}

#[test]
fn test_finalize_already_finalized() {
    let mut repo = UploadRepository::new();

    repo.create("upload_test3", "user1").unwrap();
    repo.finalize("upload_test3", 1024, 5).unwrap();

    let result = repo.finalize("upload_test3", 2048, 10);
    assert!(matches!(result, Err(FinalizeError::AlreadyFinalized)));
}

#[test]
fn test_finalize_not_found() {
    let mut repo = UploadRepository::new();

    let result = repo.finalize("nonexistent", 1024, 5);
    assert!(matches!(result, Err(FinalizeError::NotFound)));
}

#[test]
fn test_finalize_consumed_and_expired() {
    let mut repo = UploadRepository::new();
    repo.create("upload_c", "user1").unwrap();
    repo.finalize("upload_c", 1, 1).unwrap();
    repo.consume("upload_c", String::from("job_x"));
    assert!(matches!(
        repo.finalize("upload_c", 1, 1),
        Err(FinalizeError::AlreadyConsumed)
    ));

    repo.create("upload_e", "user1").unwrap();
    repo.mark_expired("upload_e");
    assert!(matches!(
        repo.finalize("upload_e", 1, 1),
        Err(FinalizeError::Expired)
    ));
}

#[test]
fn test_consume_upload() {
    let mut repo = UploadRepository::new();

    repo.create("upload_test4", "user1").unwrap();
    repo.finalize("upload_test4", 1024, 5).unwrap();
    repo.consume("upload_test4", String::from("job_123"));

    let upload = repo.get("upload_test4").unwrap();
    assert_eq!(upload.state, UploadState::Consumed);
    assert_eq!(upload.job_id, Some("job_123".to_string()));
}

#[test]
fn test_delete_upload() {
    let mut repo = UploadRepository::new();

    repo.create("upload_test5", "user1").unwrap();
    let deleted = repo.delete("upload_test5");
    assert!(deleted);

    let upload = repo.get("upload_test5").unwrap();
    assert_eq!(upload.state, UploadState::Expired);
}

#[test]
fn test_delete_reports_missing_or_final() {
    let mut repo = UploadRepository::new();
    assert!(!repo.delete("never_seen"));

    repo.create("upload_gone", "user1").unwrap();
    repo.finalize("upload_gone", 1, 1).unwrap();
    repo.consume("upload_gone", String::from("job_y"));
    // Already consumed: nothing to delete.
    assert!(!repo.delete("upload_gone"));
}

#[test]
fn test_get_total_disk_usage() {
    let mut repo = UploadRepository::new();

    repo.create("upload_test6", "user1").unwrap();
    repo.create("upload_test7", "user1").unwrap();

    repo.finalize("upload_test6", 1000, 1).unwrap();
    repo.finalize("upload_test7", 2000, 2).unwrap();

    let usage = repo.get_total_disk_usage();
    assert_eq!(usage, 3000);
}

#[test]
fn test_disk_usage_counts_only_staged_uploads() {
    let mut repo = UploadRepository::new();
    repo.create("u_staged", "user1").unwrap();
    repo.finalize("u_staged", 100, 1).unwrap();
    repo.create("u_consumed", "user1").unwrap();
    repo.finalize("u_consumed", 200, 1).unwrap();
    repo.consume("u_consumed", String::from("job_z"));
    repo.create("u_expired", "user1").unwrap();
    repo.finalize("u_expired", 400, 1).unwrap();
    repo.mark_expired("u_expired");

    // Only the upload still staged (uploading or finalized) counts.
    assert_eq!(repo.get_total_disk_usage(), 100);
}

#[test]
fn test_get_expired_uploads() {
    let mut repo = UploadRepository::new();
    repo.create_at("u_old", "user1", 0).unwrap(); // expires at 1800
    repo.create_at("u_new", "user1", 10_000).unwrap(); // expires at 11800
    repo.create_at("u_done", "user1", 0).unwrap();
    repo.finalize_at("u_done", 5, 1, 0).unwrap(); // expires at 3600

    let expired = repo.get_expired_at(2_000);
    let ids: Vec<&str> = expired.iter().map(|u| u.id.as_str()).collect();
    assert_eq!(ids, vec!["u_old"]);

    let expired_later = repo.get_expired_at(20_000);
    let ids: Vec<&str> = expired_later.iter().map(|u| u.id.as_str()).collect();
    assert_eq!(ids, vec!["u_old", "u_new", "u_done"]);
}

#[test]
fn test_upload_repository() {
    let mut repo = UploadRepository::new();

    // Test create
    let upload = repo.create("test_upload", "user1").unwrap();
    assert_eq!(upload.id, "test_upload");
    assert_eq!(upload.state, UploadState::Uploading);

    // Test finalize
    let upload = repo.finalize("test_upload", 1024, 5).unwrap();
    assert_eq!(upload.state, UploadState::Finalized);
    assert_eq!(upload.size_bytes, Some(1024));

    // Test get
    let upload = repo.get("test_upload").unwrap();
    assert_eq!(upload.state, UploadState::Finalized);

    // Test delete
    let deleted = repo.delete("test_upload");
    assert!(deleted);

    let upload = repo.get("test_upload").unwrap();
    assert_eq!(upload.state, UploadState::Expired);
}
