//! The persistence model: in-memory repositories for jobs, idempotency
//! mappings, and uploads. Every controller decision re-reads this state.

pub mod jobs;
pub mod uploads;

pub use jobs::{IdempotencyKey, JobRepository, ResourceUsage, StoreError};
pub use uploads::{FinalizeError, UploadRepository};
