//! The data model: jobs and uploads, their requests, responses, and limits.

pub mod job;
pub mod upload;

pub use job::{
    CreateJobRequest, CreateJobResponse, Job, JobResponse, JobStatus, JobType, ResourceLimits,
};
pub use upload::{Upload, UploadConfig, UploadResponse, UploadState};
