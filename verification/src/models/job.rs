//! Job records, job-creation requests and responses, and resource limits.

use vstd::prelude::*;
use vstd::string::*;
use crate::text::lower_spec;
use crate::valid_time;

verus! {

/// The two kinds of job the control plane runs.
#[derive(Clone, Copy, Debug, PartialEq, Eq, Structural)]
pub enum JobType {
    Worker,
    Agent,
}

impl JobType {
    /// The storage/wire name of this job type.
    pub open spec fn type_str(self) -> Seq<char> {
        match self {
            JobType::Worker => "worker"@,
            JobType::Agent => "agent"@,
        }
    }

    pub fn as_str(&self) -> (r: &'static str)
        ensures
            r@ == self.type_str(),
    {
        match self {
            JobType::Worker => "worker",
            JobType::Agent => "agent",
        }
    }

    /// Which job type a request string names, ignoring ASCII case.
    pub open spec fn parse_spec(s: Seq<char>) -> Option<JobType> {
        if lower_spec(s) == "worker"@ {
            Some(JobType::Worker)
        } else if lower_spec(s) == "agent"@ {
            Some(JobType::Agent)
        } else {
            None
        }
    }

    pub fn from_str(s: &str) -> (r: Option<JobType>)
        ensures
            r == JobType::parse_spec(s@),
    {
        if crate::text::str_eq_lower(s, "worker") {
            Some(JobType::Worker)
        } else if crate::text::str_eq_lower(s, "agent") {
            Some(JobType::Agent)
        } else {
            None
        }
    }
}

/// A job's lifecycle status.
#[derive(Clone, Copy, Debug, PartialEq, Eq, Structural)]
pub enum JobStatus {
    Pending,
    Starting,
    Running,
    Completed,
    Failed,
    TimedOut,
    Cancelled,
    Cleaning,
    Cleaned,
}

impl JobStatus {
    /// A terminal status admits no further lifecycle progress other than
    /// out-of-band cleanup; a job in one of these cannot be killed again.
    pub open spec fn spec_is_terminal(&self) -> bool {
        self is Completed || self is Failed || self is TimedOut || self is Cancelled
    }

    pub fn is_terminal(&self) -> (r: bool)
        ensures
            r == self.spec_is_terminal(),
    {
        match self {
            JobStatus::Completed | JobStatus::Failed | JobStatus::TimedOut
            | JobStatus::Cancelled => true,
            _ => false,
        }
    }

    /// The storage/wire name of this status.
    pub open spec fn status_str(self) -> Seq<char> {
        match self {
            JobStatus::Pending => "pending"@,
            JobStatus::Starting => "starting"@,
            JobStatus::Running => "running"@,
            JobStatus::Completed => "completed"@,
            JobStatus::Failed => "failed"@,
            JobStatus::TimedOut => "timed_out"@,
            JobStatus::Cancelled => "cancelled"@,
            JobStatus::Cleaning => "cleaning"@,
            JobStatus::Cleaned => "cleaned"@,
        }
    }

    pub fn as_str(&self) -> (r: &'static str)
        ensures
            r@ == self.status_str(),
    {
        match self {
            JobStatus::Pending => "pending",
            JobStatus::Starting => "starting",
            JobStatus::Running => "running",
            JobStatus::Completed => "completed",
            JobStatus::Failed => "failed",
            JobStatus::TimedOut => "timed_out",
            JobStatus::Cancelled => "cancelled",
            JobStatus::Cleaning => "cleaning",
            JobStatus::Cleaned => "cleaned",
        }
    }
}

/// A job record. Times are seconds since the Unix epoch.
#[derive(Debug)]
pub struct Job {
    pub id: String,
    pub user_id: String,
    pub job_type: JobType,
    pub status: JobStatus,
    // Worker payload
    pub command: Option<String>,
    // Agent payload
    pub task: Option<String>,
    pub context: Option<String>,
    pub git_branch: Option<String>,
    // Common fields
    pub files_id: Option<String>,
    pub image: String,
    pub cpus: i32,
    pub memory_gb: i32,
    pub timeout_minutes: i32,
    // Runtime fields
    pub container_id: Option<String>,
    pub exit_code: Option<i32>,
    pub error: Option<String>,
    // Timestamps
    pub created_at: i64,
    pub started_at: Option<i64>,
    pub completed_at: Option<i64>,
}

impl Job {
    /// Model validity: timestamps lie in the supported range and resource
    /// reservations are non-negative (they are clamped to at least 1 at
    /// creation).
    pub open spec fn wf(self) -> bool {
        &&& valid_time(self.created_at)
        &&& (self.started_at matches Some(t) ==> valid_time(t))
        &&& (self.completed_at matches Some(t) ==> valid_time(t))
        &&& self.cpus >= 0
        &&& self.memory_gb >= 0
        &&& self.timeout_minutes >= 0
    }
}

pub(crate) fn clone_opt_string(o: &Option<String>) -> (r: Option<String>)
    ensures
        r == *o,
{
    match o {
        Some(s) => Some(s.clone()),
        None => None,
    }
}

pub(crate) fn clone_opt_i32(o: &Option<i32>) -> (r: Option<i32>)
    ensures
        r == *o,
{
    match o {
        Some(v) => Some(*v),
        None => None,
    }
}

fn clone_opt_i64(o: &Option<i64>) -> (r: Option<i64>)
    ensures
        r == *o,
{
    match o {
        Some(v) => Some(*v),
        None => None,
    }
}

impl Clone for Job {
    fn clone(&self) -> (r: Self)
        ensures
            r == *self,
    {
        Job {
            id: self.id.clone(),
            user_id: self.user_id.clone(),
            job_type: self.job_type,
            status: self.status,
            command: clone_opt_string(&self.command),
            task: clone_opt_string(&self.task),
            context: clone_opt_string(&self.context),
            git_branch: clone_opt_string(&self.git_branch),
            files_id: clone_opt_string(&self.files_id),
            image: self.image.clone(),
            cpus: self.cpus,
            memory_gb: self.memory_gb,
            timeout_minutes: self.timeout_minutes,
            container_id: clone_opt_string(&self.container_id),
            exit_code: clone_opt_i32(&self.exit_code),
            error: clone_opt_string(&self.error),
            created_at: self.created_at,
            started_at: clone_opt_i64(&self.started_at),
            completed_at: clone_opt_i64(&self.completed_at),
        }
    }
}

/// A request to create a new job, as carried by the HTTP body.
#[derive(Debug)]
pub struct CreateJobRequest {
    pub client_job_id: Option<String>,
    pub job_type: String,
    pub command: Option<String>,
    pub task: Option<String>,
    pub context: Option<String>,
    pub git_branch: Option<String>,
    pub files_id: Option<String>,
    pub image: String,
    pub cpus: i32,
    pub memory_gb: i32,
    pub timeout_minutes: i32,
}

pub fn default_image() -> (r: String)
    ensures
        r@ == "ubuntu:22.04"@,
{
    String::from_str("ubuntu:22.04")
}

pub fn default_cpus() -> (r: i32)
    ensures
        r == 2,
{
    2
}

pub fn default_memory() -> (r: i32)
    ensures
        r == 4,
{
    4
}

pub fn default_timeout() -> (r: i32)
    ensures
        r == 30,
{
    30
}

/// The response to a job-creation request.
#[derive(Debug)]
pub struct CreateJobResponse {
    pub job_id: String,
    pub status: JobStatus,
    pub created: bool,
    pub message: Option<String>,
}

/// The projection of a job returned by the read endpoints, with derived
/// elapsed/duration fields.
#[derive(Debug)]
pub struct JobResponse {
    pub id: String,
    pub job_type: JobType,
    pub status: JobStatus,
    pub command: Option<String>,
    pub task: Option<String>,
    pub image: String,
    pub cpus: i32,
    pub memory_gb: i32,
    pub timeout_minutes: i32,
    pub exit_code: Option<i32>,
    pub error: Option<String>,
    pub created_at: i64,
    pub started_at: Option<i64>,
    pub completed_at: Option<i64>,
    pub elapsed_seconds: Option<i64>,
    pub duration_seconds: Option<i64>,
}

impl JobResponse {
    /// The projection of `job` as seen at time `now`: `elapsed_seconds` is
    /// `now - started_at` once the job has started, and `duration_seconds`
    /// is `completed_at - started_at` once it has finished.
    pub open spec fn of_job(job: Job, now: i64) -> JobResponse {
        JobResponse {
            id: job.id,
            job_type: job.job_type,
            status: job.status,
            command: job.command,
            task: job.task,
            image: job.image,
            cpus: job.cpus,
            memory_gb: job.memory_gb,
            timeout_minutes: job.timeout_minutes,
            exit_code: job.exit_code,
            error: job.error,
            created_at: job.created_at,
            started_at: job.started_at,
            completed_at: job.completed_at,
            elapsed_seconds: match job.started_at {
                Some(s) => Some((now - s) as i64),
                None => None,
            },
            duration_seconds: match (job.started_at, job.completed_at) {
                (Some(s), Some(c)) => Some((c - s) as i64),
                _ => None,
            },
        }
    }

    pub fn from_job(job: &Job, now: i64) -> (r: JobResponse)
        requires
            job.wf(),
            valid_time(now),
        ensures
            r == JobResponse::of_job(*job, now),
    {
        let elapsed_seconds: Option<i64> = match &job.started_at {
            Some(s) => Some(now - *s),
            None => None,
        };
        let duration_seconds: Option<i64> = match (&job.started_at, &job.completed_at) {
            (Some(s), Some(c)) => Some(*c - *s),
            _ => None,
        };
        JobResponse {
            id: job.id.clone(),
            job_type: job.job_type,
            status: job.status,
            command: clone_opt_string(&job.command),
            task: clone_opt_string(&job.task),
            image: job.image.clone(),
            cpus: job.cpus,
            memory_gb: job.memory_gb,
            timeout_minutes: job.timeout_minutes,
            exit_code: clone_opt_i32(&job.exit_code),
            error: clone_opt_string(&job.error),
            created_at: job.created_at,
            started_at: clone_opt_i64(&job.started_at),
            completed_at: clone_opt_i64(&job.completed_at),
            elapsed_seconds,
            duration_seconds,
        }
    }
}

/// Per-job-type ceilings for resource reservations.
#[derive(Clone, Copy, Debug)]
pub struct ResourceLimits {
    pub max_cpus: i32,
    pub max_memory_gb: i32,
    pub max_timeout_minutes: i32,
}

impl ResourceLimits {
    /// A value clamped into `[1, max]`.
    pub open spec fn clamp_val(v: int, max: int) -> int {
        if v < 1 {
            1
        } else if v > max {
            max
        } else {
            v
        }
    }

    pub open spec fn spec_for_job_type(job_type: JobType) -> ResourceLimits {
        match job_type {
            JobType::Worker => ResourceLimits {
                max_cpus: 8,
                max_memory_gb: 16,
                max_timeout_minutes: 120,
            },
            JobType::Agent => ResourceLimits {
                max_cpus: 4,
                max_memory_gb: 8,
                max_timeout_minutes: 120,
            },
        }
    }

    pub fn for_job_type(job_type: JobType) -> (r: Self)
        ensures
            r == ResourceLimits::spec_for_job_type(job_type),
    {
        match job_type {
            JobType::Worker => Self { max_cpus: 8, max_memory_gb: 16, max_timeout_minutes: 120 },
            JobType::Agent => Self { max_cpus: 4, max_memory_gb: 8, max_timeout_minutes: 120 },
        }
    }

    /// Clamps each requested value into `[1, ceiling]`; out-of-range requests
    /// are never rejected, only clamped.
    pub fn clamp(&self, cpus: i32, memory_gb: i32, timeout_minutes: i32) -> (r: (i32, i32, i32))
        requires
            self.max_cpus >= 1,
            self.max_memory_gb >= 1,
            self.max_timeout_minutes >= 1,
        ensures
            r.0 == ResourceLimits::clamp_val(cpus as int, self.max_cpus as int),
            r.1 == ResourceLimits::clamp_val(memory_gb as int, self.max_memory_gb as int),
            r.2 == ResourceLimits::clamp_val(timeout_minutes as int, self.max_timeout_minutes as int),
    {
        let c = if cpus < 1 {
            1
        } else if cpus > self.max_cpus {
            self.max_cpus
        } else {
            cpus
        };
        let m = if memory_gb < 1 {
            1
        } else if memory_gb > self.max_memory_gb {
            self.max_memory_gb
        } else {
            memory_gb
        };
        let t = if timeout_minutes < 1 {
            1
        } else if timeout_minutes > self.max_timeout_minutes {
            self.max_timeout_minutes
        } else {
            timeout_minutes
        };
        (c, m, t)
    }
}

} // verus!
