//! The container-runtime adapter's decision side: container metadata types,
//! the exact command lines the runtime is invoked with, and the stderr
//! classification the stop/kill fallback protocol depends on.
//!
//! Spawning the runtime process is I/O and happens outside the library; it
//! receives these argument vectors verbatim.

use vstd::prelude::*;
use vstd::string::*;
use std::collections::HashMap;
use crate::text::{contains_spec, dec_str, lower_spec, str_contains, str_eq_lower};

verus! {

/// A container's state as the runtime reports it.
#[derive(Clone, Copy, Debug, PartialEq, Eq, Structural)]
pub enum ContainerState {
    Created,
    Running,
    Exited,
    Paused,
    Stopped,
    Unknown,
}

impl ContainerState {
    /// The lower-case name of this state.
    pub open spec fn state_str(self) -> Seq<char> {
        match self {
            ContainerState::Created => "created"@,
            ContainerState::Running => "running"@,
            ContainerState::Exited => "exited"@,
            ContainerState::Paused => "paused"@,
            ContainerState::Stopped => "stopped"@,
            ContainerState::Unknown => "unknown"@,
        }
    }

    pub fn as_str(&self) -> (r: &'static str)
        ensures
            r@ == self.state_str(),
    {
        match self {
            ContainerState::Created => "created",
            ContainerState::Running => "running",
            ContainerState::Exited => "exited",
            ContainerState::Paused => "paused",
            ContainerState::Stopped => "stopped",
            ContainerState::Unknown => "unknown",
        }
    }

    /// Which state a runtime string names, ignoring ASCII case; anything
    /// unrecognized is `Unknown` rather than an error.
    pub open spec fn parse_spec(s: Seq<char>) -> ContainerState {
        if lower_spec(s) == "created"@ {
            ContainerState::Created
        } else if lower_spec(s) == "running"@ {
            ContainerState::Running
        } else if lower_spec(s) == "exited"@ {
            ContainerState::Exited
        } else if lower_spec(s) == "paused"@ {
            ContainerState::Paused
        } else if lower_spec(s) == "stopped"@ {
            ContainerState::Stopped
        } else {
            ContainerState::Unknown
        }
    }

    pub fn from_str(s: &str) -> (r: ContainerState)
        ensures
            r == ContainerState::parse_spec(s@),
    {
        if str_eq_lower(s, "created") {
            ContainerState::Created
        } else if str_eq_lower(s, "running") {
            ContainerState::Running
        } else if str_eq_lower(s, "exited") {
            ContainerState::Exited
        } else if str_eq_lower(s, "paused") {
            ContainerState::Paused
        } else if str_eq_lower(s, "stopped") {
            ContainerState::Stopped
        } else {
            ContainerState::Unknown
        }
    }
}

/// What the runtime reports about one container.
#[derive(Debug)]
pub struct ContainerInfo {
    pub id: String,
    pub name: String,
    pub state: ContainerState,
    pub exit_code: Option<i32>,
    pub labels: HashMap<String, String>,
}

/// The job type a container is configured for.
#[derive(Clone, Copy, Debug, PartialEq, Eq, Structural)]
pub enum JobType {
    Worker,
    Agent,
}

impl JobType {
    /// The label value naming this job type.
    pub open spec fn type_str(self) -> Seq<char> {
        match self {
            JobType::Worker => "worker"@,
            JobType::Agent => "agent"@,
        }
    }

    pub fn as_str(&self) -> (r: &'static str)
        ensures
            r@ == self.type_str(),
    {
        match self {
            JobType::Worker => "worker",
            JobType::Agent => "agent",
        }
    }
}

/// Everything a container is created from.
#[derive(Debug)]
pub struct ContainerConfig {
    pub job_id: String,
    pub job_type: JobType,
    pub upload_id: String,
    pub image: String,
    pub command: Option<String>,
    pub cpus: i32,
    pub memory_gb: i32,
    // Agent-specific fields
    pub task: Option<String>,
    pub context: Option<String>,
    pub git_branch: Option<String>,
}

/// Whether `kill` may treat a runtime failure as "already gone": the
/// runtime no longer knows the container.
pub fn kill_error_ignorable(stderr: &str) -> (r: bool)
    ensures
        r == contains_spec(stderr@, "no such container"@),
{
    str_contains(stderr, "no such container")
}

/// Whether `inspect` should report "no such container" as an absent
/// container rather than a failure.
pub fn inspect_error_means_missing(stderr: &str) -> (r: bool)
    ensures
        r == (contains_spec(stderr@, "no such container"@) || contains_spec(
            stderr@,
            "not found"@,
        )),
{
    str_contains(stderr, "no such container") || str_contains(stderr, "not found")
}

/// The runtime adapter: the runtime binary's name and the host paths the
/// containers are wired to.
#[derive(Debug)]
pub struct PodmanService {
    pub podman_path: String,
    pub upload_dir: String,
    pub artifacts_dir: String,
    pub spire_socket: String,
    pub token_socket: String,
}

/// The filesystem mode a job's work mount gets: workers read their inputs,
/// agents may also write them.
pub open spec fn work_mode(t: JobType) -> Seq<char> {
    match t {
        JobType::Worker => "ro"@,
        JobType::Agent => "rw"@,
    }
}

/// The `NAME=value` environment arguments an agent container receives.
pub open spec fn spec_env_args(c: ContainerConfig) -> Seq<Seq<char>> {
    if c.job_type is Agent {
        (match c.task {
            Some(t) => seq!["-e"@, "FLASHPODS_TASK="@ + t@],
            None => Seq::<Seq<char>>::empty(),
        }) + (match c.context {
            Some(x) => seq!["-e"@, "FLASHPODS_CONTEXT="@ + x@],
            None => Seq::<Seq<char>>::empty(),
        }) + (match c.git_branch {
            Some(b) => seq!["-e"@, "FLASHPODS_GIT_BRANCH="@ + b@],
            None => Seq::<Seq<char>>::empty(),
        }) + seq!["-e"@, "FLASHPODS_JOB_ID="@ + c.job_id@]
    } else {
        Seq::<Seq<char>>::empty()
    }
}

/// What runs inside the container: workers get their shell command, agents
/// the fixed entrypoint.
pub open spec fn spec_command_args(c: ContainerConfig) -> Seq<Seq<char>> {
    match c.job_type {
        JobType::Worker => match c.command {
            Some(cmd) => seq!["/bin/sh"@, "-c"@, cmd@],
            None => Seq::<Seq<char>>::empty(),
        },
        JobType::Agent => seq!["/entrypoint.sh"@],
    }
}

/// The fixed part of the `run` invocation: detached, self-removing, named
/// and labelled for this job, resource-capped, isolated (own user
/// namespace, no new privileges, all capabilities dropped), with the work,
/// artifacts and socket mounts.
pub open spec fn spec_base_args(svc: PodmanService, c: ContainerConfig) -> Seq<Seq<char>> {
    seq![
        "run"@,
        "-d"@,
        "--rm"@,
        "--name"@,
        "job_"@ + c.job_id@,
        "--label"@,
        "flashpods-job=true"@,
        "--label"@,
        "flashpods-job-id="@ + c.job_id@,
        "--label"@,
        "flashpods-job-type="@ + c.job_type.type_str(),
        "--cpus"@,
        dec_str(c.cpus as nat),
        "--memory"@,
        dec_str(c.memory_gb as nat) + "g"@,
        "--userns=keep-id"@,
        "--network=slirp4netns"@,
        "--security-opt"@,
        "no-new-privileges"@,
        "--cap-drop"@,
        "ALL"@,
        "-v"@,
        svc.upload_dir@ + "/"@ + c.upload_id@ + ":/work:"@ + work_mode(c.job_type),
        "-v"@,
        svc.artifacts_dir@ + "/"@ + c.job_id@ + ":/artifacts:rw"@,
        "-v"@,
        svc.spire_socket@ + ":/run/spire/sockets/agent.sock:ro"@,
        "-v"@,
        svc.token_socket@ + ":/run/flashpods/token.sock:ro"@,
    ]
}

/// The full `run` invocation for a job's container.
pub open spec fn spec_run_args(svc: PodmanService, c: ContainerConfig) -> Seq<Seq<char>> {
    spec_base_args(svc, c) + spec_env_args(c) + seq![c.image@] + spec_command_args(c)
}

/// The views of a vector of argument strings.
pub open spec fn string_views(v: Seq<String>) -> Seq<Seq<char>> {
    v.map_values(|s: String| s@)
}

fn push_arg(args: &mut Vec<String>, s: String)
    ensures
        string_views(final(args)@) == string_views(old(args)@).push(s@),
{
    args.push(s);
    proof {
        assert(string_views(args@) =~= string_views(old(args)@).push(args@.last()@));
    }
}

fn push_lit(args: &mut Vec<String>, s: &str)
    ensures
        string_views(final(args)@) == string_views(old(args)@).push(s@),
{
    push_arg(args, String::from_str(s));
}

/// `prefix` followed by `tail`, as one string.
fn concat_str(prefix: &str, tail: &str) -> (r: String)
    ensures
        r@ == prefix@ + tail@,
{
    let mut s = String::from_str(prefix);
    s.append(tail);
    s
}

impl PodmanService {
    /// The adapter with its conventional binary name and host paths.
    pub fn new() -> (r: Self)
        ensures
            r.podman_path@ == "podman"@,
            r.upload_dir@ == "/tmp/flashpods/uploads"@,
            r.artifacts_dir@ == "/var/lib/flashpods/artifacts"@,
            r.spire_socket@ == "/run/spire/sockets/agent.sock"@,
            r.token_socket@ == "/run/flashpods/token.sock"@,
    {
        PodmanService {
            podman_path: String::from_str("podman"),
            upload_dir: String::from_str("/tmp/flashpods/uploads"),
            artifacts_dir: String::from_str("/var/lib/flashpods/artifacts"),
            spire_socket: String::from_str("/run/spire/sockets/agent.sock"),
            token_socket: String::from_str("/run/flashpods/token.sock"),
        }
    }

    /// The adapter with custom host paths.
    pub fn with_paths(
        upload_dir: String,
        artifacts_dir: String,
        spire_socket: String,
        token_socket: String,
    ) -> (r: Self)
        ensures
            r.podman_path@ == "podman"@,
            r.upload_dir == upload_dir,
            r.artifacts_dir == artifacts_dir,
            r.spire_socket == spire_socket,
            r.token_socket == token_socket,
    {
        PodmanService {
            podman_path: String::from_str("podman"),
            upload_dir,
            artifacts_dir,
            spire_socket,
            token_socket,
        }
    }

    /// The container name a job's container runs under.
    pub fn container_name(&self, config: &ContainerConfig) -> (r: String)
        ensures
            r@ == "job_"@ + config.job_id@,
    {
        concat_str("job_", config.job_id.as_str())
    }

    /// The host directory a job's artifacts are collected in.
    pub fn artifacts_path(&self, config: &ContainerConfig) -> (r: String)
        ensures
            r@ == self.artifacts_dir@ + "/"@ + config.job_id@,
    {
        let mut s = self.artifacts_dir.clone();
        s.append("/");
        s.append(config.job_id.as_str());
        s
    }

    /// The exact argument vector for creating and starting a job's
    /// container.
    pub fn container_run_args(&self, config: &ContainerConfig) -> (r: Vec<String>)
        requires
            config.cpus >= 0,
            config.memory_gb >= 0,
        ensures
            string_views(r@) == spec_run_args(*self, *config),
    {
        let mut args: Vec<String> = Vec::new();
        push_lit(&mut args, "run");
        push_lit(&mut args, "-d");
        push_lit(&mut args, "--rm");
        push_lit(&mut args, "--name");
        push_arg(&mut args, concat_str("job_", config.job_id.as_str()));
        push_lit(&mut args, "--label");
        push_lit(&mut args, "flashpods-job=true");
        push_lit(&mut args, "--label");
        push_arg(&mut args, concat_str("flashpods-job-id=", config.job_id.as_str()));
        push_lit(&mut args, "--label");
        push_arg(&mut args, concat_str("flashpods-job-type=", config.job_type.as_str()));
        push_lit(&mut args, "--cpus");
        push_arg(&mut args, crate::text::dec_string(config.cpus as u64));
        push_lit(&mut args, "--memory");
        let mut memory_arg = crate::text::dec_string(config.memory_gb as u64);
        memory_arg.append("g");
        push_arg(&mut args, memory_arg);
        push_lit(&mut args, "--userns=keep-id");
        push_lit(&mut args, "--network=slirp4netns");
        push_lit(&mut args, "--security-opt");
        push_lit(&mut args, "no-new-privileges");
        push_lit(&mut args, "--cap-drop");
        push_lit(&mut args, "ALL");
        push_lit(&mut args, "-v");
        let mut work_mount = self.upload_dir.clone();
        work_mount.append("/");
        work_mount.append(config.upload_id.as_str());
        work_mount.append(":/work:");
        match config.job_type {
            JobType::Worker => work_mount.append("ro"),
            JobType::Agent => work_mount.append("rw"),
        }
        push_arg(&mut args, work_mount);
        push_lit(&mut args, "-v");
        let mut artifacts_mount = self.artifacts_dir.clone();
        artifacts_mount.append("/");
        artifacts_mount.append(config.job_id.as_str());
        artifacts_mount.append(":/artifacts:rw");
        push_arg(&mut args, artifacts_mount);
        push_lit(&mut args, "-v");
        let mut spire_mount = self.spire_socket.clone();
        spire_mount.append(":/run/spire/sockets/agent.sock:ro");
        push_arg(&mut args, spire_mount);
        push_lit(&mut args, "-v");
        let mut token_mount = self.token_socket.clone();
        token_mount.append(":/run/flashpods/token.sock:ro");
        push_arg(&mut args, token_mount);
        proof {
            assert(string_views(args@) =~~= spec_base_args(*self, *config));
        }
        let ghost base_done = string_views(args@);
        match config.job_type {
            JobType::Agent => {
                if let Some(t) = &config.task {
                    push_lit(&mut args, "-e");
                    push_arg(&mut args, concat_str("FLASHPODS_TASK=", t.as_str()));
                }
                if let Some(x) = &config.context {
                    push_lit(&mut args, "-e");
                    push_arg(&mut args, concat_str("FLASHPODS_CONTEXT=", x.as_str()));
                }
                if let Some(b) = &config.git_branch {
                    push_lit(&mut args, "-e");
                    push_arg(&mut args, concat_str("FLASHPODS_GIT_BRANCH=", b.as_str()));
                }
                push_lit(&mut args, "-e");
                push_arg(&mut args, concat_str("FLASHPODS_JOB_ID=", config.job_id.as_str()));
            },
            JobType::Worker => {},
        }
        proof {
            assert(string_views(args@) =~~= spec_base_args(*self, *config) + spec_env_args(
                *config,
            ));
        }
        push_arg(&mut args, config.image.clone());
        match config.job_type {
            JobType::Worker => {
                if let Some(cmd) = &config.command {
                    push_lit(&mut args, "/bin/sh");
                    push_lit(&mut args, "-c");
                    push_arg(&mut args, cmd.clone());
                }
            },
            JobType::Agent => {
                push_lit(&mut args, "/entrypoint.sh");
            },
        }
        proof {
            assert(string_views(args@) =~~= spec_run_args(*self, *config));
        }
        args
    }

    /// The argument vector for a graceful stop with the given grace period.
    pub fn container_stop_args(&self, container_id: &str, grace_seconds: u64) -> (r: Vec<String>)
        ensures
            string_views(r@) == seq!["stop"@, "-t"@, dec_str(grace_seconds as nat), container_id@],
    {
        let mut args: Vec<String> = Vec::new();
        push_lit(&mut args, "stop");
        push_lit(&mut args, "-t");
        push_arg(&mut args, crate::text::dec_string(grace_seconds));
        push_lit(&mut args, String::from_str(container_id).as_str());
        proof {
            assert(string_views(args@) =~~= seq![
                "stop"@,
                "-t"@,
                dec_str(grace_seconds as nat),
                container_id@,
            ]);
        }
        args
    }

    /// The argument vector for an immediate forceful kill.
    pub fn container_kill_args(&self, container_id: &str) -> (r: Vec<String>)
        ensures
            string_views(r@) == seq!["kill"@, container_id@],
    {
        let mut args: Vec<String> = Vec::new();
        push_lit(&mut args, "kill");
        push_lit(&mut args, container_id);
        proof {
            assert(string_views(args@) =~~= seq!["kill"@, container_id@]);
        }
        args
    }

    /// The argument vector for inspecting one container as JSON.
    pub fn container_inspect_args(&self, container_id: &str) -> (r: Vec<String>)
        ensures
            string_views(r@) == seq!["inspect"@, "--format"@, "json"@, container_id@],
    {
        let mut args: Vec<String> = Vec::new();
        push_lit(&mut args, "inspect");
        push_lit(&mut args, "--format");
        push_lit(&mut args, "json");
        push_lit(&mut args, container_id);
        proof {
            assert(string_views(args@) =~~= seq![
                "inspect"@,
                "--format"@,
                "json"@,
                container_id@,
            ]);
        }
        args
    }

    /// The argument vector for listing this control plane's containers as
    /// JSON.
    pub fn container_list_args(&self) -> (r: Vec<String>)
        ensures
            string_views(r@) == seq![
                "ps"@,
                "-a"@,
                "--filter"@,
                "label=flashpods-job=true"@,
                "--format"@,
                "json"@,
            ],
    {
        let mut args: Vec<String> = Vec::new();
        push_lit(&mut args, "ps");
        push_lit(&mut args, "-a");
        push_lit(&mut args, "--filter");
        push_lit(&mut args, "label=flashpods-job=true");
        push_lit(&mut args, "--format");
        push_lit(&mut args, "json");
        proof {
            assert(string_views(args@) =~~= seq![
                "ps"@,
                "-a"@,
                "--filter"@,
                "label=flashpods-job=true"@,
                "--format"@,
                "json"@,
            ]);
        }
        args
    }
}

impl Default for PodmanService {
    fn default() -> (r: Self)
        ensures
            r.podman_path@ == "podman"@,
            r.upload_dir@ == "/tmp/flashpods/uploads"@,
            r.artifacts_dir@ == "/var/lib/flashpods/artifacts"@,
            r.spire_socket@ == "/run/spire/sockets/agent.sock"@,
            r.token_socket@ == "/run/flashpods/token.sock"@,
    {
        PodmanService::new()
    }
}

/// Why a container-runtime invocation failed, with the runtime's message.
#[derive(Clone, Debug)]
pub enum PodmanError {
    Command(String),
    ContainerStart(String),
    ContainerStop(String),
    ContainerInspect(String),
    ContainerList(String),
    Parse(String),
    FileSystem(String),
}

} // verus!
