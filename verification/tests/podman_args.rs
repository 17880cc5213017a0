use flashpods::podman::{
    inspect_error_means_missing, kill_error_ignorable, ContainerConfig, ContainerState, JobType,
    PodmanService,
};

#[test]
fn test_container_state_display() {
    assert_eq!(ContainerState::Running.as_str(), "running");
    assert_eq!(ContainerState::Exited.as_str(), "exited");
}

#[test]
fn test_container_state_from_str() {
    assert_eq!(ContainerState::from_str("running"), ContainerState::Running);
    assert_eq!(ContainerState::from_str("exited"), ContainerState::Exited);
    assert_eq!(ContainerState::from_str("unknown_state"), ContainerState::Unknown);
    assert_eq!(ContainerState::from_str("RUNNING"), ContainerState::Running);
}

#[test]
fn test_job_type_display() {
    assert_eq!(JobType::Worker.as_str(), "worker");
    assert_eq!(JobType::Agent.as_str(), "agent");
}

#[test]
fn test_podman_service_new() {
    let service = PodmanService::new();
    assert_eq!(service.podman_path, "podman");
    assert_eq!(service.upload_dir, "/tmp/flashpods/uploads");
}

#[test]
fn test_podman_service_with_paths() {
    let service = PodmanService::with_paths(
        "/custom/uploads".to_string(),
        "/custom/artifacts".to_string(),
        "/custom/spire.sock".to_string(),
        "/custom/token.sock".to_string(),
    );
    assert_eq!(service.upload_dir, "/custom/uploads");
    assert_eq!(service.artifacts_dir, "/custom/artifacts");
}

fn worker_config() -> ContainerConfig {
    ContainerConfig {
        job_id: String::from("abc123"),
        job_type: JobType::Worker,
        upload_id: String::from("up42"),
        image: String::from("ubuntu:22.04"),
        command: Some(String::from("echo hi")),
        cpus: 2,
        memory_gb: 4,
        task: None,
        context: None,
        git_branch: None,
    }
}

#[test]
fn test_worker_run_args() {
    let svc = PodmanService::new();
    let args = svc.container_run_args(&worker_config());
    let expected: Vec<String> = [
        "run",
        "-d",
        "--rm",
        "--name",
        "job_abc123",
        "--label",
        "flashpods-job=true",
        "--label",
        "flashpods-job-id=abc123",
        "--label",
        "flashpods-job-type=worker",
        "--cpus",
        "2",
        "--memory",
        "4g",
        "--userns=keep-id",
        "--network=slirp4netns",
        "--security-opt",
        "no-new-privileges",
        "--cap-drop",
        "ALL",
        "-v",
        "/tmp/flashpods/uploads/up42:/work:ro",
        "-v",
        "/var/lib/flashpods/artifacts/abc123:/artifacts:rw",
        "-v",
        "/run/spire/sockets/agent.sock:/run/spire/sockets/agent.sock:ro",
        "-v",
        "/run/flashpods/token.sock:/run/flashpods/token.sock:ro",
        "ubuntu:22.04",
        "/bin/sh",
        "-c",
        "echo hi",
    ]
    .iter()
    .map(|s| s.to_string())
    .collect();
    assert_eq!(args, expected);
}

#[test]
fn test_agent_run_args() {
    let svc = PodmanService::with_paths(
        "/u".to_string(),
        "/a".to_string(),
        "/s.sock".to_string(),
        "/t.sock".to_string(),
    );
    let config = ContainerConfig {
        job_id: String::from("j9"),
        job_type: JobType::Agent,
        upload_id: String::from("u9"),
        image: String::from("agent:latest"),
        command: None,
        cpus: 1,
        memory_gb: 2,
        task: Some(String::from("triage")),
        context: Some(String::from("repo")),
        git_branch: Some(String::from("main")),
    };
    let args = svc.container_run_args(&config);
    let expected: Vec<String> = [
        "run",
        "-d",
        "--rm",
        "--name",
        "job_j9",
        "--label",
        "flashpods-job=true",
        "--label",
        "flashpods-job-id=j9",
        "--label",
        "flashpods-job-type=agent",
        "--cpus",
        "1",
        "--memory",
        "2g",
        "--userns=keep-id",
        "--network=slirp4netns",
        "--security-opt",
        "no-new-privileges",
        "--cap-drop",
        "ALL",
        "-v",
        "/u/u9:/work:rw",
        "-v",
        "/a/j9:/artifacts:rw",
        "-v",
        "/s.sock:/run/spire/sockets/agent.sock:ro",
        "-v",
        "/t.sock:/run/flashpods/token.sock:ro",
        "-e",
        "FLASHPODS_TASK=triage",
        "-e",
        "FLASHPODS_CONTEXT=repo",
        "-e",
        "FLASHPODS_GIT_BRANCH=main",
        "-e",
        "FLASHPODS_JOB_ID=j9",
        "agent:latest",
        "/entrypoint.sh",
    ]
    .iter()
    .map(|s| s.to_string())
    .collect();
    assert_eq!(args, expected);
}

#[test]
fn test_stop_kill_inspect_list_args() {
    let svc = PodmanService::new();
    assert_eq!(
        svc.container_stop_args("c77", 10),
        vec!["stop".to_string(), "-t".into(), "10".into(), "c77".into()]
    );
    assert_eq!(svc.container_kill_args("c77"), vec!["kill".to_string(), "c77".into()]);
    assert_eq!(
        svc.container_inspect_args("c77"),
        vec!["inspect".to_string(), "--format".into(), "json".into(), "c77".into()]
    );
    assert_eq!(
        svc.container_list_args(),
        vec![
            "ps".to_string(),
            "-a".into(),
            "--filter".into(),
            "label=flashpods-job=true".into(),
            "--format".into(),
            "json".into(),
        ]
    );
}

#[test]
fn test_stderr_classification() {
    assert!(kill_error_ignorable("Error: no such container c77"));
    assert!(!kill_error_ignorable("Error: permission denied"));
    assert!(inspect_error_means_missing("no such container"));
    assert!(inspect_error_means_missing("container c77 not found"));
    assert!(!inspect_error_means_missing("daemon unreachable"));
}

#[test]
fn test_container_name_and_artifacts_path() {
    let svc = PodmanService::new();
    let config = worker_config();
    assert_eq!(svc.container_name(&config), "job_abc123");
    assert_eq!(svc.artifacts_path(&config), "/var/lib/flashpods/artifacts/abc123");
}
