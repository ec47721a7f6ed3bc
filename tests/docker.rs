use bollard::models::ContainerStateStatusEnum;
use github_monitor::command::CommandOutput;
use github_monitor::docker::{
    BatchAction, ContainerOperation, ContainerStatus, DockerManager, InspectReport, PipelineAction,
    StateReport,
};
use github_monitor::error::{ErrorKind, MonitorError};

fn manager(names: &[&str]) -> DockerManager {
    DockerManager::new(
        "/srv/app/docker-compose.yml".to_string(),
        names.iter().map(|n| n.to_string()).collect(),
    )
    .expect("a path with a directory")
}

fn report(name: &str, status: &str, image: &str) -> Result<InspectReport, String> {
    Ok(InspectReport {
        name: Some(format!("/{}", name)),
        state: Some(StateReport { status: Some(status.to_string()) }),
        image: Some(image.to_string()),
    })
}

fn output(success: bool, stdout: &str, stderr: &str) -> CommandOutput {
    CommandOutput { success, stdout: stdout.to_string(), stderr: stderr.to_string() }
}

#[test]
fn test_container_status_display() {
    assert_eq!(ContainerStatus::Running.to_string(), "running");
    assert_eq!(ContainerStatus::Stopped.to_string(), "stopped");
    assert_eq!(ContainerStatus::Paused.to_string(), "paused");
}

#[test]
fn test_container_status_from_enum() {
    let status = ContainerStatus::from_state(&ContainerStateStatusEnum::RUNNING.to_string());
    assert_eq!(status, ContainerStatus::Running);

    let status = ContainerStatus::from_state(&ContainerStateStatusEnum::EXITED.to_string());
    assert_eq!(status, ContainerStatus::Stopped);
}

#[test]
fn status_mapping_is_total() {
    assert_eq!(ContainerStatus::from_state("running"), ContainerStatus::Running);
    assert_eq!(ContainerStatus::from_state("exited"), ContainerStatus::Stopped);
    assert_eq!(ContainerStatus::from_state("paused"), ContainerStatus::Paused);
    assert_eq!(ContainerStatus::from_state("restarting"), ContainerStatus::Restarting);
    assert_eq!(ContainerStatus::from_state("dead"), ContainerStatus::Dead);
    assert_eq!(ContainerStatus::from_state("created"), ContainerStatus::Created);
    assert_eq!(ContainerStatus::from_state("removing"), ContainerStatus::Removing);
    assert_eq!(ContainerStatus::from_state(""), ContainerStatus::Unknown);
    assert_eq!(ContainerStatus::from_state("hibernating"), ContainerStatus::Unknown);
    assert_eq!(ContainerStatus::from_state("Running"), ContainerStatus::Unknown);
    assert_eq!(ContainerStatus::Unknown.to_string(), "unknown");
}

#[test]
fn status_is_stable_across_queries() {
    let m = manager(&["web"]);
    let first = m.get_container_status("web", report("web", "running", "nginx:1")).unwrap();
    let second = m.get_container_status("web", report("web", "running", "nginx:1")).unwrap();
    assert_eq!(first.status, second.status);
    assert_eq!(first.status, ContainerStatus::Running);
}

#[test]
fn container_status_normalizes_name() {
    let m = manager(&["web"]);
    let answer = Ok(InspectReport {
        name: Some("//web".to_string()),
        state: Some(StateReport { status: None }),
        image: None,
    });
    let info = m.get_container_status("web", answer).unwrap();
    assert_eq!(info.name, "web");
    assert_eq!(info.status, ContainerStatus::Unknown);
    assert_eq!(info.image, "");
}

#[test]
fn container_status_errors() {
    let m = manager(&["web"]);
    let e = m.get_container_status("web", Err("no such container".to_string())).unwrap_err();
    assert_eq!(e.kind(), ErrorKind::Docker);
    assert_eq!(e.message(), "Failed to inspect container 'web': no such container");
    let no_state = Ok(InspectReport { name: Some("/web".to_string()), state: None, image: None });
    let e = m.get_container_status("web", no_state).unwrap_err();
    assert_eq!(e.message(), "Container 'web' has no state");
    assert_eq!(e.to_string(), "Docker error: Container 'web' has no state");
}

#[test]
fn get_all_status_skips_missing_container() {
    let m = manager(&["a", "b", "ghost"]);
    let answers = vec![
        report("a", "running", "img-a"),
        report("b", "exited", "img-b"),
        Err("No such container: ghost".to_string()),
    ];
    let infos = m.get_all_container_status(answers).expect("best effort never fails");
    assert_eq!(infos.len(), 2);
    assert_eq!(infos[0].name, "a");
    assert_eq!(infos[0].status, ContainerStatus::Running);
    assert_eq!(infos[1].name, "b");
    assert_eq!(infos[1].status, ContainerStatus::Stopped);
    assert_eq!(infos[1].image, "img-b");
}

#[test]
fn new_refuses_path_without_directory() {
    let e = DockerManager::new("/".to_string(), vec![]).err().unwrap();
    assert_eq!(e.message(), "Invalid compose file path");
    let m = manager(&["a"]);
    assert_eq!(m.compose_dir(), "/srv/app");
}

#[test]
fn validate_reports_missing_containers() {
    let m = manager(&["web", "db", "cache"]);
    let listed = vec![vec!["/web".to_string()], vec!["/db".to_string(), "/db-alias".to_string()]];
    let missing = m.validate(true, Ok(listed)).unwrap();
    assert_eq!(missing, vec!["cache".to_string()]);
    let e = m.validate(false, Ok(vec![])).unwrap_err();
    assert_eq!(e.message(), "Docker compose file not found: /srv/app/docker-compose.yml");
    let e = m.validate(true, Err("connection refused".to_string())).unwrap_err();
    assert_eq!(e.message(), "Failed to connect to Docker daemon: connection refused");
}

#[test]
fn single_operation_errors() {
    let m = manager(&["web"]);
    assert!(m.start_container("web", Ok(())).is_ok());
    let e = m.stop_container("web", Err("timeout".to_string())).unwrap_err();
    assert_eq!(e.message(), "Failed to stop container 'web': timeout");
    let e = m.restart_container("web", Err("gone".to_string())).unwrap_err();
    assert_eq!(e.message(), "Failed to restart container 'web': gone");
}

fn run_batch(mut batch: github_monitor::docker::FailFastBatch, failing: &str) -> (Vec<String>, Result<(), MonitorError>) {
    let mut invoked = Vec::new();
    loop {
        match batch.next_action() {
            BatchAction::Invoke(op, name) => {
                invoked.push(name.clone());
                let answer = if name == failing { Err("boom".to_string()) } else { Ok(()) };
                let m = manager(&[]);
                batch.record(m.operation_result(op, &name, answer));
            }
            BatchAction::Finished(r) => return (invoked, r),
        }
    }
}

#[test]
fn batch_stops_at_first_failure() {
    let m = manager(&["a", "b", "c"]);
    let (invoked, r) = run_batch(m.start_all_containers(), "b");
    assert_eq!(invoked, vec!["a".to_string(), "b".to_string()]);
    assert_eq!(r.unwrap_err().message(), "Failed to start container 'b': boom");

    let (invoked, r) = run_batch(m.stop_all_containers(), "a");
    assert_eq!(invoked, vec!["a".to_string()]);
    assert_eq!(r.unwrap_err().message(), "Failed to stop container 'a': boom");

    let (invoked, r) = run_batch(m.restart_all_containers(), "none");
    assert_eq!(invoked.len(), 3);
    assert!(r.is_ok());
}

#[test]
fn batch_carries_operation() {
    let m = manager(&["a"]);
    match m.restart_all_containers().next_action() {
        BatchAction::Invoke(op, name) => {
            assert_eq!(op, ContainerOperation::Restart);
            assert_eq!(name, "a");
        }
        BatchAction::Finished(_) => panic!("expected an invocation"),
    }
}

#[test]
fn update_stops_after_failed_pull() {
    let m = manager(&["web"]);
    let mut p = m.update_container("web");
    match p.next_action() {
        PipelineAction::StopContainer(name) => assert_eq!(name, "web"),
        _ => panic!("the container is stopped first"),
    }
    p.record_stop(Err(MonitorError::Docker("not running".to_string())));
    match p.next_action() {
        PipelineAction::Run(cmd) => {
            assert_eq!(cmd.program, "docker");
            assert_eq!(cmd.args, vec!["compose", "-f", "/srv/app/docker-compose.yml", "pull", "web"]);
            assert_eq!(cmd.dir, "/srv/app");
        }
        _ => panic!("the pull runs next"),
    }
    p.record_run(Ok(output(false, "pulling", "manifest unknown")));
    match p.next_action() {
        PipelineAction::Finished(Ok(r)) => {
            assert!(!r.success);
            assert_eq!(r.output, "pulling");
            assert_eq!(r.error, Some("manifest unknown".to_string()));
        }
        _ => panic!("the update ends after a failed pull"),
    }
}

#[test]
fn update_container_success() {
    let m = manager(&["web"]);
    let mut p = m.update_container("web");
    p.record_stop(Ok(()));
    p.record_run(Ok(output(true, "pulled", "")));
    match p.next_action() {
        PipelineAction::Run(cmd) => {
            assert_eq!(cmd.args, vec!["compose", "-f", "/srv/app/docker-compose.yml", "up", "-d", "web"]);
        }
        _ => panic!("up runs after the pull"),
    }
    p.record_run(Ok(output(true, "started", "")));
    match p.next_action() {
        PipelineAction::Finished(Ok(r)) => {
            assert!(r.success);
            assert_eq!(r.output, "pulled\nstarted");
            assert_eq!(r.error, None);
        }
        _ => panic!("finished"),
    }
}

#[test]
fn update_all_concatenates_outputs() {
    let m = manager(&["web", "db"]);
    let mut p = m.update_all_containers();
    let mut verbs = Vec::new();
    let outputs = ["down-out", "pull-out", "up-out"];
    let mut i = 0;
    loop {
        match p.next_action() {
            PipelineAction::Run(cmd) => {
                verbs.push(cmd.args[3].clone());
                p.record_run(Ok(output(true, outputs[i], "")));
                i += 1;
            }
            PipelineAction::Finished(r) => {
                let r = r.unwrap();
                assert!(r.success);
                assert_eq!(r.output, "down-out\npull-out\nup-out");
                assert_eq!(r.error, None);
                break;
            }
            PipelineAction::StopContainer(_) => panic!("no container is stopped first"),
        }
    }
    assert_eq!(verbs, vec!["down", "pull", "up"]);
}

#[test]
fn update_all_reports_progress_on_failure() {
    let m = manager(&["web"]);
    let mut p = m.update_all_containers();
    p.record_run(Ok(output(true, "down-out", "")));
    p.record_run(Ok(output(false, "pull-out", "denied")));
    match p.next_action() {
        PipelineAction::Finished(Ok(r)) => {
            assert!(!r.success);
            assert_eq!(r.output, "down-out\npull-out");
            assert_eq!(r.error, Some("denied".to_string()));
        }
        _ => panic!("stops after the failed pull"),
    }
}

#[test]
fn update_all_unrunnable_tool_is_an_error() {
    let m = manager(&["web"]);
    let mut p = m.update_all_containers();
    p.record_run(Err("No such file or directory".to_string()));
    match p.next_action() {
        PipelineAction::Finished(Err(e)) => {
            assert_eq!(e.message(), "Failed to execute docker compose down: No such file or directory");
        }
        _ => panic!("an unrunnable step is a hard error"),
    }
}
