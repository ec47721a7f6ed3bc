use github_monitor::config::{
    default_docker_socket, default_git_branch, default_git_remote, default_session_timeout, Config,
    ConfigSource,
};

fn source() -> ConfigSource {
    ConfigSource {
        server_host: None,
        server_port: None,
        dashboard_password: Some("pw".to_string()),
        session_timeout: None,
        git_repo_path: Some("/repo".to_string()),
        git_remote: None,
        git_branch: None,
        docker_compose_file: Some("/srv/docker-compose.yml".to_string()),
        docker_containers: Some(" web, ,db ,".to_string()),
        docker_socket: None,
    }
}

#[test]
fn load_applies_defaults() {
    let c = Config::load(source(), true, true).unwrap();
    assert_eq!(c.server.host, "127.0.0.1");
    assert_eq!(c.server.port, 3000);
    assert_eq!(c.auth.session_timeout, 3600);
    assert_eq!(c.git.remote, "origin");
    assert_eq!(c.git.branch, "main");
    assert_eq!(c.docker.containers, vec!["web".to_string(), "db".to_string()]);
    assert_eq!(c.docker.socket, "unix:///var/run/docker.sock");
    assert_eq!(default_session_timeout(), 3600);
    assert_eq!(default_git_remote(), "origin");
    assert_eq!(default_git_branch(), "main");
    assert_eq!(default_docker_socket(), "unix:///var/run/docker.sock");
}

#[test]
fn load_reports_errors_in_order() {
    let mut s = source();
    s.server_port = Some("70000".to_string());
    s.dashboard_password = None;
    let e = Config::load(s, true, true).unwrap_err();
    assert!(e.message().starts_with("Invalid SERVER_PORT: "));

    let mut s = source();
    s.dashboard_password = None;
    assert_eq!(Config::load(s, true, true).unwrap_err().message(), "DASHBOARD_PASSWORD must be set in environment");

    let mut s = source();
    s.session_timeout = Some("soon".to_string());
    assert!(Config::load(s, true, true).unwrap_err().message().starts_with("Invalid SESSION_TIMEOUT: "));

    let mut s = source();
    s.docker_containers = None;
    assert_eq!(Config::load(s, true, true).unwrap_err().message(), "DOCKER_CONTAINERS must be set in environment");
}

#[test]
fn load_validates() {
    let mut s = source();
    s.dashboard_password = Some("   ".to_string());
    assert_eq!(Config::load(s, true, true).unwrap_err().message(), "Dashboard password cannot be empty");

    let mut s = source();
    s.server_port = Some("0".to_string());
    assert_eq!(Config::load(s, true, true).unwrap_err().message(), "Server port must be greater than 0");

    let mut s = source();
    s.session_timeout = Some("-5".to_string());
    assert_eq!(Config::load(s, true, true).unwrap_err().message(), "Session timeout must be greater than 0");

    assert_eq!(Config::load(source(), false, true).unwrap_err().message(), "Git repository path does not exist: /repo");
    assert_eq!(
        Config::load(source(), true, false).unwrap_err().message(),
        "Docker compose file does not exist: /srv/docker-compose.yml"
    );

    let mut s = source();
    s.docker_containers = Some(" , ".to_string());
    assert_eq!(Config::load(s, true, true).unwrap_err().to_string(), "Configuration error: At least one Docker container must be specified");

    let mut s = source();
    s.server_port = Some("+8080".to_string());
    assert_eq!(Config::load(s, true, true).unwrap().server.port, 8080);
}
