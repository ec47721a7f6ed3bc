use vstd::prelude::*;
use crate::command::texts;
use crate::error::{ErrorKind, MonitorError, Result, result_view, success_view};
use crate::text::{
    all_digits, digits_value, parse_usize_of, split_on, split_on_of, text_or_empty, trim_space,
    trim_text,
};

verus! {

/// The monitor's whole configuration.
#[derive(Clone, Debug)]
pub struct Config {
    pub server: ServerConfig,
    pub auth: AuthenticationConfig,
    pub git: GitConfig,
    pub docker: DockerConfig,
}

/// Where the dashboard listens.
#[derive(Clone, Debug)]
pub struct ServerConfig {
    pub host: String,
    pub port: u16,
}

/// Dashboard authentication: the password (plain text, hashed on start) and the
/// session timeout in seconds.
#[derive(Clone, Debug)]
pub struct AuthenticationConfig {
    pub password: String,
    pub session_timeout: i64,
}

/// The working copy to keep up to date and the branch it tracks.
#[derive(Clone, Debug)]
pub struct GitConfig {
    pub repo_path: String,
    pub remote: String,
    pub branch: String,
}

/// The compose descriptor, the containers to manage and the runtime's socket.
#[derive(Clone, Debug)]
pub struct DockerConfig {
    pub compose_file: String,
    pub containers: Vec<String>,
    pub socket: String,
}

/// The raw configuration values, each `None` when its variable is unset:
/// `SERVER_HOST`, `SERVER_PORT`, `DASHBOARD_PASSWORD`, `SESSION_TIMEOUT`,
/// `GIT_REPO_PATH`, `GIT_REMOTE`, `GIT_BRANCH`, `DOCKER_COMPOSE_FILE`,
/// `DOCKER_CONTAINERS` and `DOCKER_SOCKET`.
#[derive(Clone, Debug)]
pub struct ConfigSource {
    pub server_host: Option<String>,
    pub server_port: Option<String>,
    pub dashboard_password: Option<String>,
    pub session_timeout: Option<String>,
    pub git_repo_path: Option<String>,
    pub git_remote: Option<String>,
    pub git_branch: Option<String>,
    pub docker_compose_file: Option<String>,
    pub docker_containers: Option<String>,
    pub docker_socket: Option<String>,
}

/// One hour.
pub fn default_session_timeout() -> (r: i64)
    ensures
        r == 3600,
{
    3600
}

pub fn default_git_remote() -> (r: String)
    ensures
        r@ == "origin"@,
{
    "origin".to_string()
}

pub fn default_git_branch() -> (r: String)
    ensures
        r@ == "main"@,
{
    "main".to_string()
}

pub fn default_docker_socket() -> (r: String)
    ensures
        r@ == "unix:///var/run/docker.sock"@,
{
    "unix:///var/run/docker.sock".to_string()
}

/// The value of a variable, or `default` when it is unset.
pub open spec fn value_or(v: Option<String>, default: Seq<char>) -> Seq<char> {
    match v {
        Some(s) => s@,
        None => default,
    }
}

fn value_or_default(v: &Option<String>, default: &str) -> (r: String)
    ensures
        r@ == value_or(*v, default@),
{
    match v {
        Some(s) => s.clone(),
        None => default.to_string(),
    }
}

/// What std's `str::parse::<i64>` gives: an optional sign followed by at least one
/// decimal digit and nothing else, whose value fits in `i64`.
pub open spec fn parse_i64_of(s: Seq<char>) -> Option<i64> {
    let negative = s.len() > 0 && s[0] == '-';
    let body = if s.len() > 0 && (s[0] == '+' || s[0] == '-') {
        s.drop_first()
    } else {
        s
    };
    let value: int = if negative {
        -digits_value(body)
    } else {
        digits_value(body) as int
    };
    if body.len() > 0 && all_digits(body) && i64::MIN <= value <= i64::MAX {
        Some(value as i64)
    } else {
        None
    }
}

/// What std's `str::parse::<u16>` gives.
pub open spec fn parse_u16_of(s: Seq<char>) -> Option<u16> {
    match parse_usize_of(s) {
        Some(v) => if v <= u16::MAX {
            Some(v as u16)
        } else {
            None
        },
        None => None,
    }
}

/// Relies on std's `str::parse::<u16>`: an optional `+` and decimal digits whose
/// value fits, anything else an error described by its text.
#[verifier::external_body]
fn parse_u16(s: &str) -> (r: core::result::Result<u16, String>)
    ensures
        match r {
            Ok(v) => parse_u16_of(s@) == Some(v),
            Err(_) => parse_u16_of(s@) is None,
        },
{
    match s.parse::<u16>() {
        Ok(v) => Ok(v),
        Err(e) => Err(e.to_string()),
    }
}

/// Relies on std's `str::parse::<i64>`: an optional sign and decimal digits whose
/// value fits, anything else an error described by its text.
#[verifier::external_body]
fn parse_i64(s: &str) -> (r: core::result::Result<i64, String>)
    ensures
        match r {
            Ok(v) => parse_i64_of(s@) == Some(v),
            Err(_) => parse_i64_of(s@) is None,
        },
{
    match s.parse::<i64>() {
        Ok(v) => Ok(v),
        Err(e) => Err(e.to_string()),
    }
}

/// The container names of a comma-separated list: each piece trimmed, empty ones
/// dropped.
pub open spec fn container_list_of(s: Seq<char>) -> Seq<Seq<char>> {
    split_on_of(s, ',').map_values(|p: Seq<char>| trim_space(p)).filter(|p: Seq<char>| p.len() > 0)
}

/// The container names of a comma-separated list.
pub fn parse_container_list(s: &str) -> (r: Vec<String>)
    ensures
        texts(r@) == container_list_of(s@),
{
    let pieces = split_on(s, ',');
    let ghost all = texts(pieces@).map_values(|p: Seq<char>| trim_space(p));
    let ghost keep = |p: Seq<char>| p.len() > 0;
    let mut names: Vec<String> = Vec::new();
    let mut i: usize = 0;
    while i < pieces.len()
        invariant
            i <= pieces.len(),
            texts(pieces@) == split_on_of(s@, ','),
            all == texts(pieces@).map_values(|p: Seq<char>| trim_space(p)),
            keep == (|p: Seq<char>| p.len() > 0),
            texts(names@) == all.take(i as int).filter(keep),
        decreases pieces.len() - i,
    {
        let name = trim_text(pieces[i].as_str());
        proof {
            reveal(Seq::filter);
            assert(all.take(i + 1).drop_last() =~= all.take(i as int));
            assert(all[i as int] == name@);
        }
        if name.as_str().unicode_len() > 0 {
            let ghost before = names@;
            names.push(name);
            assert(texts(names@) =~= texts(before).push(all[i as int]));
        }
        i = i + 1;
    }
    assert(all.take(i as int) =~= all);
    names
}

fn config_error(text: &str) -> (r: MonitorError)
    ensures
        r@ == (ErrorKind::Config, text@),
{
    MonitorError::Config(text.to_string())
}

fn invalid(prefix: &str, detail: &str) -> (r: MonitorError)
    ensures
        r@ == (ErrorKind::Config, prefix@ + detail@),
        r@.1.subrange(0, prefix@.len() as int) == prefix@,
        prefix@.len() <= r@.1.len(),
{
    let mut m = prefix.to_string();
    m.append(detail);
    assert((prefix@ + detail@).subrange(0, prefix@.len() as int) =~= prefix@);
    MonitorError::Config(m)
}

/// The checks of a configuration: a nonzero port, a password that is not blank, a
/// positive session timeout, an existing repository path and compose file, and at
/// least one container; the first check that fails gives the error.
pub open spec fn validation_outcome(
    port: u16,
    password: Seq<char>,
    session_timeout: i64,
    repo_path: Seq<char>,
    repo_path_exists: bool,
    compose_file: Seq<char>,
    compose_file_exists: bool,
    container_count: nat,
) -> core::result::Result<(), (ErrorKind, Seq<char>)> {
    if port == 0 {
        Err((ErrorKind::Config, "Server port must be greater than 0"@))
    } else if trim_space(password).len() == 0 {
        Err((ErrorKind::Config, "Dashboard password cannot be empty"@))
    } else if session_timeout <= 0 {
        Err((ErrorKind::Config, "Session timeout must be greater than 0"@))
    } else if !repo_path_exists {
        Err((ErrorKind::Config, "Git repository path does not exist: "@ + repo_path))
    } else if !compose_file_exists {
        Err((ErrorKind::Config, "Docker compose file does not exist: "@ + compose_file))
    } else if container_count == 0 {
        Err((ErrorKind::Config, "At least one Docker container must be specified"@))
    } else {
        Ok(())
    }
}

/// The port that the source configures, if its text parses.
pub open spec fn port_of(source: ConfigSource) -> Option<u16> {
    parse_u16_of(value_or(source.server_port, "3000"@))
}

/// The session timeout that the source configures, if its text parses.
pub open spec fn timeout_of(source: ConfigSource) -> Option<i64> {
    parse_i64_of(value_or(source.session_timeout, "3600"@))
}

/// Whether every required value is set and every number parses.
pub open spec fn all_present(source: ConfigSource) -> bool {
    &&& port_of(source) is Some
    &&& source.dashboard_password is Some
    &&& timeout_of(source) is Some
    &&& source.git_repo_path is Some
    &&& source.docker_compose_file is Some
    &&& source.docker_containers is Some
}

/// Whether `r` is a configuration error whose message starts with `prefix`.
pub open spec fn is_config_error_with_prefix<T>(r: Result<T>, prefix: Seq<char>) -> bool {
    r is Err && r->Err_0@.0 == ErrorKind::Config && prefix.len() <= r->Err_0@.1.len()
        && r->Err_0@.1.subrange(0, prefix.len() as int) == prefix
}

impl Config {
    /// Builds the configuration from its raw values and validates it. Unset
    /// optional values take their defaults (`127.0.0.1`, `3000`, `3600`, `origin`,
    /// `main`, the local runtime socket); unset required ones, values that do not
    /// parse, and a configuration that `validate` refuses are errors, checked in
    /// that order of the variables. The existence flags tell whether the values of
    /// `GIT_REPO_PATH` and `DOCKER_COMPOSE_FILE` name existing paths.
    pub fn load(source: ConfigSource, repo_path_exists: bool, compose_file_exists: bool) -> (r: Result<
        Config,
    >)
        ensures
            port_of(source) is None ==> is_config_error_with_prefix(r, "Invalid SERVER_PORT: "@),
            port_of(source) is Some && source.dashboard_password is None ==> (r is Err
                && r->Err_0@ == (ErrorKind::Config, "DASHBOARD_PASSWORD must be set in environment"@)),
            port_of(source) is Some && source.dashboard_password is Some && timeout_of(source) is None
                ==> is_config_error_with_prefix(r, "Invalid SESSION_TIMEOUT: "@),
            port_of(source) is Some && source.dashboard_password is Some && timeout_of(source) is Some
                && source.git_repo_path is None ==> (r is Err && r->Err_0@ == (
                ErrorKind::Config,
                "GIT_REPO_PATH must be set in environment"@,
            )),
            port_of(source) is Some && source.dashboard_password is Some && timeout_of(source) is Some
                && source.git_repo_path is Some && source.docker_compose_file is None ==> (r is Err
                && r->Err_0@ == (ErrorKind::Config, "DOCKER_COMPOSE_FILE must be set in environment"@)),
            port_of(source) is Some && source.dashboard_password is Some && timeout_of(source) is Some
                && source.git_repo_path is Some && source.docker_compose_file is Some
                && source.docker_containers is None ==> (r is Err && r->Err_0@ == (
                ErrorKind::Config,
                "DOCKER_CONTAINERS must be set in environment"@,
            )),
            all_present(source) ==> success_view(r) == validation_outcome(
                port_of(source)->Some_0,
                text_or_empty(source.dashboard_password),
                timeout_of(source)->Some_0,
                text_or_empty(source.git_repo_path),
                repo_path_exists,
                text_or_empty(source.docker_compose_file),
                compose_file_exists,
                container_list_of(text_or_empty(source.docker_containers)).len(),
            ),
            r is Ok ==> all_present(source) && r->Ok_0.server.host@ == value_or(
                source.server_host,
                "127.0.0.1"@,
            ) && r->Ok_0.server.port == port_of(source)->Some_0 && r->Ok_0.auth.password@
                == text_or_empty(source.dashboard_password) && r->Ok_0.auth.session_timeout
                == timeout_of(source)->Some_0 && r->Ok_0.git.repo_path@ == text_or_empty(
                source.git_repo_path,
            ) && r->Ok_0.git.remote@ == value_or(source.git_remote, "origin"@) && r->Ok_0.git.branch@
                == value_or(source.git_branch, "main"@) && r->Ok_0.docker.compose_file@
                == text_or_empty(source.docker_compose_file) && texts(r->Ok_0.docker.containers@)
                == container_list_of(text_or_empty(source.docker_containers))
                && r->Ok_0.docker.socket@ == value_or(
                source.docker_socket,
                "unix:///var/run/docker.sock"@,
            ),
    {
        let host = value_or_default(&source.server_host, "127.0.0.1");
        let port_text = value_or_default(&source.server_port, "3000");
        let port = match parse_u16(port_text.as_str()) {
            Ok(p) => p,
            Err(e) => {
                return Err(invalid("Invalid SERVER_PORT: ", e.as_str()));
            },
        };
        let password = match &source.dashboard_password {
            Some(p) => p.clone(),
            None => {
                return Err(config_error("DASHBOARD_PASSWORD must be set in environment"));
            },
        };
        let timeout_text = value_or_default(&source.session_timeout, "3600");
        let session_timeout = match parse_i64(timeout_text.as_str()) {
            Ok(t) => t,
            Err(e) => {
                return Err(invalid("Invalid SESSION_TIMEOUT: ", e.as_str()));
            },
        };
        let repo_path = match &source.git_repo_path {
            Some(p) => p.clone(),
            None => {
                return Err(config_error("GIT_REPO_PATH must be set in environment"));
            },
        };
        let remote = value_or_default(&source.git_remote, "origin");
        let branch = value_or_default(&source.git_branch, "main");
        let compose_file = match &source.docker_compose_file {
            Some(f) => f.clone(),
            None => {
                return Err(config_error("DOCKER_COMPOSE_FILE must be set in environment"));
            },
        };
        let containers = match &source.docker_containers {
            Some(l) => parse_container_list(l.as_str()),
            None => {
                return Err(config_error("DOCKER_CONTAINERS must be set in environment"));
            },
        };
        let socket = value_or_default(&source.docker_socket, "unix:///var/run/docker.sock");
        let config = Config {
            server: ServerConfig { host, port },
            auth: AuthenticationConfig { password, session_timeout },
            git: GitConfig { repo_path, remote, branch },
            docker: DockerConfig { compose_file, containers, socket },
        };
        match config.validate(repo_path_exists, compose_file_exists) {
            Ok(()) => Ok(config),
            Err(e) => Err(e),
        }
    }

    pub open spec fn spec_validate(&self, repo_path_exists: bool, compose_file_exists: bool) -> core::result::Result<
        (),
        (ErrorKind, Seq<char>),
    > {
        validation_outcome(
            self.server.port,
            self.auth.password@,
            self.auth.session_timeout,
            self.git.repo_path@,
            repo_path_exists,
            self.docker.compose_file@,
            compose_file_exists,
            self.docker.containers@.len(),
        )
    }

    /// Checks the configuration; the existence flags tell whether the repository
    /// path and the compose file exist.
    pub fn validate(&self, repo_path_exists: bool, compose_file_exists: bool) -> (r: Result<()>)
        ensures
            result_view(r) == self.spec_validate(repo_path_exists, compose_file_exists),
    {
        if self.server.port == 0 {
            return Err(MonitorError::Config("Server port must be greater than 0".to_string()));
        }
        if trim_text(self.auth.password.as_str()).as_str().unicode_len() == 0 {
            return Err(MonitorError::Config("Dashboard password cannot be empty".to_string()));
        }
        if self.auth.session_timeout <= 0 {
            return Err(MonitorError::Config("Session timeout must be greater than 0".to_string()));
        }
        if !repo_path_exists {
            let mut m = "Git repository path does not exist: ".to_string();
            m.append(self.git.repo_path.as_str());
            return Err(MonitorError::Config(m));
        }
        if !compose_file_exists {
            let mut m = "Docker compose file does not exist: ".to_string();
            m.append(self.docker.compose_file.as_str());
            return Err(MonitorError::Config(m));
        }
        if self.docker.containers.len() == 0 {
            return Err(MonitorError::Config("At least one Docker container must be specified".to_string()));
        }
        Ok(())
    }
}

} // verus!
