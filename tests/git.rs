use github_monitor::command::CommandOutput;
use github_monitor::git::GitManager;

fn ran(success: bool, stdout: &str, stderr: &str) -> Result<CommandOutput, String> {
    Ok(CommandOutput { success, stdout: stdout.to_string(), stderr: stderr.to_string() })
}

#[test]
fn test_parse_files_changed() {
    let manager = GitManager::new("/tmp".to_string(), "origin".to_string(), "main".to_string());

    let output1 = " 3 files changed, 42 insertions(+), 7 deletions(-)";
    assert_eq!(manager.parse_files_changed(output1), 3);

    let output2 = " 1 file changed, 5 insertions(+)";
    assert_eq!(manager.parse_files_changed(output2), 1);

    let output3 = "Already up to date.";
    assert_eq!(manager.parse_files_changed(output3), 0);
}

#[test]
fn files_changed_in_multiline_output() {
    let manager = GitManager::new("/tmp".to_string(), "origin".to_string(), "main".to_string());
    let out = "Updating 1a2b..3c4d\nFast-forward\n src/main.rs | 4 ++--\n 12 files changed, 4 insertions(+)\n";
    assert_eq!(manager.parse_files_changed(out), 12);
    assert_eq!(manager.parse_files_changed("x files changed\n 2 files changed"), 2);
}

#[test]
fn status_compares_commits() {
    let g = GitManager::new("/repo".to_string(), "origin".to_string(), "main".to_string());
    let s = g
        .get_status(ran(true, "abc123\n", ""), ran(true, " def456 \n", ""), ran(true, "main\n", ""))
        .unwrap();
    assert_eq!(s.local_commit, "abc123");
    assert_eq!(s.remote_commit, "def456");
    assert!(s.updates_available);
    assert_eq!(s.current_branch, "main");
    let same = g
        .get_status(ran(true, "abc\n", ""), ran(true, "abc\n", ""), ran(true, "dev\n", ""))
        .unwrap();
    assert!(!same.updates_available);
}

#[test]
fn status_reports_first_failure() {
    let g = GitManager::new("/repo".to_string(), "origin".to_string(), "main".to_string());
    let e = g
        .get_status(ran(true, "abc\n", ""), ran(false, "", "unknown revision"), Err("unused".to_string()))
        .unwrap_err();
    assert_eq!(e.message(), "Failed to get remote commit for origin/main: unknown revision");
    let e = g
        .get_status(Err("git missing".to_string()), ran(true, "x", ""), ran(true, "y", ""))
        .unwrap_err();
    assert_eq!(e.message(), "Failed to get local commit: git missing");
}

#[test]
fn pull_reads_summary() {
    let g = GitManager::new("/repo".to_string(), "origin".to_string(), "main".to_string());
    let p = g.pull(ran(true, "Already up to date.\n", "")).unwrap();
    assert!(p.already_up_to_date);
    assert_eq!(p.files_changed, 0);
    let p = g.pull(ran(true, " 2 files changed, 3 insertions(+)\n", "")).unwrap();
    assert!(!p.already_up_to_date);
    assert_eq!(p.files_changed, 2);
    let e = g.pull(ran(false, "", "not possible to fast-forward")).unwrap_err();
    assert_eq!(e.to_string(), "Git error: Git pull failed: not possible to fast-forward");
}

#[test]
fn git_commands() {
    let g = GitManager::new("/repo".to_string(), "upstream".to_string(), "dev".to_string());
    let c = g.pull_command();
    assert_eq!(c.program, "git");
    assert_eq!(c.args, vec!["pull", "--ff-only", "upstream", "dev"]);
    assert_eq!(c.dir, "/repo");
    assert_eq!(g.remote_commit_command().args, vec!["rev-parse", "upstream/dev"]);
    assert!(g.fetch(ran(true, "", "")).is_ok());
    assert_eq!(g.fetch(ran(false, "", "no remote")).unwrap_err().message(), "Git fetch failed: no remote");
}

#[test]
fn validate_repository_checks() {
    let g = GitManager::new("/repo".to_string(), "origin".to_string(), "main".to_string());
    assert_eq!(g.validate_repository(false, false, ran(true, "", "")).unwrap_err().message(), "Repository path does not exist: /repo");
    assert_eq!(g.validate_repository(true, false, ran(true, "", "")).unwrap_err().message(), "Not a git repository: /repo");
    assert_eq!(g.validate_repository(true, true, ran(false, "", "")).unwrap_err().message(), "Remote 'origin' not found in repository");
    assert!(g.validate_repository(true, true, ran(true, "git@host:r.git", "")).is_ok());
}
