use github_monitor::webhook::{Commit, Repository, WebhookPayload, WebhookServer};

fn commit(id: &str, added: &[&str], modified: &[&str], removed: &[&str]) -> Commit {
    let list = |v: &[&str]| v.iter().map(|s| s.to_string()).collect::<Vec<String>>();
    Commit {
        id: id.to_string(),
        message: "change".to_string(),
        added: list(added),
        modified: list(modified),
        removed: list(removed),
    }
}

fn push(git_ref: &str, commits: Vec<Commit>) -> WebhookPayload {
    WebhookPayload {
        git_ref: git_ref.to_string(),
        repository: Repository {
            full_name: "acme/app".to_string(),
            clone_url: "https://example.com/acme/app.git".to_string(),
        },
        commits,
    }
}

#[test]
fn payload_merges_and_sorts_paths() {
    let server = WebhookServer::new("s3cret".to_string());
    let p = push(
        "refs/heads/main",
        vec![
            commit("aaaaaaa1", &["b.py", "a.py"], &["setup.py"], &[]),
            commit("bbbbbbb2", &["a.py", "c.py"], &["setup.py", "README.md"], &["old.py"]),
        ],
    );
    let out = server.process_payload(p).unwrap();
    assert_eq!(out.branch, "main");
    assert_eq!(out.repository, "acme/app");
    assert_eq!(out.added_files, vec!["a.py", "b.py", "c.py"]);
    assert_eq!(out.modified_files, vec!["README.md", "setup.py"]);
    assert_eq!(out.removed_files, vec!["old.py"]);
}

#[test]
fn payload_needs_branch_ref() {
    let server = WebhookServer::new("s3cret".to_string());
    let e = server.process_payload(push("refs/tags/v1", vec![])).err().unwrap();
    assert_eq!(e.message(), "Invalid git ref format: refs/tags/v1");
}

#[test]
fn signature_known_vector() {
    // HMAC-SHA256 with key "Jefe" over "what do ya want for nothing?".
    let server = WebhookServer::new("Jefe".to_string());
    let body = b"what do ya want for nothing?";
    let good = "sha256=5bdcc146bf60754e6a042426089575c75a003f089d2739839dec58b964ec3843";
    assert_eq!(server.validate_signature(body, good).unwrap(), true);
    let bad = "sha256=0000c146bf60754e6a042426089575c75a003f089d2739839dec58b964ec3843";
    assert_eq!(server.validate_signature(body, bad).unwrap(), false);
    let e = server.validate_signature(body, "md5=abc").unwrap_err();
    assert_eq!(e.message(), "Invalid signature format");
}

#[test]
fn signature_matches_tag() {
    let tag = [0x01u8, 0xab, 0xff];
    assert_eq!(WebhookServer::signature_matches(&tag, "sha256=01abff").unwrap(), true);
    assert_eq!(WebhookServer::signature_matches(&tag, "sha256=01ABFF").unwrap(), false);
    assert!(WebhookServer::signature_matches(&tag, "01abff").is_err());
}
