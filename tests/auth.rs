use github_monitor::auth::{hash_password, password_check, verify_password};
use github_monitor::dashboard::{short_commit, status_class, ContainerDisplay};
use github_monitor::docker::{ContainerInfo, ContainerStatus};

#[test]
fn test_password_hashing() {
    let password = "test_password_123";
    let hash = hash_password(password).expect("Failed to hash password");

    // Hash should not be empty
    assert!(!hash.is_empty());

    // Hash should start with bcrypt prefix
    assert!(hash.starts_with("$2"));

    // Verify correct password
    assert!(verify_password(password, &hash).expect("Failed to verify password"));

    // Verify incorrect password
    assert!(!verify_password("wrong_password", &hash).expect("Failed to verify password"));
}

#[test]
fn malformed_hash_is_an_error() {
    let e = verify_password("pw", "not-a-hash").unwrap_err();
    assert!(e.message().starts_with("Failed to verify password: "));
    assert_eq!(password_check(Ok(true)).unwrap(), true);
    assert_eq!(password_check(Err("bad".to_string())).unwrap_err().message(), "Failed to verify password: bad");
}

#[test]
fn dashboard_display() {
    let info = ContainerInfo { name: "web".to_string(), status: ContainerStatus::Dead, image: "nginx".to_string() };
    let d = ContainerDisplay::from_info(info);
    assert_eq!(d.status, "dead");
    assert_eq!(d.status_class, "error");
    assert_eq!(status_class(ContainerStatus::Stopped), "stopped");
    assert_eq!(short_commit("0123456789abcdef"), "01234567");
    assert_eq!(short_commit("abc"), "abc");
}
