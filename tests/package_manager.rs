use github_monitor::command::CommandOutput;
use github_monitor::package_manager::{DependencyFile, PackageManager};

#[test]
fn detects_dependency_files() {
    let pm = PackageManager::new(None, "/srv/app".to_string());
    let changed = vec!["src/main.py".to_string(), "docs/requirements-dev.txt".to_string()];
    assert_eq!(pm.detect_dependency_changes(&changed).unwrap(), true);
    let changed = vec!["src/main.py".to_string(), "README.md".to_string()];
    assert_eq!(pm.detect_dependency_changes(&changed).unwrap(), false);
    let changed = vec!["backend/Pipfile.lock".to_string()];
    assert_eq!(pm.detect_dependency_changes(&changed).unwrap(), true);
    let changed = vec!["requirements/".to_string(), "..".to_string()];
    assert_eq!(pm.detect_dependency_changes(&changed).unwrap(), false);
    assert_eq!(pm.detect_dependency_changes(&[]).unwrap(), false);
    assert!(PackageManager::is_dependency_file_name("requirements.txt"));
    assert!(!PackageManager::is_dependency_file_name("requirements.md"));
}

#[test]
fn dependency_file_priority() {
    let pm = PackageManager::new(None, "/srv/app".to_string());
    assert_eq!(pm.find_dependency_file(true, true, true).unwrap(), DependencyFile::PyprojectToml);
    assert_eq!(pm.find_dependency_file(false, true, true).unwrap(), DependencyFile::RequirementsTxt);
    assert_eq!(pm.find_dependency_file(false, false, true).unwrap(), DependencyFile::SetupPy);
    assert!(pm.find_dependency_file(false, false, false).is_err());
    assert_eq!(DependencyFile::RequirementsTxt.install_args(), vec!["pip", "install", "-r", "requirements.txt"]);
}

#[test]
fn venv_and_uv_results() {
    let pm = PackageManager::new(Some(".venv".to_string()), "/srv/app".to_string());
    assert_eq!(pm.venv_dir(), Some("/srv/app/.venv".to_string()));
    let pm2 = PackageManager::new(Some("/opt/venv".to_string()), "/srv/app".to_string());
    assert_eq!(pm2.venv_dir(), Some("/opt/venv".to_string()));
    let failed = Ok(CommandOutput { success: false, stdout: String::new(), stderr: "lock mismatch".to_string() });
    assert_eq!(pm.uv_result(failed, "sync packages").unwrap_err().message(), "Failed to sync packages: lock mismatch");
    assert_eq!(pm.sync_command().args, vec!["sync"]);
    assert!(pm.uv_available(Err("not found".to_string())).is_err());
}
