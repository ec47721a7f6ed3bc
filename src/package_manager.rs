use vstd::prelude::*;
use crate::command::{CommandOutput, ExternalCommand, ExternalCommandView, strings1, strings2, strings4, texts};
use crate::error::{ErrorKind, MonitorError, Result, result_view};
use crate::paths::{file_name, file_name_of};
use crate::text::{ends_with_text, has_prefix, has_suffix, starts_with_text, str_equal};

verus! {

/// Which Python dependency descriptor a project uses.
#[derive(Clone, Copy, Debug, PartialEq, Eq, Structural)]
pub enum DependencyFile {
    RequirementsTxt,
    PyprojectToml,
    SetupPy,
}

/// Whether a file name is one of the Python dependency descriptors:
/// `requirements.txt`, `pyproject.toml`, `setup.py`, `setup.cfg`, `Pipfile`,
/// `Pipfile.lock`, or any `requirements*.txt`.
pub open spec fn is_dependency_name(name: Seq<char>) -> bool {
    name == "requirements.txt"@ || name == "pyproject.toml"@ || name == "setup.py"@ || name
        == "setup.cfg"@ || name == "Pipfile"@ || name == "Pipfile.lock"@ || (has_prefix(
        name,
        "requirements"@,
    ) && has_suffix(name, ".txt"@))
}

/// The file name of a path, empty when it has none.
pub open spec fn file_name_or_empty(path: Seq<char>) -> Seq<char> {
    match file_name_of(path) {
        Some(n) => n,
        None => Seq::empty(),
    }
}

/// Whether some changed path names a dependency descriptor.
pub open spec fn touches_dependencies(changed: Seq<String>) -> bool {
    exists|i: int| 0 <= i < changed.len() && is_dependency_name(file_name_or_empty(#[trigger] changed[i]@))
}

/// Manages the Python packages of the supervised application with the `uv` tool.
pub struct PackageManager {
    venv_path: Option<String>,
    working_dir: String,
}

impl PackageManager {
    pub closed spec fn spec_working_dir(&self) -> Seq<char> {
        self.working_dir@
    }

    pub closed spec fn spec_venv_path(&self) -> Option<Seq<char>> {
        match self.venv_path {
            Some(v) => Some(v@),
            None => None,
        }
    }

    pub fn new(venv_path: Option<String>, working_dir: String) -> (r: PackageManager)
        ensures
            r.spec_working_dir() == working_dir@,
            r.spec_venv_path() == (match venv_path {
                Some(v) => Some(v@),
                None => None::<Seq<char>>,
            }),
    {
        PackageManager { venv_path, working_dir }
    }

    /// Whether `name` (a bare file name) is a Python dependency descriptor.
    pub fn is_dependency_file_name(name: &str) -> (r: bool)
        ensures
            r == is_dependency_name(name@),
    {
        str_equal(name, "requirements.txt") || str_equal(name, "pyproject.toml") || str_equal(
            name,
            "setup.py",
        ) || str_equal(name, "setup.cfg") || str_equal(name, "Pipfile") || str_equal(
            name,
            "Pipfile.lock",
        ) || (starts_with_text(name, "requirements") && ends_with_text(name, ".txt"))
    }

    /// Whether any of the changed paths is a dependency descriptor, judged by its
    /// file name.
    pub fn detect_dependency_changes(&self, changed_files: &[String]) -> (r: Result<bool>)
        ensures
            r matches Ok(b) && b == touches_dependencies(changed_files@),
    {
        let mut i: usize = 0;
        while i < changed_files.len()
            invariant
                i <= changed_files@.len(),
                forall|j: int|
                    0 <= j < i ==> !is_dependency_name(file_name_or_empty(#[trigger] changed_files@[j]@)),
            decreases changed_files.len() - i,
        {
            let name = match file_name(changed_files[i].as_str()) {
                Some(n) => n,
                None => String::new(),
            };
            if Self::is_dependency_file_name(name.as_str()) {
                assert(is_dependency_name(file_name_or_empty(changed_files@[i as int]@)));
                return Ok(true);
            }
            i = i + 1;
        }
        Ok(false)
    }

    /// Which descriptor to install from, given which files exist in the working
    /// directory: `pyproject.toml` first, then `requirements.txt`, then `setup.py`.
    pub fn find_dependency_file(&self, has_pyproject: bool, has_requirements: bool, has_setup_py: bool) -> (r:
        Result<DependencyFile>)
        ensures
            has_pyproject ==> (r matches Ok(f) && f == DependencyFile::PyprojectToml),
            !has_pyproject && has_requirements ==> (r matches Ok(f) && f == DependencyFile::RequirementsTxt),
            !has_pyproject && !has_requirements && has_setup_py ==> (r matches Ok(f) && f
                == DependencyFile::SetupPy),
            !has_pyproject && !has_requirements && !has_setup_py ==> (r matches Err(e) && e@ == (
                ErrorKind::PackageManager,
                "No Python dependency file found (pyproject.toml, requirements.txt, or setup.py)"@,
            )),
    {
        if has_pyproject {
            Ok(DependencyFile::PyprojectToml)
        } else if has_requirements {
            Ok(DependencyFile::RequirementsTxt)
        } else if has_setup_py {
            Ok(DependencyFile::SetupPy)
        } else {
            Err(
                MonitorError::PackageManager(
                    "No Python dependency file found (pyproject.toml, requirements.txt, or setup.py)".to_string(),
                ),
            )
        }
    }
}

impl DependencyFile {
    /// The arguments of `uv` that install from this descriptor.
    pub open spec fn spec_install_args(self) -> Seq<Seq<char>> {
        match self {
            DependencyFile::RequirementsTxt => seq!["pip"@, "install"@, "-r"@, "requirements.txt"@],
            DependencyFile::PyprojectToml => seq!["sync"@],
            DependencyFile::SetupPy => seq!["pip"@, "install"@, "-e"@, "."@],
        }
    }

    pub fn install_args(&self) -> (r: Vec<String>)
        ensures
            texts(r@) == self.spec_install_args(),
    {
        match self {
            DependencyFile::RequirementsTxt => strings4("pip", "install", "-r", "requirements.txt"),
            DependencyFile::PyprojectToml => strings1("sync"),
            DependencyFile::SetupPy => strings4("pip", "install", "-e", "."),
        }
    }
}

/// The virtual environment directory: the configured path itself when absolute,
/// otherwise that path under the working directory.
pub open spec fn venv_dir_of(working_dir: Seq<char>, venv: Seq<char>) -> Seq<char> {
    if has_prefix(venv, "/"@) {
        venv
    } else if working_dir.len() == 0 || has_suffix(working_dir, "/"@) {
        working_dir + venv
    } else {
        working_dir + "/"@ + venv
    }
}

/// What a `uv` run gives, with `action` naming it in the error of a failed run.
pub open spec fn uv_outcome(ran: core::result::Result<CommandOutput, String>, action: Seq<char>) -> core::result::Result<
    (),
    (ErrorKind, Seq<char>),
> {
    match ran {
        Err(e) => Err((ErrorKind::PackageManager, "Failed to execute uv command: "@ + e@)),
        Ok(o) => if o.success {
            Ok(())
        } else {
            Err((ErrorKind::PackageManager, "Failed to "@ + action + ": "@ + o.stderr@))
        },
    }
}

impl PackageManager {
    /// `uv <args>` in the working directory. When a virtual environment is
    /// configured, the caller runs it with `VIRTUAL_ENV` set to `venv_dir` and that
    /// directory's `bin` first on `PATH`.
    pub fn uv_command(&self, args: Vec<String>) -> (r: ExternalCommand)
        ensures
            r@ == (ExternalCommandView { program: "uv"@, args: texts(args@), dir: self.spec_working_dir() }),
    {
        ExternalCommand { program: "uv".to_string(), args, dir: self.working_dir.clone() }
    }

    /// `uv --version`: whether the tool is installed.
    pub fn version_check_command(&self) -> (r: ExternalCommand)
        ensures
            r@ == (ExternalCommandView { program: "uv"@, args: seq!["--version"@], dir: self.spec_working_dir() }),
    {
        self.uv_command(strings1("--version"))
    }

    /// `uv sync`: brings the environment in line with the descriptor.
    pub fn sync_command(&self) -> (r: ExternalCommand)
        ensures
            r@ == (ExternalCommandView { program: "uv"@, args: seq!["sync"@], dir: self.spec_working_dir() }),
    {
        self.uv_command(strings1("sync"))
    }

    /// `uv pip list`: checks that the environment can be read.
    pub fn list_command(&self) -> (r: ExternalCommand)
        ensures
            r@ == (ExternalCommandView { program: "uv"@, args: seq!["pip"@, "list"@], dir: self.spec_working_dir() }),
    {
        self.uv_command(strings2("pip", "list"))
    }

    /// Whether `uv` is available, from what `version_check_command` left behind.
    pub fn uv_available(&self, ran: core::result::Result<CommandOutput, String>) -> (r: Result<()>)
        ensures
            result_view(r) == match ran {
                Err(e) => Err((ErrorKind::PackageManager, "UV package manager not found. Please install uv: "@ + e@)),
                Ok(o) => if o.success {
                    Ok(())
                } else {
                    Err((ErrorKind::PackageManager, "UV package manager is not properly installed"@))
                },
            },
    {
        match ran {
            Err(e) => {
                let mut m = "UV package manager not found. Please install uv: ".to_string();
                m.append(e.as_str());
                Err(MonitorError::PackageManager(m))
            },
            Ok(o) => if o.success {
                Ok(())
            } else {
                Err(MonitorError::PackageManager("UV package manager is not properly installed".to_string()))
            },
        }
    }

    /// The result of a `uv` run; `action` names it in the error ("sync packages",
    /// "install packages", "validate installation").
    pub fn uv_result(&self, ran: core::result::Result<CommandOutput, String>, action: &str) -> (r: Result<()>)
        ensures
            result_view(r) == uv_outcome(ran, action@),
    {
        match ran {
            Err(e) => {
                let mut m = "Failed to execute uv command: ".to_string();
                m.append(e.as_str());
                Err(MonitorError::PackageManager(m))
            },
            Ok(o) => if o.success {
                Ok(())
            } else {
                let mut m = "Failed to ".to_string();
                m.append(action);
                m.append(": ");
                m.append(o.stderr.as_str());
                Err(MonitorError::PackageManager(m))
            },
        }
    }

    /// The virtual environment directory, when one is configured.
    pub fn venv_dir(&self) -> (r: Option<String>)
        ensures
            match self.spec_venv_path() {
                Some(v) => r matches Some(d) && d@ == venv_dir_of(self.spec_working_dir(), v),
                None => r is None,
            },
    {
        match &self.venv_path {
            None => None,
            Some(v) => {
                if starts_with_text(v.as_str(), "/") {
                    Some(v.clone())
                } else if self.working_dir.as_str().unicode_len() == 0 || ends_with_text(
                    self.working_dir.as_str(),
                    "/",
                ) {
                    let mut d = self.working_dir.clone();
                    d.append(v.as_str());
                    Some(d)
                } else {
                    let mut d = self.working_dir.clone();
                    d.append("/");
                    d.append(v.as_str());
                    Some(d)
                }
            },
        }
    }
}

} // verus!
