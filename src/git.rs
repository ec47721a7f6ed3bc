use vstd::prelude::*;
use crate::command::{
    CommandOutput, ExternalCommand, ExternalCommandView, strings2, strings3, strings4, texts,
};
use crate::error::{ErrorKind, MonitorError, Result, result_view};
use crate::text::{
    contains_seq, contains_text, first_word, first_word_of, parse_usize, parse_usize_of,
    split_newlines, split_newlines_of, trim_space, trim_text,
};

verus! {

/// A git working copy that tracks one branch of one remote.
#[derive(Clone, Debug)]
pub struct GitManager {
    repo_path: String,
    remote: String,
    branch: String,
}

/// Where the working copy stands relative to the tracked remote branch.
#[derive(Clone, Debug)]
pub struct GitStatus {
    pub local_commit: String,
    pub remote_commit: String,
    pub updates_available: bool,
    pub current_branch: String,
}

pub struct GitStatusView {
    pub local_commit: Seq<char>,
    pub remote_commit: Seq<char>,
    pub updates_available: bool,
    pub current_branch: Seq<char>,
}

impl View for GitStatus {
    type V = GitStatusView;

    open spec fn view(&self) -> GitStatusView {
        GitStatusView {
            local_commit: self.local_commit@,
            remote_commit: self.remote_commit@,
            updates_available: self.updates_available,
            current_branch: self.current_branch@,
        }
    }
}

/// What a fast-forward pull did.
#[derive(Clone, Debug)]
pub struct PullResult {
    pub already_up_to_date: bool,
    pub files_changed: usize,
    pub output: String,
}

/// The count a line of pull output reports, when it is a summary line ("N file(s)
/// changed, ...") whose first word is a number.
pub open spec fn line_change_count(line: Seq<char>) -> Option<usize> {
    if contains_seq(line, "file changed"@) || contains_seq(line, "files changed"@) {
        match first_word_of(line) {
            Some(w) => parse_usize_of(w),
            None => None,
        }
    } else {
        None
    }
}

/// The count of the first summary line among `lines`, or 0 without one.
pub open spec fn files_changed_in(lines: Seq<Seq<char>>) -> usize
    decreases lines.len(),
{
    if lines.len() == 0 {
        0
    } else {
        match line_change_count(lines[0]) {
            Some(n) => n,
            None => files_changed_in(lines.drop_first()),
        }
    }
}

/// The trimmed standard output of a git query, or the error it gives: `unrun` is
/// the message prefix for a command that could not be run, `failed` the one for a
/// command that exited unsuccessfully (followed by its standard error).
pub open spec fn query_outcome(
    ran: core::result::Result<CommandOutput, String>,
    unrun: Seq<char>,
    failed: Seq<char>,
) -> core::result::Result<Seq<char>, (ErrorKind, Seq<char>)> {
    match ran {
        Err(e) => Err((ErrorKind::Git, unrun + e@)),
        Ok(o) => if o.success {
            Ok(trim_space(o.stdout@))
        } else {
            Err((ErrorKind::Git, failed + o.stderr@))
        },
    }
}

fn read_query(ran: core::result::Result<CommandOutput, String>, unrun: &str, failed: &str) -> (r:
    Result<String>)
    ensures
        result_view(r) == query_outcome(ran, unrun@, failed@),
{
    match ran {
        Err(e) => {
            let mut m = unrun.to_string();
            m.append(e.as_str());
            Err(MonitorError::Git(m))
        },
        Ok(o) => if o.success {
            Ok(trim_text(o.stdout.as_str()))
        } else {
            let mut m = failed.to_string();
            m.append(o.stderr.as_str());
            Err(MonitorError::Git(m))
        },
    }
}

fn git_command(dir: &String, args: Vec<String>) -> (r: ExternalCommand)
    ensures
        r@ == (ExternalCommandView { program: "git"@, args: texts(args@), dir: dir@ }),
{
    ExternalCommand { program: "git".to_string(), args, dir: dir.clone() }
}

impl GitManager {
    pub closed spec fn spec_repo_path(&self) -> Seq<char> {
        self.repo_path@
    }

    pub closed spec fn spec_remote(&self) -> Seq<char> {
        self.remote@
    }

    pub closed spec fn spec_branch(&self) -> Seq<char> {
        self.branch@
    }

    /// The remote-tracking reference of the branch: `remote/branch`.
    pub open spec fn spec_remote_ref(&self) -> Seq<char> {
        self.spec_remote() + "/"@ + self.spec_branch()
    }

    pub fn new(repo_path: String, remote: String, branch: String) -> (r: GitManager)
        ensures
            r.spec_repo_path() == repo_path@,
            r.spec_remote() == remote@,
            r.spec_branch() == branch@,
    {
        GitManager { repo_path, remote, branch }
    }

    pub fn repo_path(&self) -> (r: &str)
        ensures
            r@ == self.spec_repo_path(),
    {
        self.repo_path.as_str()
    }

    fn remote_ref(&self) -> (r: String)
        ensures
            r@ == self.spec_remote_ref(),
    {
        let mut r = self.remote.clone();
        r.append("/");
        r.append(self.branch.as_str());
        r
    }

    /// `git fetch <remote> <branch>` in the working copy.
    pub fn fetch_command(&self) -> (r: ExternalCommand)
        ensures
            r@ == (ExternalCommandView {
                program: "git"@,
                args: seq!["fetch"@, self.spec_remote(), self.spec_branch()],
                dir: self.spec_repo_path(),
            }),
    {
        git_command(&self.repo_path, strings3("fetch", self.remote.as_str(), self.branch.as_str()))
    }

    /// `git pull --ff-only <remote> <branch>` in the working copy.
    pub fn pull_command(&self) -> (r: ExternalCommand)
        ensures
            r@ == (ExternalCommandView {
                program: "git"@,
                args: seq!["pull"@, "--ff-only"@, self.spec_remote(), self.spec_branch()],
                dir: self.spec_repo_path(),
            }),
    {
        git_command(
            &self.repo_path,
            strings4("pull", "--ff-only", self.remote.as_str(), self.branch.as_str()),
        )
    }

    /// `git rev-parse HEAD`: the local commit.
    pub fn local_commit_command(&self) -> (r: ExternalCommand)
        ensures
            r@ == (ExternalCommandView {
                program: "git"@,
                args: seq!["rev-parse"@, "HEAD"@],
                dir: self.spec_repo_path(),
            }),
    {
        git_command(&self.repo_path, strings2("rev-parse", "HEAD"))
    }

    /// `git rev-parse <remote>/<branch>`: the commit of the remote branch.
    pub fn remote_commit_command(&self) -> (r: ExternalCommand)
        ensures
            r@ == (ExternalCommandView {
                program: "git"@,
                args: seq!["rev-parse"@, self.spec_remote_ref()],
                dir: self.spec_repo_path(),
            }),
    {
        let remote_ref = self.remote_ref();
        git_command(&self.repo_path, strings2("rev-parse", remote_ref.as_str()))
    }

    /// `git rev-parse --abbrev-ref HEAD`: the checked-out branch.
    pub fn current_branch_command(&self) -> (r: ExternalCommand)
        ensures
            r@ == (ExternalCommandView {
                program: "git"@,
                args: seq!["rev-parse"@, "--abbrev-ref"@, "HEAD"@],
                dir: self.spec_repo_path(),
            }),
    {
        git_command(&self.repo_path, strings3("rev-parse", "--abbrev-ref", "HEAD"))
    }

    /// `git remote get-url <remote>`: succeeds when the remote is configured.
    pub fn remote_url_command(&self) -> (r: ExternalCommand)
        ensures
            r@ == (ExternalCommandView {
                program: "git"@,
                args: seq!["remote"@, "get-url"@, self.spec_remote()],
                dir: self.spec_repo_path(),
            }),
    {
        git_command(&self.repo_path, strings3("remote", "get-url", self.remote.as_str()))
    }

    /// The result of a fetch, from what `fetch_command` left behind.
    pub fn fetch(&self, ran: core::result::Result<CommandOutput, String>) -> (r: Result<()>)
        ensures
            result_view(r) == match ran {
                Err(e) => Err((ErrorKind::Git, "Failed to execute git fetch: "@ + e@)),
                Ok(o) => if o.success {
                    Ok(())
                } else {
                    Err((ErrorKind::Git, "Git fetch failed: "@ + o.stderr@))
                },
            },
    {
        match ran {
            Err(e) => {
                let mut m = "Failed to execute git fetch: ".to_string();
                m.append(e.as_str());
                Err(MonitorError::Git(m))
            },
            Ok(o) => if o.success {
                Ok(())
            } else {
                let mut m = "Git fetch failed: ".to_string();
                m.append(o.stderr.as_str());
                Err(MonitorError::Git(m))
            },
        }
    }

    /// The result of a pull, from what `pull_command` left behind: whether git said
    /// the copy was already up to date, and the count of its summary line.
    pub fn pull(&self, ran: core::result::Result<CommandOutput, String>) -> (r: Result<PullResult>)
        ensures
            match ran {
                Err(e) => r matches Err(err) && err@ == (
                    ErrorKind::Git,
                    "Failed to execute git pull: "@ + e@,
                ),
                Ok(o) => if o.success {
                    r matches Ok(p) && p.output@ == o.stdout@ && p.already_up_to_date == (
                    contains_seq(o.stdout@, "Already up to date"@) || contains_seq(
                        o.stdout@,
                        "Already up-to-date"@,
                    )) && p.files_changed == files_changed_in(split_newlines_of(o.stdout@))
                } else {
                    r matches Err(err) && err@ == (ErrorKind::Git, "Git pull failed: "@ + o.stderr@)
                },
            },
    {
        match ran {
            Err(e) => {
                let mut m = "Failed to execute git pull: ".to_string();
                m.append(e.as_str());
                Err(MonitorError::Git(m))
            },
            Ok(o) => if o.success {
                let up_to_date = contains_text(o.stdout.as_str(), "Already up to date")
                    || contains_text(o.stdout.as_str(), "Already up-to-date");
                let files_changed = self.parse_files_changed(o.stdout.as_str());
                Ok(PullResult { already_up_to_date: up_to_date, files_changed, output: o.stdout })
            } else {
                let mut m = "Git pull failed: ".to_string();
                m.append(o.stderr.as_str());
                Err(MonitorError::Git(m))
            },
        }
    }

    /// The status of the working copy, from what the local-commit, remote-commit and
    /// current-branch queries left behind. The first query that fails decides the
    /// error; updates are available when the two commits differ.
    pub fn get_status(
        &self,
        local: core::result::Result<CommandOutput, String>,
        remote: core::result::Result<CommandOutput, String>,
        branch: core::result::Result<CommandOutput, String>,
    ) -> (r: Result<GitStatus>)
        ensures
            result_view(r) == status_outcome(self.spec_remote_ref(), local, remote, branch),
    {
        let local_commit = read_query(
            local,
            "Failed to get local commit: ",
            "Failed to get local commit: ",
        )?;
        let mut failed = "Failed to get remote commit for ".to_string();
        failed.append(self.remote_ref().as_str());
        failed.append(": ");
        let remote_commit = read_query(remote, "Failed to get remote commit: ", failed.as_str())?;
        let current_branch = read_query(
            branch,
            "Failed to get current branch: ",
            "Failed to get current branch: ",
        )?;
        let updates_available = local_commit != remote_commit;
        Ok(GitStatus { local_commit, remote_commit, updates_available, current_branch })
    }

    /// The number of files a pull reports as changed: the leading number of the
    /// first line that mentions "file changed" or "files changed" and starts with a
    /// number; 0 when there is none.
    pub fn parse_files_changed(&self, output: &str) -> (r: usize)
        ensures
            r == files_changed_in(split_newlines_of(output@)),
    {
        let lines = split_newlines(output);
        let ghost all = texts(lines@);
        assert(all.subrange(0, all.len() as int) =~= all);
        let mut i: usize = 0;
        while i < lines.len()
            invariant
                all == texts(lines@),
                all == split_newlines_of(output@),
                i <= lines.len(),
                files_changed_in(all) == files_changed_in(all.subrange(i as int, all.len() as int)),
            decreases lines.len() - i,
        {
            let line = lines[i].as_str();
            let ghost rest = all.subrange(i as int, all.len() as int);
            assert(rest[0] == line@);
            assert(rest.drop_first() =~= all.subrange(i + 1, all.len() as int));
            if contains_text(line, "file changed") || contains_text(line, "files changed") {
                if let Some(word) = first_word(line) {
                    if let Some(n) = parse_usize(word.as_str()) {
                        assert(line_change_count(line@) == Some(n));
                        assert(files_changed_in(rest) == n);
                        return n;
                    }
                }
            }
            i = i + 1;
        }
        assert(all.subrange(i as int, all.len() as int) =~= Seq::<Seq<char>>::empty());
        0
    }

    /// Whether the working copy is usable: the path exists, holds a `.git`
    /// directory, and knows the remote (from what `remote_url_command` left behind).
    pub fn validate_repository(
        &self,
        path_exists: bool,
        git_dir_exists: bool,
        remote_check: core::result::Result<CommandOutput, String>,
    ) -> (r: Result<()>)
        ensures
            result_view(r) == (if !path_exists {
                Err((ErrorKind::Git, "Repository path does not exist: "@ + self.spec_repo_path()))
            } else if !git_dir_exists {
                Err((ErrorKind::Git, "Not a git repository: "@ + self.spec_repo_path()))
            } else {
                match remote_check {
                    Err(e) => Err((ErrorKind::Git, "Failed to validate remote: "@ + e@)),
                    Ok(o) => if o.success {
                        Ok(())
                    } else {
                        Err(
                            (
                                ErrorKind::Git,
                                "Remote '"@ + self.spec_remote() + "' not found in repository"@,
                            ),
                        )
                    },
                }
            }),
    {
        if !path_exists {
            let mut m = "Repository path does not exist: ".to_string();
            m.append(self.repo_path.as_str());
            return Err(MonitorError::Git(m));
        }
        if !git_dir_exists {
            let mut m = "Not a git repository: ".to_string();
            m.append(self.repo_path.as_str());
            return Err(MonitorError::Git(m));
        }
        match remote_check {
            Err(e) => {
                let mut m = "Failed to validate remote: ".to_string();
                m.append(e.as_str());
                Err(MonitorError::Git(m))
            },
            Ok(o) => if o.success {
                Ok(())
            } else {
                let mut m = "Remote '".to_string();
                m.append(self.remote.as_str());
                m.append("' not found in repository");
                Err(MonitorError::Git(m))
            },
        }
    }
}

/// The status from the three queries' outputs; the first that fails decides the error.
pub open spec fn status_outcome(
    remote_ref: Seq<char>,
    local: core::result::Result<CommandOutput, String>,
    remote: core::result::Result<CommandOutput, String>,
    branch: core::result::Result<CommandOutput, String>,
) -> core::result::Result<GitStatusView, (ErrorKind, Seq<char>)> {
    match query_outcome(local, "Failed to get local commit: "@, "Failed to get local commit: "@) {
        Err(e) => Err(e),
        Ok(l) => match query_outcome(
            remote,
            "Failed to get remote commit: "@,
            "Failed to get remote commit for "@ + remote_ref + ": "@,
        ) {
            Err(e) => Err(e),
            Ok(rc) => match query_outcome(
                branch,
                "Failed to get current branch: "@,
                "Failed to get current branch: "@,
            ) {
                Err(e) => Err(e),
                Ok(b) => Ok(
                    GitStatusView {
                        local_commit: l,
                        remote_commit: rc,
                        updates_available: l != rc,
                        current_branch: b,
                    },
                ),
            },
        },
    }
}

} // verus!
