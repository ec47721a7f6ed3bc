use vstd::prelude::*;
use crate::command::{
    CommandOutput, CommandOutputView, ExternalCommand, ExternalCommandView, copy_strings, strings1,
    strings2, strings3, texts,
};
use crate::error::{ErrorKind, MonitorError, Result, result_view};
use crate::paths::{parent_path, parent_path_of};
use crate::text::{
    clone_or_empty, join_lines, str_equal, text_or_empty, trim_start_char, trim_start_matches_char,
};

verus! {

/// The state of a container, as the supervisor sees it.
#[derive(Clone, Copy, Debug, PartialEq, Eq, Structural)]
pub enum ContainerStatus {
    Running,
    Stopped,
    Paused,
    Restarting,
    Dead,
    Created,
    Removing,
    Unknown,
}

/// The status for a state string reported by the container runtime. Every string
/// has one; anything unrecognised, the empty string included, is `Unknown`.
pub open spec fn status_of(state: Seq<char>) -> ContainerStatus {
    if state == "running"@ {
        ContainerStatus::Running
    } else if state == "exited"@ {
        ContainerStatus::Stopped
    } else if state == "paused"@ {
        ContainerStatus::Paused
    } else if state == "restarting"@ {
        ContainerStatus::Restarting
    } else if state == "dead"@ {
        ContainerStatus::Dead
    } else if state == "created"@ {
        ContainerStatus::Created
    } else if state == "removing"@ {
        ContainerStatus::Removing
    } else {
        ContainerStatus::Unknown
    }
}

impl ContainerStatus {
    /// The lower-case label shown for the status.
    pub open spec fn spec_label(self) -> Seq<char> {
        match self {
            ContainerStatus::Running => "running"@,
            ContainerStatus::Stopped => "stopped"@,
            ContainerStatus::Paused => "paused"@,
            ContainerStatus::Restarting => "restarting"@,
            ContainerStatus::Dead => "dead"@,
            ContainerStatus::Created => "created"@,
            ContainerStatus::Removing => "removing"@,
            ContainerStatus::Unknown => "unknown"@,
        }
    }

    /// Maps a state string reported by the container runtime to a status.
    pub fn from_state(state: &str) -> (r: ContainerStatus)
        ensures
            r == status_of(state@),
    {
        if str_equal(state, "running") {
            ContainerStatus::Running
        } else if str_equal(state, "exited") {
            ContainerStatus::Stopped
        } else if str_equal(state, "paused") {
            ContainerStatus::Paused
        } else if str_equal(state, "restarting") {
            ContainerStatus::Restarting
        } else if str_equal(state, "dead") {
            ContainerStatus::Dead
        } else if str_equal(state, "created") {
            ContainerStatus::Created
        } else if str_equal(state, "removing") {
            ContainerStatus::Removing
        } else {
            ContainerStatus::Unknown
        }
    }

    pub fn label(&self) -> (r: &'static str)
        ensures
            r@ == self.spec_label(),
    {
        match self {
            ContainerStatus::Running => "running",
            ContainerStatus::Stopped => "stopped",
            ContainerStatus::Paused => "paused",
            ContainerStatus::Restarting => "restarting",
            ContainerStatus::Dead => "dead",
            ContainerStatus::Created => "created",
            ContainerStatus::Removing => "removing",
            ContainerStatus::Unknown => "unknown",
        }
    }

    /// The label of the status as an owned string.
    pub fn to_string(&self) -> (r: String)
        ensures
            r@ == self.spec_label(),
    {
        self.label().to_string()
    }
}

/// Information about one container, derived afresh on every query.
#[derive(Clone, Debug)]
pub struct ContainerInfo {
    pub name: String,
    pub status: ContainerStatus,
    pub image: String,
}

pub struct ContainerInfoView {
    pub name: Seq<char>,
    pub status: ContainerStatus,
    pub image: Seq<char>,
}

impl View for ContainerInfo {
    type V = ContainerInfoView;

    open spec fn view(&self) -> ContainerInfoView {
        ContainerInfoView { name: self.name@, status: self.status, image: self.image@ }
    }
}

/// The state block of an inspected container: its status string, if the runtime gave one.
#[derive(Clone, Debug)]
pub struct StateReport {
    pub status: Option<String>,
}

/// What the container runtime answered to an inspect request.
#[derive(Clone, Debug)]
pub struct InspectReport {
    pub name: Option<String>,
    pub state: Option<StateReport>,
    pub image: Option<String>,
}

/// What inspecting `name` yields, given the runtime's answer (`Err` holds the
/// runtime's failure text).
pub open spec fn inspect_outcome(
    name: Seq<char>,
    answer: core::result::Result<InspectReport, String>,
) -> core::result::Result<ContainerInfoView, (ErrorKind, Seq<char>)> {
    match answer {
        Err(e) => Err((ErrorKind::Docker, "Failed to inspect container '"@ + name + "': "@ + e@)),
        Ok(report) => match report.state {
            None => Err((ErrorKind::Docker, "Container '"@ + name + "' has no state"@)),
            Some(state) => Ok(
                ContainerInfoView {
                    name: trim_start_char(text_or_empty(report.name), '/'),
                    status: status_of(text_or_empty(state.status)),
                    image: text_or_empty(report.image),
                },
            ),
        },
    }
}

/// The containers that resolved, in order, when the i-th name got the i-th answer;
/// names whose inspection failed are left out.
pub open spec fn resolved(
    names: Seq<Seq<char>>,
    answers: Seq<core::result::Result<InspectReport, String>>,
) -> Seq<ContainerInfoView>
    decreases answers.len(),
{
    if answers.len() == 0 {
        Seq::empty()
    } else {
        let n = answers.len() - 1;
        let earlier = resolved(names.take(n), answers.take(n));
        match inspect_outcome(names[n], answers[n]) {
            Ok(info) => earlier.push(info),
            Err(_) => earlier,
        }
    }
}

} // verus!

verus! {

/// A single-container operation of the container runtime.
#[derive(Clone, Copy, Debug, PartialEq, Eq, Structural)]
pub enum ContainerOperation {
    Start,
    Stop,
    Restart,
}

impl ContainerOperation {
    pub open spec fn spec_verb(self) -> Seq<char> {
        match self {
            ContainerOperation::Start => "start"@,
            ContainerOperation::Stop => "stop"@,
            ContainerOperation::Restart => "restart"@,
        }
    }

    pub fn verb(&self) -> (r: &'static str)
        ensures
            r@ == self.spec_verb(),
    {
        match self {
            ContainerOperation::Start => "start",
            ContainerOperation::Stop => "stop",
            ContainerOperation::Restart => "restart",
        }
    }
}

/// Seconds the runtime grants a container to exit on its own before killing it,
/// when stopping or restarting.
pub const GRACEFUL_STOP_SECS: i64 = 10;

/// What `op` on `name` yields, given the runtime's answer.
pub open spec fn operation_outcome(
    op: ContainerOperation,
    name: Seq<char>,
    answer: core::result::Result<(), String>,
) -> core::result::Result<(), (ErrorKind, Seq<char>)> {
    match answer {
        Ok(()) => Ok(()),
        Err(e) => Err(
            (ErrorKind::Docker, "Failed to "@ + op.spec_verb() + " container '"@ + name + "': "@ + e@),
        ),
    }
}

/// Whether some container in `listed` (each with its names) carries `name` once
/// its leading slashes are removed.
pub open spec fn is_listed(listed: Seq<Vec<String>>, name: Seq<char>) -> bool {
    exists|i: int, j: int|
        0 <= i < listed.len() && 0 <= j < listed[i]@.len() && #[trigger] trim_start_char(
            listed[i]@[j]@,
            '/',
        ) == name
}

/// The configured names that the runtime does not list, in configured order.
pub open spec fn missing_names(configured: Seq<Seq<char>>, listed: Seq<Vec<String>>) -> Seq<
    Seq<char>,
> {
    configured.filter(|n: Seq<char>| !is_listed(listed, n))
}

fn listed_contains(listed: &Vec<Vec<String>>, name: &str) -> (r: bool)
    ensures
        r == is_listed(listed@, name@),
{
    let mut i: usize = 0;
    while i < listed.len()
        invariant
            i <= listed.len(),
            forall|a: int, b: int|
                0 <= a < i && 0 <= b < listed@[a]@.len() ==> #[trigger] trim_start_char(
                    listed@[a]@[b]@,
                    '/',
                ) != name@,
        decreases listed.len() - i,
    {
        let names = &listed[i];
        let mut j: usize = 0;
        while j < names.len()
            invariant
                i < listed.len(),
                names == listed@[i as int],
                j <= names.len(),
                forall|a: int, b: int|
                    0 <= a < i && 0 <= b < listed@[a]@.len() ==> #[trigger] trim_start_char(
                        listed@[a]@[b]@,
                        '/',
                    ) != name@,
                forall|b: int|
                    0 <= b < j ==> #[trigger] trim_start_char(names@[b]@, '/') != name@,
            decreases names.len() - j,
        {
            let clean = trim_start_matches_char(names[j].as_str(), '/');
            if str_equal(clean.as_str(), name) {
                return true;
            }
            j = j + 1;
        }
        i = i + 1;
    }
    false
}

/// A batch operation over the configured names that stops at the first failure.
pub struct FailFastBatch {
    operation: ContainerOperation,
    names: Vec<String>,
    invoked: usize,
    failure: Option<MonitorError>,
}

pub struct BatchView {
    pub operation: ContainerOperation,
    pub names: Seq<Seq<char>>,
    /// How many names have been invoked: always the first ones, in order.
    pub invoked: nat,
    pub failure: Option<(ErrorKind, Seq<char>)>,
}

/// A batch that has invoked nothing yet.
pub open spec fn fresh_batch(operation: ContainerOperation, names: Seq<Seq<char>>) -> BatchView {
    BatchView { operation, names, invoked: 0, failure: None }
}

impl BatchView {
    /// The name to invoke next, if the batch is still going.
    pub open spec fn next_name(self) -> Option<Seq<char>> {
        if self.failure is None && self.invoked < self.names.len() {
            Some(self.names[self.invoked as int])
        } else {
            None
        }
    }

    /// The result of the batch once nothing is left to invoke.
    pub open spec fn outcome(self) -> core::result::Result<(), (ErrorKind, Seq<char>)> {
        match self.failure {
            Some(f) => Err(f),
            None => Ok(()),
        }
    }

    /// The batch once the name just invoked has given `r`.
    pub open spec fn after(self, r: core::result::Result<(), (ErrorKind, Seq<char>)>) -> BatchView {
        BatchView {
            invoked: self.invoked + 1,
            failure: match r {
                Ok(()) => None,
                Err(e) => Some(e),
            },
            ..self
        }
    }

    /// The batch once the names it invokes, in turn, have given the results in `rs`.
    pub open spec fn run(self, rs: Seq<core::result::Result<(), (ErrorKind, Seq<char>)>>) -> BatchView
        decreases rs.len(),
    {
        if rs.len() == 0 || self.next_name() is None {
            self
        } else {
            self.after(rs[0]).run(rs.drop_first())
        }
    }
}

impl View for FailFastBatch {
    type V = BatchView;

    closed spec fn view(&self) -> BatchView {
        BatchView {
            operation: self.operation,
            names: texts(self.names@),
            invoked: self.invoked as nat,
            failure: match self.failure {
                Some(e) => Some(e@),
                None => None,
            },
        }
    }
}

/// What a batch asks for next.
pub enum BatchAction {
    /// Perform the operation on this container, then record its result.
    Invoke(ContainerOperation, String),
    /// The batch is over, with this result.
    Finished(Result<()>),
}

impl FailFastBatch {
    pub fn new(operation: ContainerOperation, names: Vec<String>) -> (r: FailFastBatch)
        ensures
            r@ == fresh_batch(operation, texts(names@)),
    {
        FailFastBatch { operation, names, invoked: 0, failure: None }
    }

    pub fn next_action(&self) -> (r: BatchAction)
        ensures
            match self@.next_name() {
                Some(n) => r matches BatchAction::Invoke(op, name) && op == self@.operation && name@
                    == n,
                None => r matches BatchAction::Finished(res) && result_view(res)
                    == self@.outcome(),
            },
    {
        match &self.failure {
            Some(e) => BatchAction::Finished(Err(e.duplicate())),
            None => {
                if self.invoked < self.names.len() {
                    BatchAction::Invoke(self.operation, self.names[self.invoked].clone())
                } else {
                    BatchAction::Finished(Ok(()))
                }
            },
        }
    }

    /// Records the result of the operation on the name last handed out.
    pub fn record(&mut self, outcome: Result<()>)
        requires
            old(self)@.next_name() is Some,
        ensures
            final(self)@ == old(self)@.after(result_view(outcome)),
    {
        assert(self.invoked < texts(self.names@).len());
        let n = self.names.len();
        assert(self.invoked < n);
        self.invoked = self.invoked + 1;
        self.failure = match outcome {
            Ok(()) => None,
            Err(e) => Some(e),
        };
    }
}

proof fn lemma_run_from(v: BatchView, rs: Seq<core::result::Result<(), (ErrorKind, Seq<char>)>>, k: int)
    requires
        v.failure is None,
        v.invoked <= k < v.names.len(),
        k - v.invoked < rs.len(),
        rs[k - v.invoked] is Err,
        forall|j: int| 0 <= j < k - v.invoked ==> rs[j] is Ok,
    ensures
        v.run(rs).invoked == k + 1,
        v.run(rs).next_name() is None,
        v.run(rs).outcome() == rs[k - v.invoked],
        v.run(rs).names == v.names,
    decreases k - v.invoked,
{
    let w = v.after(rs[0]);
    if k == v.invoked {
        assert(w.run(rs.drop_first()) == w);
    } else {
        assert forall|j: int| 0 <= j < k - w.invoked implies rs.drop_first()[j] is Ok by {
            assert(rs.drop_first()[j] == rs[j + 1]);
        }
        lemma_run_from(w, rs.drop_first(), k);
    }
}

/// A fail-fast batch stops at the first failing name. When the names before
/// position `k` succeed and the one at `k` fails, the batch invokes exactly the
/// names up to and including position `k`, never one after it, and finishes
/// with the error of the name at `k`.
pub proof fn lemma_fail_fast_stops_at_first_failure(
    op: ContainerOperation,
    names: Seq<Seq<char>>,
    rs: Seq<core::result::Result<(), (ErrorKind, Seq<char>)>>,
    k: int,
)
    requires
        0 <= k < names.len(),
        k < rs.len(),
        rs[k] is Err,
        forall|j: int| 0 <= j < k ==> rs[j] is Ok,
    ensures
        fresh_batch(op, names).run(rs).invoked == k + 1,
        fresh_batch(op, names).run(rs).next_name() is None,
        fresh_batch(op, names).run(rs).outcome() == rs[k],
{
    lemma_run_from(fresh_batch(op, names), rs, k);
}

/// A fail-fast batch whose names all succeed invokes every name once, in order,
/// and finishes without error.
pub proof fn lemma_fail_fast_all_succeed(
    op: ContainerOperation,
    names: Seq<Seq<char>>,
    rs: Seq<core::result::Result<(), (ErrorKind, Seq<char>)>>,
)
    requires
        names.len() <= rs.len(),
        forall|j: int| 0 <= j < names.len() ==> rs[j] is Ok,
    ensures
        fresh_batch(op, names).run(rs).invoked == names.len(),
        fresh_batch(op, names).run(rs).outcome() == Ok::<(), (ErrorKind, Seq<char>)>(()),
{
    lemma_all_succeed_from(fresh_batch(op, names), rs);
}

proof fn lemma_all_succeed_from(v: BatchView, rs: Seq<core::result::Result<(), (ErrorKind, Seq<char>)>>)
    requires
        v.failure is None,
        v.invoked <= v.names.len(),
        v.names.len() - v.invoked <= rs.len(),
        forall|j: int| 0 <= j < v.names.len() - v.invoked ==> rs[j] is Ok,
    ensures
        v.run(rs).invoked == v.names.len(),
        v.run(rs).failure is None,
    decreases v.names.len() - v.invoked,
{
    if v.invoked < v.names.len() {
        let w = v.after(rs[0]);
        assert forall|j: int| 0 <= j < w.names.len() - w.invoked implies rs.drop_first()[j] is Ok by {
            assert(rs.drop_first()[j] == rs[j + 1]);
        }
        lemma_all_succeed_from(w, rs.drop_first());
    }
}

} // verus!

verus! {

/// Supervises a fixed list of named containers: single and batch operations go
/// through the container runtime, updates through the compose tool.
pub struct DockerManager {
    compose_file_path: String,
    compose_dir: String,
    container_names: Vec<String>,
}

impl DockerManager {
    pub closed spec fn spec_compose_file(&self) -> Seq<char> {
        self.compose_file_path@
    }

    pub closed spec fn spec_compose_dir(&self) -> Seq<char> {
        self.compose_dir@
    }

    pub closed spec fn spec_names(&self) -> Seq<Seq<char>> {
        texts(self.container_names@)
    }

    /// A manager for the given compose descriptor and container names. The compose
    /// tool runs in the directory that holds the descriptor; a path without one is
    /// refused.
    pub fn new(compose_file_path: String, container_names: Vec<String>) -> (r: Result<DockerManager>)
        ensures
            match r {
                Ok(m) => parent_path_of(compose_file_path@) == Some(m.spec_compose_dir())
                    && m.spec_compose_file() == compose_file_path@ && m.spec_names() == texts(
                    container_names@,
                ),
                Err(e) => parent_path_of(compose_file_path@) is None && e@ == (
                    ErrorKind::Docker,
                    "Invalid compose file path"@,
                ),
            },
    {
        match parent_path(compose_file_path.as_str()) {
            Some(dir) => Ok(DockerManager { compose_file_path, compose_dir: dir, container_names }),
            None => Err(MonitorError::Docker("Invalid compose file path".to_string())),
        }
    }

    pub fn compose_file_path(&self) -> (r: &str)
        ensures
            r@ == self.spec_compose_file(),
    {
        self.compose_file_path.as_str()
    }

    pub fn compose_dir(&self) -> (r: &str)
        ensures
            r@ == self.spec_compose_dir(),
    {
        self.compose_dir.as_str()
    }

    pub fn container_names(&self) -> (r: &Vec<String>)
        ensures
            texts(r@) == self.spec_names(),
    {
        &self.container_names
    }

    /// Checks the configuration against what is on disk and what the runtime lists.
    /// A missing descriptor file or a runtime that cannot be listed is an error; a
    /// configured container that the runtime does not list is not: it is returned,
    /// in configured order, for the caller to warn about.
    pub fn validate(
        &self,
        compose_file_exists: bool,
        listed: core::result::Result<Vec<Vec<String>>, String>,
    ) -> (r: Result<Vec<String>>)
        ensures
            !compose_file_exists ==> (r matches Err(e) && e@ == (
                ErrorKind::Docker,
                "Docker compose file not found: "@ + self.spec_compose_file(),
            )),
            compose_file_exists ==> match listed {
                Err(d) => r matches Err(e) && e@ == (
                    ErrorKind::Docker,
                    "Failed to connect to Docker daemon: "@ + d@,
                ),
                Ok(l) => r matches Ok(missing) && texts(missing@) == missing_names(
                    self.spec_names(),
                    l@,
                ),
            },
    {
        if !compose_file_exists {
            let mut m = "Docker compose file not found: ".to_string();
            m.append(self.compose_file_path.as_str());
            return Err(MonitorError::Docker(m));
        }
        let listed = match listed {
            Ok(l) => l,
            Err(d) => {
                let mut m = "Failed to connect to Docker daemon: ".to_string();
                m.append(d.as_str());
                return Err(MonitorError::Docker(m));
            },
        };
        let ghost configured = texts(self.container_names@);
        let ghost keep = |n: Seq<char>| !is_listed(listed@, n);
        let mut missing: Vec<String> = Vec::new();
        let mut i: usize = 0;
        while i < self.container_names.len()
            invariant
                i <= self.container_names.len(),
                configured == texts(self.container_names@),
                keep == (|n: Seq<char>| !is_listed(listed@, n)),
                texts(missing@) == configured.take(i as int).filter(keep),
            decreases self.container_names.len() - i,
        {
            let name = &self.container_names[i];
            let found = listed_contains(&listed, name.as_str());
            proof {
                reveal(Seq::filter);
                assert(configured.take(i + 1).drop_last() =~= configured.take(i as int));
            }
            if !found {
                let ghost before = missing@;
                missing.push(name.clone());
                assert(texts(missing@) =~= texts(before).push(name@));
            }
            i = i + 1;
        }
        assert(configured.take(i as int) =~= configured);
        Ok(missing)
    }
}


impl DockerManager {
    /// The status of one container, from the runtime's answer to inspecting it.
    /// A failed inspection, or an answer without a state block, is an error.
    pub fn get_container_status(
        &self,
        container_name: &str,
        answer: core::result::Result<InspectReport, String>,
    ) -> (r: Result<ContainerInfo>)
        ensures
            result_view(r) == inspect_outcome(container_name@, answer),
    {
        match answer {
            Err(e) => {
                let mut m = "Failed to inspect container '".to_string();
                m.append(container_name);
                m.append("': ");
                m.append(e.as_str());
                Err(MonitorError::Docker(m))
            },
            Ok(report) => match &report.state {
                None => {
                    let mut m = "Container '".to_string();
                    m.append(container_name);
                    m.append("' has no state");
                    Err(MonitorError::Docker(m))
                },
                Some(state) => {
                    let raw_name = clone_or_empty(&report.name);
                    let status_text = clone_or_empty(&state.status);
                    let info = ContainerInfo {
                        name: trim_start_matches_char(raw_name.as_str(), '/'),
                        status: ContainerStatus::from_state(status_text.as_str()),
                        image: clone_or_empty(&report.image),
                    };
                    Ok(info)
                },
            },
        }
    }

    /// The status of every configured container, from the runtime's answer for each
    /// name in configured order. Best effort: a name whose inspection fails is left
    /// out, and the call itself always succeeds.
    pub fn get_all_container_status(
        &self,
        answers: Vec<core::result::Result<InspectReport, String>>,
    ) -> (r: Result<Vec<ContainerInfo>>)
        requires
            answers.len() == self.spec_names().len(),
        ensures
            r matches Ok(infos) && infos@.map_values(|c: ContainerInfo| c@) == resolved(
                self.spec_names(),
                answers@,
            ),
    {
        let ghost names = texts(self.container_names@);
        let ghost all = answers@;
        let mut infos: Vec<ContainerInfo> = Vec::new();
        let mut answers = answers;
        let mut i: usize = 0;
        let n = answers.len();
        while i < n
            invariant
                n == all.len(),
                n == names.len(),
                names == texts(self.container_names@),
                i <= n,
                answers@ == all.subrange(i as int, n as int),
                infos@.map_values(|c: ContainerInfo| c@) == resolved(
                    names.take(i as int),
                    all.take(i as int),
                ),
            decreases n - i,
        {
            let answer = answers.remove(0);
            assert(answer == all[i as int]);
            assert(answers@ =~= all.subrange(i + 1, n as int));
            let name = &self.container_names[i];
            let ghost before = infos@;
            match self.get_container_status(name.as_str(), answer) {
                Ok(info) => {
                    infos.push(info);
                },
                Err(_) => {},
            }
            proof {
                let t = all.take(i + 1);
                assert(t.take(i as int) =~= all.take(i as int));
                assert(names.take(i + 1).take(i as int) =~= names.take(i as int));
                assert(names.take(i + 1)[i as int] == names[i as int]);
                assert(infos@.map_values(|c: ContainerInfo| c@) =~= resolved(
                    names.take(i + 1),
                    all.take(i + 1),
                ));
            }
            i = i + 1;
        }
        assert(names.take(n as int) =~= names);
        assert(all.take(n as int) =~= all);
        Ok(infos)
    }

    fn run_operation(
        op: ContainerOperation,
        container_name: &str,
        answer: core::result::Result<(), String>,
    ) -> (r: Result<()>)
        ensures
            result_view(r) == operation_outcome(op, container_name@, answer),
    {
        match answer {
            Ok(()) => Ok(()),
            Err(e) => {
                let mut m = "Failed to ".to_string();
                m.append(op.verb());
                m.append(" container '");
                m.append(container_name);
                m.append("': ");
                m.append(e.as_str());
                Err(MonitorError::Docker(m))
            },
        }
    }

    /// The result of starting a container, from the runtime's answer.
    pub fn start_container(&self, container_name: &str, answer: core::result::Result<(), String>) -> (r:
        Result<()>)
        ensures
            result_view(r) == operation_outcome(ContainerOperation::Start, container_name@, answer),
    {
        Self::run_operation(ContainerOperation::Start, container_name, answer)
    }

    /// The result of stopping a container, from the runtime's answer. The runtime is
    /// asked to allow `GRACEFUL_STOP_SECS` before it kills the container.
    pub fn stop_container(&self, container_name: &str, answer: core::result::Result<(), String>) -> (r:
        Result<()>)
        ensures
            result_view(r) == operation_outcome(ContainerOperation::Stop, container_name@, answer),
    {
        Self::run_operation(ContainerOperation::Stop, container_name, answer)
    }

    /// The result of restarting a container, from the runtime's answer. The runtime is
    /// asked to allow `GRACEFUL_STOP_SECS` before it kills the container.
    pub fn restart_container(&self, container_name: &str, answer: core::result::Result<(), String>) -> (r:
        Result<()>)
        ensures
            result_view(r) == operation_outcome(ContainerOperation::Restart, container_name@, answer),
    {
        Self::run_operation(ContainerOperation::Restart, container_name, answer)
    }

    /// The result of `op` on a container, from the runtime's answer.
    pub fn operation_result(
        &self,
        op: ContainerOperation,
        container_name: &str,
        answer: core::result::Result<(), String>,
    ) -> (r: Result<()>)
        ensures
            result_view(r) == operation_outcome(op, container_name@, answer),
    {
        Self::run_operation(op, container_name, answer)
    }

    /// Starts every configured container in order, stopping at the first failure.
    pub fn start_all_containers(&self) -> (r: FailFastBatch)
        ensures
            r@ == fresh_batch(ContainerOperation::Start, self.spec_names()),
    {
        FailFastBatch::new(ContainerOperation::Start, copy_strings(&self.container_names))
    }

    /// Stops every configured container in order, stopping at the first failure.
    pub fn stop_all_containers(&self) -> (r: FailFastBatch)
        ensures
            r@ == fresh_batch(ContainerOperation::Stop, self.spec_names()),
    {
        FailFastBatch::new(ContainerOperation::Stop, copy_strings(&self.container_names))
    }

    /// Restarts every configured container in order, stopping at the first failure.
    pub fn restart_all_containers(&self) -> (r: FailFastBatch)
        ensures
            r@ == fresh_batch(ContainerOperation::Restart, self.spec_names()),
    {
        FailFastBatch::new(ContainerOperation::Restart, copy_strings(&self.container_names))
    }
}

} // verus!

verus! {

/// The outcome of an update: whether it succeeded, the standard output of every
/// step that ran, and the standard error of the step that failed.
#[derive(Clone, Debug)]
pub struct UpdateResult {
    pub success: bool,
    pub output: String,
    pub error: Option<String>,
}

pub struct UpdateView {
    pub success: bool,
    pub output: Seq<char>,
    pub error: Option<Seq<char>>,
}

impl View for UpdateResult {
    type V = UpdateView;

    open spec fn view(&self) -> UpdateView {
        UpdateView {
            success: self.success,
            output: self.output@,
            error: match self.error {
                Some(e) => Some(e@),
                None => None,
            },
        }
    }
}

/// The arguments of the compose tool for the descriptor `file`, followed by `tail`.
pub open spec fn compose_args(file: Seq<char>, tail: Seq<Seq<char>>) -> Seq<Seq<char>> {
    seq!["compose"@, "-f"@, file] + tail
}

pub struct PipelineView {
    /// The container to stop through the runtime before the first step, while that is pending.
    pub stop_first: Option<Seq<char>>,
    pub program: Seq<char>,
    pub dir: Seq<char>,
    /// The arguments of each step, in order.
    pub steps: Seq<Seq<Seq<char>>>,
    /// The name of each step, as error messages give it.
    pub verbs: Seq<Seq<char>>,
    /// What each step that ran left behind, in order.
    pub outputs: Seq<CommandOutputView>,
    /// Set when a step could not be run at all.
    pub failure: Option<(ErrorKind, Seq<char>)>,
}

impl PipelineView {
    pub open spec fn last_failed(self) -> bool {
        self.outputs.len() > 0 && !self.outputs.last().success
    }

    pub open spec fn finished(self) -> bool {
        self.failure is Some || self.last_failed() || self.outputs.len() >= self.steps.len()
    }

    /// The command to run next, if any: steps run in order until one fails.
    pub open spec fn next_command(self) -> Option<ExternalCommandView> {
        if self.stop_first is None && !self.finished() {
            Some(
                ExternalCommandView {
                    program: self.program,
                    args: self.steps[self.outputs.len() as int],
                    dir: self.dir,
                },
            )
        } else {
            None
        }
    }

    /// The standard output of every step that ran, joined by newlines.
    pub open spec fn transcript(self) -> Seq<char> {
        join_lines(self.outputs.map_values(|o: CommandOutputView| o.stdout))
    }

    /// The result of the pipeline once it is finished.
    pub open spec fn outcome(self) -> core::result::Result<UpdateView, (ErrorKind, Seq<char>)> {
        match self.failure {
            Some(f) => Err(f),
            None => if self.last_failed() {
                Ok(
                    UpdateView {
                        success: false,
                        output: self.transcript(),
                        error: Some(self.outputs.last().stderr),
                    },
                )
            } else {
                Ok(UpdateView { success: true, output: self.transcript(), error: None })
            },
        }
    }

    /// The pipeline once the container to stop first has been dealt with, whatever
    /// the runtime answered.
    pub open spec fn after_stop(self) -> PipelineView {
        PipelineView { stop_first: None, ..self }
    }

    /// The pipeline once the next step has run with output `r`, or could not be run
    /// (`Err`, with the reason).
    pub open spec fn after_run(self, r: core::result::Result<CommandOutputView, Seq<char>>) -> PipelineView {
        match r {
            Ok(o) => PipelineView { outputs: self.outputs.push(o), ..self },
            Err(e) => PipelineView {
                failure: Some(
                    (
                        ErrorKind::Docker,
                        "Failed to execute docker compose "@ + self.verbs[self.outputs.len() as int]
                            + ": "@ + e,
                    ),
                ),
                ..self
            },
        }
    }
}

/// The update of one service: stop its container, pull its image, bring it up
/// detached.
pub open spec fn update_plan(file: Seq<char>, dir: Seq<char>, name: Seq<char>) -> PipelineView {
    PipelineView {
        stop_first: Some(name),
        program: "docker"@,
        dir,
        steps: seq![compose_args(file, seq!["pull"@, name]), compose_args(file, seq!["up"@, "-d"@, name])],
        verbs: seq!["pull"@, "up"@],
        outputs: seq![],
        failure: None,
    }
}

/// The update of the whole stack: take it down, pull every image, bring it up detached.
pub open spec fn update_all_plan(file: Seq<char>, dir: Seq<char>) -> PipelineView {
    PipelineView {
        stop_first: None,
        program: "docker"@,
        dir,
        steps: seq![
            compose_args(file, seq!["down"@]),
            compose_args(file, seq!["pull"@]),
            compose_args(file, seq!["up"@, "-d"@]),
        ],
        verbs: seq!["down"@, "pull"@, "up"@],
        outputs: seq![],
        failure: None,
    }
}

/// A sequence of compose-tool steps that stops at the first failing one. Failure
/// of a step is reported in the outcome, not as an error; only a step that could
/// not be run at all is an error.
pub struct UpdatePipeline {
    stop_first: Option<String>,
    program: String,
    dir: String,
    steps: Vec<Vec<String>>,
    verbs: Vec<String>,
    outputs: Vec<CommandOutput>,
    failure: Option<MonitorError>,
}

impl View for UpdatePipeline {
    type V = PipelineView;

    closed spec fn view(&self) -> PipelineView {
        PipelineView {
            stop_first: match self.stop_first {
                Some(s) => Some(s@),
                None => None,
            },
            program: self.program@,
            dir: self.dir@,
            steps: self.steps@.map_values(|a: Vec<String>| texts(a@)),
            verbs: texts(self.verbs@),
            outputs: self.outputs@.map_values(|o: CommandOutput| o@),
            failure: match self.failure {
                Some(e) => Some(e@),
                None => None,
            },
        }
    }
}

/// What an update pipeline asks for next.
pub enum PipelineAction {
    /// Stop this container through the runtime, then record that it was tried.
    StopContainer(String),
    /// Run this command, then record what it left behind.
    Run(ExternalCommand),
    /// The update is over, with this result.
    Finished(Result<UpdateResult>),
}

pub open spec fn output_result_view(r: core::result::Result<CommandOutput, String>) -> core::result::Result<
    CommandOutputView,
    Seq<char>,
> {
    match r {
        Ok(o) => Ok(o@),
        Err(e) => Err(e@),
    }
}

impl UpdatePipeline {
    pub closed spec fn wf(&self) -> bool {
        self.steps@.len() == self.verbs@.len()
    }

    fn transcript(&self) -> (r: String)
        ensures
            r@ == self@.transcript(),
    {
        let ghost outs = self@.outputs.map_values(|o: CommandOutputView| o.stdout);
        let mut text = String::new();
        let mut i: usize = 0;
        while i < self.outputs.len()
            invariant
                i <= self.outputs.len(),
                outs == self@.outputs.map_values(|o: CommandOutputView| o.stdout),
                outs.len() == self.outputs@.len(),
                forall|j: int| 0 <= j < outs.len() ==> outs[j] == self.outputs@[j].stdout@,
                text@ == join_lines(outs.take(i as int)),
            decreases self.outputs.len() - i,
        {
            if i > 0 {
                text.append("\n");
            }
            text.append(self.outputs[i].stdout.as_str());
            proof {
                let t = outs.take(i + 1);
                assert(t.drop_last() =~= outs.take(i as int));
                if i == 0 {
                    assert(outs.take(0) =~= Seq::<Seq<char>>::empty());
                }
            }
            i = i + 1;
        }
        assert(outs.take(i as int) =~= outs);
        text
    }

    pub fn next_action(&self) -> (r: PipelineAction)
        ensures
            match self@.stop_first {
                Some(n) => r matches PipelineAction::StopContainer(name) && name@ == n,
                None => match self@.next_command() {
                    Some(c) => r matches PipelineAction::Run(cmd) && cmd@ == c,
                    None => r matches PipelineAction::Finished(res) && result_view(res)
                        == self@.outcome(),
                },
            },
    {
        if let Some(name) = &self.stop_first {
            return PipelineAction::StopContainer(name.clone());
        }
        if let Some(e) = &self.failure {
            return PipelineAction::Finished(Err(e.duplicate()));
        }
        let done = self.outputs.len();
        if done > 0 && !self.outputs[done - 1].success {
            let result = UpdateResult {
                success: false,
                output: self.transcript(),
                error: Some(self.outputs[done - 1].stderr.clone()),
            };
            return PipelineAction::Finished(Ok(result));
        }
        if done >= self.steps.len() {
            let result = UpdateResult { success: true, output: self.transcript(), error: None };
            return PipelineAction::Finished(Ok(result));
        }
        let cmd = ExternalCommand {
            program: self.program.clone(),
            args: copy_strings(&self.steps[done]),
            dir: self.dir.clone(),
        };
        PipelineAction::Run(cmd)
    }

    /// Records that the container to stop first was dealt with. Whatever the runtime
    /// answered, the steps go on: the pull and the recreation may succeed regardless.
    pub fn record_stop(&mut self, stopped: Result<()>)
        requires
            old(self)@.stop_first is Some,
        ensures
            final(self)@ == old(self)@.after_stop(),
            final(self).wf() == old(self).wf(),
    {
        self.stop_first = None;
    }

    /// Records what the step last handed out left behind, or why it could not run.
    pub fn record_run(&mut self, ran: core::result::Result<CommandOutput, String>)
        requires
            old(self).wf(),
            old(self)@.next_command() is Some,
        ensures
            final(self).wf(),
            final(self)@ == old(self)@.after_run(output_result_view(ran)),
    {
        match ran {
            Ok(o) => {
                let ghost before = self.outputs@;
                self.outputs.push(o);
                assert(self.outputs@.map_values(|c: CommandOutput| c@) =~= before.map_values(
                    |c: CommandOutput| c@,
                ).push(self.outputs@.last()@));
            },
            Err(e) => {
                let done = self.outputs.len();
                let mut m = "Failed to execute docker compose ".to_string();
                m.append(self.verbs[done].as_str());
                m.append(": ");
                m.append(e.as_str());
                self.failure = Some(MonitorError::Docker(m));
            },
        }
    }
}

fn compose_command(file: &str, tail: Vec<String>) -> (r: Vec<String>)
    ensures
        texts(r@) == compose_args(file@, texts(tail@)),
{
    let mut args: Vec<String> = Vec::new();
    args.push("compose".to_string());
    args.push("-f".to_string());
    args.push(file.to_string());
    let mut i: usize = 0;
    while i < tail.len()
        invariant
            i <= tail@.len(),
            texts(args@) == compose_args(file@, texts(tail@).take(i as int)),
        decreases tail.len() - i,
    {
        let ghost before = args@;
        args.push(tail[i].clone());
        assert(texts(args@) =~= texts(before).push(tail@[i as int]@));
        assert(texts(tail@).take(i + 1) =~= texts(tail@).take(i as int).push(tail@[i as int]@));
        i = i + 1;
    }
    assert(texts(tail@).take(i as int) =~= texts(tail@));
    args
}

impl DockerManager {
    /// Pulls and recreates one service: its container is stopped first (a failure
    /// there is tolerated), then the compose tool pulls the service's image and
    /// brings it up detached, in the descriptor's directory.
    pub fn update_container(&self, container_name: &str) -> (r: UpdatePipeline)
        ensures
            r.wf(),
            r@ == update_plan(self.spec_compose_file(), self.spec_compose_dir(), container_name@),
    {
        let file = self.compose_file_path.as_str();
        let mut steps: Vec<Vec<String>> = Vec::new();
        steps.push(compose_command(file, strings2("pull", container_name)));
        steps.push(compose_command(file, strings3("up", "-d", container_name)));
        let pipeline = UpdatePipeline {
            stop_first: Some(container_name.to_string()),
            program: "docker".to_string(),
            dir: self.compose_dir.clone(),
            steps,
            verbs: strings2("pull", "up"),
            outputs: Vec::new(),
            failure: None,
        };
        assert(pipeline@.steps =~= update_plan(file@, self.compose_dir@, container_name@).steps);
        assert(texts(pipeline.verbs@).len() == 2);
        assert(pipeline@.outputs =~= Seq::<CommandOutputView>::empty());
        pipeline
    }

    /// Pulls and recreates the whole stack: the compose tool takes it down, pulls
    /// every image and brings it up detached, in the descriptor's directory.
    pub fn update_all_containers(&self) -> (r: UpdatePipeline)
        ensures
            r.wf(),
            r@ == update_all_plan(self.spec_compose_file(), self.spec_compose_dir()),
    {
        let file = self.compose_file_path.as_str();
        let mut steps: Vec<Vec<String>> = Vec::new();
        steps.push(compose_command(file, strings1("down")));
        steps.push(compose_command(file, strings1("pull")));
        steps.push(compose_command(file, strings2("up", "-d")));
        let pipeline = UpdatePipeline {
            stop_first: None,
            program: "docker".to_string(),
            dir: self.compose_dir.clone(),
            steps,
            verbs: strings3("down", "pull", "up"),
            outputs: Vec::new(),
            failure: None,
        };
        assert(pipeline@.steps =~= update_all_plan(file@, self.compose_dir@).steps);
        assert(texts(pipeline.verbs@).len() == 3);
        assert(pipeline@.outputs =~= Seq::<CommandOutputView>::empty());
        pipeline
    }
}

/// Updating one service whose pull exits unsuccessfully ends right there: nothing
/// more is run (the step that brings the service up never is), and the outcome
/// is a failure carrying the pull's standard output and, as its error, the pull's
/// standard error.
pub proof fn lemma_update_stops_after_failed_pull(
    file: Seq<char>,
    dir: Seq<char>,
    name: Seq<char>,
    pull: CommandOutputView,
)
    requires
        !pull.success,
    ensures
        ({
            let v = update_plan(file, dir, name).after_stop().after_run(Ok(pull));
            &&& v.next_command() is None
            &&& v.outcome() == Ok::<UpdateView, (ErrorKind, Seq<char>)>(
                UpdateView { success: false, output: pull.stdout, error: Some(pull.stderr) },
            )
        }),
{
    let v = update_plan(file, dir, name).after_stop().after_run(Ok(pull));
    assert(v.outputs =~= seq![pull]);
    assert(v.outputs.map_values(|o: CommandOutputView| o.stdout) =~= seq![pull.stdout]);
}

/// Updating the whole stack when taking it down, pulling and bringing it up all
/// succeed: each step runs once, in that order, and the outcome is a success whose
/// output is the three steps' standard output in order, a newline between each two.
pub proof fn lemma_update_all_succeeds(
    file: Seq<char>,
    dir: Seq<char>,
    down: CommandOutputView,
    pull: CommandOutputView,
    up: CommandOutputView,
)
    requires
        down.success,
        pull.success,
        up.success,
    ensures
        ({
            let p = update_all_plan(file, dir);
            let v = p.after_run(Ok(down)).after_run(Ok(pull)).after_run(Ok(up));
            &&& p.next_command() == Some(
                ExternalCommandView { program: "docker"@, args: compose_args(file, seq!["down"@]), dir },
            )
            &&& p.after_run(Ok(down)).next_command() == Some(
                ExternalCommandView { program: "docker"@, args: compose_args(file, seq!["pull"@]), dir },
            )
            &&& p.after_run(Ok(down)).after_run(Ok(pull)).next_command() == Some(
                ExternalCommandView {
                    program: "docker"@,
                    args: compose_args(file, seq!["up"@, "-d"@]),
                    dir,
                },
            )
            &&& v.next_command() is None
            &&& v.outcome() == Ok::<UpdateView, (ErrorKind, Seq<char>)>(
                UpdateView {
                    success: true,
                    output: down.stdout + "\n"@ + pull.stdout + "\n"@ + up.stdout,
                    error: None,
                },
            )
        }),
{
    let p = update_all_plan(file, dir);
    let v = p.after_run(Ok(down)).after_run(Ok(pull)).after_run(Ok(up));
    assert(p.after_run(Ok(down)).outputs =~= seq![down]);
    assert(p.after_run(Ok(down)).after_run(Ok(pull)).outputs =~= seq![down, pull]);
    assert(v.outputs =~= seq![down, pull, up]);
    let outs = v.outputs.map_values(|o: CommandOutputView| o.stdout);
    assert(outs =~= seq![down.stdout, pull.stdout, up.stdout]);
    assert(outs.drop_last() =~= seq![down.stdout, pull.stdout]);
    assert(outs.drop_last().drop_last() =~= seq![down.stdout]);
    assert(join_lines(seq![down.stdout]) == down.stdout);
    assert(join_lines(seq![down.stdout, pull.stdout]) == down.stdout + "\n"@ + pull.stdout);
    assert(join_lines(outs) == down.stdout + "\n"@ + pull.stdout + "\n"@ + up.stdout);
}

} // verus!

verus! {

/// Whether `state` is one of the states the container runtime documents.
pub open spec fn is_known_state(state: Seq<char>) -> bool {
    state == "running"@ || state == "exited"@ || state == "paused"@ || state == "restarting"@
        || state == "dead"@ || state == "created"@ || state == "removing"@
}

/// The status mapping is total and depends on the state string alone: "running",
/// "exited" and "paused" give `Running`, `Stopped` and `Paused`; the empty state and
/// every state outside the documented set give `Unknown`. So two inspections that
/// report the same state give the same status.
pub proof fn lemma_status_mapping(state: Seq<char>, other: Seq<char>)
    ensures
        status_of("running"@) == ContainerStatus::Running,
        status_of("exited"@) == ContainerStatus::Stopped,
        status_of("paused"@) == ContainerStatus::Paused,
        status_of(Seq::empty()) == ContainerStatus::Unknown,
        !is_known_state(state) ==> status_of(state) == ContainerStatus::Unknown,
        state == other ==> status_of(state) == status_of(other),
{
    reveal_strlit("running");
    reveal_strlit("exited");
    reveal_strlit("paused");
    reveal_strlit("restarting");
    reveal_strlit("dead");
    reveal_strlit("created");
    reveal_strlit("removing");
    assert("running"@.len() == 7 && "exited"@.len() == 6);
    assert("running"@ != "exited"@);
    assert("paused"@.len() == 6 && "paused"@[0] != "exited"@[0]);
    assert("paused"@ != "exited"@);
    assert("paused"@ != "running"@);
    assert(Seq::<char>::empty().len() != "running"@.len());
    assert(Seq::<char>::empty() != "running"@);
    assert(Seq::<char>::empty() != "exited"@);
    assert(Seq::<char>::empty() != "paused"@);
    assert(Seq::<char>::empty() != "restarting"@);
    assert(Seq::<char>::empty() != "dead"@);
    assert(Seq::<char>::empty() != "created"@);
    assert(Seq::<char>::empty() != "removing"@);
}

/// Collecting statuses is best effort: a further name whose inspection fails adds
/// nothing and leaves what was collected as it was, while one that resolves adds
/// exactly its own information at the end.
pub proof fn lemma_best_effort_collection(
    names: Seq<Seq<char>>,
    answers: Seq<core::result::Result<InspectReport, String>>,
    name: Seq<char>,
    answer: core::result::Result<InspectReport, String>,
)
    requires
        names.len() == answers.len(),
    ensures
        inspect_outcome(name, answer) is Err ==> resolved(names.push(name), answers.push(answer))
            == resolved(names, answers),
        inspect_outcome(name, answer) matches Ok(info) ==> resolved(
            names.push(name),
            answers.push(answer),
        ) == resolved(names, answers).push(info),
{
    let n = answers.len();
    assert(names.push(name).take(n as int) =~= names);
    assert(answers.push(answer).take(n as int) =~= answers);
}

} // verus!
