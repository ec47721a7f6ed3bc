use vstd::prelude::*;
use crate::command::{ExternalCommand, ExternalCommandView, texts};
use crate::error::{ErrorKind, MonitorError, Result};
use crate::text::contains_seq;

verus! {

/// Milliseconds to wait after launching before checking that the process survived.
pub const START_GRACE_MS: u64 = 500;

/// Milliseconds between two liveness polls while waiting for a graceful exit.
pub const STOP_POLL_MS: u64 = 100;

/// Milliseconds to wait for a graceful exit before killing the process.
pub const STOP_TIMEOUT_MS: u64 = 10000;

/// Milliseconds to let a killed process settle before reaping it.
pub const KILL_SETTLE_MS: u64 = 500;

/// Milliseconds to wait between the stop and the start of a restart.
pub const RESTART_SETTLE_MS: u64 = 500;

/// Supervises at most one externally spawned process: its working directory, its
/// launch command, and the process id of the live handle, if there is one.
///
/// The caller owns the process itself and performs what the supervisor asks for;
/// the liveness probe it passes in (`alive`) is a signal-zero check of the tracked
/// process id.
pub struct AppManager {
    working_dir: String,
    start_command: Vec<String>,
    pid: Option<u32>,
}

impl AppManager {
    pub closed spec fn spec_working_dir(&self) -> Seq<char> {
        self.working_dir@
    }

    pub closed spec fn spec_command(&self) -> Seq<Seq<char>> {
        texts(self.start_command@)
    }

    /// The process id of the handle, if one is held.
    pub closed spec fn spec_pid(&self) -> Option<u32> {
        self.pid
    }

    /// Whether the tracked process is running, given the probe of its id.
    pub open spec fn spec_running(&self, alive: bool) -> bool {
        self.spec_pid() is Some && alive
    }

    /// The escalation that a stop runs: none when the process is not running.
    pub open spec fn spec_stop(&self, alive: bool) -> Option<StopSequence> {
        if self.spec_running(alive) {
            Some(StopSequence::begin(self.spec_pid()->Some_0))
        } else {
            None
        }
    }

    /// A supervisor for the given working directory and command (program first,
    /// then its arguments), holding no process yet.
    pub fn new(working_dir: String, start_command: Vec<String>) -> (r: AppManager)
        ensures
            r.spec_working_dir() == working_dir@,
            r.spec_command() == texts(start_command@),
            r.spec_pid() is None,
    {
        AppManager { working_dir, start_command, pid: None }
    }

    /// The process id of the handle, whether or not the process still runs: the id
    /// that the liveness probe should check.
    pub fn tracked_pid(&self) -> (r: Option<u32>)
        ensures
            r == self.spec_pid(),
    {
        self.pid
    }

    /// Whether the managed process is running: a handle is held and the probe of its
    /// id succeeded. Reads nothing else and changes nothing.
    pub fn is_running(&self, alive: bool) -> (r: bool)
        ensures
            r == self.spec_running(alive),
    {
        self.pid.is_some() && alive
    }

    /// Whether the application is healthy. Today this is liveness alone; it stays a
    /// separate operation so that richer checks can be added behind the same call.
    pub fn health_check(&self, alive: bool) -> (r: Result<bool>)
        ensures
            r matches Ok(h) && h == self.spec_running(alive),
    {
        Ok(self.is_running(alive))
    }

    /// The process id, while the process is running.
    pub fn get_pid(&self, alive: bool) -> (r: Option<u32>)
        ensures
            r == (if self.spec_running(alive) {
                self.spec_pid()
            } else {
                None
            }),
    {
        if self.is_running(alive) {
            self.pid
        } else {
            None
        }
    }

    /// The first step of a start: what to launch. A start while the process runs is
    /// refused and leaves the handle as it is; an empty command is refused. The
    /// caller then spawns the command with its output captured, records the launch,
    /// waits `START_GRACE_MS` and confirms the start.
    pub fn start(&self, alive: bool) -> (r: Result<ExternalCommand>)
        ensures
            self.spec_running(alive) ==> (r matches Err(e) && e@ == (
                ErrorKind::AppManager,
                "Application is already running"@,
            )),
            !self.spec_running(alive) && self.spec_command().len() == 0 ==> (r matches Err(e)
                && e@ == (ErrorKind::AppManager, "Start command is empty"@)),
            !self.spec_running(alive) && self.spec_command().len() > 0 ==> (r matches Ok(c) && c@
                == ExternalCommandView {
                program: self.spec_command()[0],
                args: self.spec_command().drop_first(),
                dir: self.spec_working_dir(),
            }),
    {
        if self.is_running(alive) {
            return Err(MonitorError::AppManager("Application is already running".to_string()));
        }
        if self.start_command.len() == 0 {
            return Err(MonitorError::AppManager("Start command is empty".to_string()));
        }
        let mut args: Vec<String> = Vec::new();
        let mut i: usize = 1;
        let n = self.start_command.len();
        while i < n
            invariant
                1 <= i <= n,
                n == self.start_command@.len(),
                texts(args@) == texts(self.start_command@).subrange(1, i as int),
            decreases n - i,
        {
            let ghost before = args@;
            args.push(self.start_command[i].clone());
            assert(texts(args@) =~= texts(before).push(self.start_command@[i as int]@));
            assert(texts(self.start_command@).subrange(1, i + 1) =~= texts(
                self.start_command@,
            ).subrange(1, i as int).push(self.start_command@[i as int]@));
            i = i + 1;
        }
        assert(texts(self.start_command@).subrange(1, n as int) =~= texts(
            self.start_command@,
        ).drop_first());
        Ok(ExternalCommand {
            program: self.start_command[0].clone(),
            args,
            dir: self.working_dir.clone(),
        })
    }

    /// The error for a launch that could not be spawned.
    pub fn spawn_error(detail: &str) -> (r: MonitorError)
        ensures
            r@ == (ErrorKind::AppManager, "Failed to start application: "@ + detail@),
    {
        let mut m = "Failed to start application: ".to_string();
        m.append(detail);
        MonitorError::AppManager(m)
    }

    /// Records the handle of a process just spawned.
    pub fn record_launch(&mut self, pid: u32)
        ensures
            final(self).spec_pid() == Some(pid),
            final(self).spec_working_dir() == old(self).spec_working_dir(),
            final(self).spec_command() == old(self).spec_command(),
    {
        self.pid = Some(pid);
    }

    /// The check after the grace period: the start stands if the process is still
    /// alive. Otherwise the handle is given up (the caller drains the captured
    /// output from it and reports `crash_error`).
    pub fn confirm_start(&mut self, alive: bool) -> (r: bool)
        ensures
            r == alive,
            final(self).spec_pid() == (if alive {
                old(self).spec_pid()
            } else {
                None
            }),
            final(self).spec_working_dir() == old(self).spec_working_dir(),
            final(self).spec_command() == old(self).spec_command(),
    {
        if !alive {
            self.pid = None;
        }
        alive
    }

    /// The error for a process that died within the grace period, embedding its
    /// captured standard output and standard error when they could be drained.
    pub fn crash_error(captured: Option<(String, String)>) -> (r: MonitorError)
        ensures
            r@ == (ErrorKind::AppManager, crash_message(captured)),
    {
        let mut m = "Application crashed immediately after start. ".to_string();
        if let Some((out, err)) = captured {
            m.append("stdout: ");
            m.append(out.as_str());
            m.append(", stderr: ");
            m.append(err.as_str());
        }
        MonitorError::AppManager(m)
    }

    /// The first step of a stop: the escalation to run, or `None` when the process is
    /// not running, in which case the stop has succeeded already. Once the sequence
    /// asks for `Release`, the caller calls `finish_stop`.
    pub fn stop(&self, alive: bool) -> (r: Option<StopSequence>)
        ensures
            r == self.spec_stop(alive),
    {
        match self.pid {
            Some(pid) => if alive {
                Some(StopSequence::new(pid))
            } else {
                None
            },
            None => None,
        }
    }

    /// The end of a stop: the handle is released, whether or not the process was
    /// confirmed gone. A stop never fails.
    pub fn finish_stop(&mut self)
        ensures
            final(self).spec_pid() is None,
            final(self).spec_working_dir() == old(self).spec_working_dir(),
            final(self).spec_command() == old(self).spec_command(),
    {
        self.pid = None;
    }

    /// The first step of a restart: the stop to run if the process is running. Then
    /// the caller waits `RESTART_SETTLE_MS` and starts again; that start's failure is
    /// the restart's failure.
    pub fn restart(&self, alive: bool) -> (r: Option<StopSequence>)
        ensures
            r == self.spec_stop(alive),
    {
        self.stop(alive)
    }

    /// Explicit teardown: the stop to run so that no process outlives its supervisor.
    pub fn shutdown(&self, alive: bool) -> (r: Option<StopSequence>)
        ensures
            r == self.spec_stop(alive),
    {
        self.stop(alive)
    }
}

/// The message of a start that crashed within the grace period.
pub open spec fn crash_message(captured: Option<(String, String)>) -> Seq<char> {
    match captured {
        Some((out, err)) => "Application crashed immediately after start. "@ + "stdout: "@ + out@
            + ", stderr: "@ + err@,
        None => "Application crashed immediately after start. "@,
    }
}

/// The stage of a stop sequence.
#[derive(Clone, Copy, Debug, PartialEq, Eq, Structural)]
pub enum StopPhase {
    SignalTerm,
    Poll,
    Wait,
    SignalKill,
    Settle,
    Reap,
    Done,
}

/// What a stop sequence asks the caller to do next.
#[derive(Clone, Copy, Debug, PartialEq, Eq, Structural)]
pub enum StopAction {
    /// Send the graceful-termination signal to this process id; a failure is only logged.
    SendTerm(u32),
    /// Check, without blocking, whether the process has exited.
    CheckExited,
    /// Sleep this many milliseconds.
    Sleep(u64),
    /// Send the forceful-kill signal to this process id; a failure is only logged.
    SendKill(u32),
    /// Try once to reap the process; the outcome is only logged.
    Reap,
    /// The sequence is over: release the handle (`AppManager::finish_stop`).
    Release,
}

/// What the caller learnt from the last action. Only `CheckExited` is answered with
/// anything but `Done`.
#[derive(Clone, Copy, Debug, PartialEq, Eq, Structural)]
pub enum StopReport {
    Done,
    Exited,
    StillRunning,
    /// The check itself failed; the process counts as still running.
    CheckFailed,
}

/// The escalation of a stop: graceful termination, polls every `STOP_POLL_MS` up to
/// `STOP_TIMEOUT_MS`, then a forceful kill, a settle delay and one reap attempt.
/// `waited_ms` counts the polling sleeps ordered so far.
#[derive(Clone, Copy, Debug, PartialEq, Eq, Structural)]
pub struct StopSequence {
    pub pid: u32,
    pub phase: StopPhase,
    pub waited_ms: u64,
}

impl StopSequence {
    pub open spec fn begin(pid: u32) -> StopSequence {
        StopSequence { pid, phase: StopPhase::SignalTerm, waited_ms: 0 }
    }

    pub open spec fn wf(self) -> bool {
        &&& self.waited_ms <= STOP_TIMEOUT_MS
        &&& self.waited_ms % STOP_POLL_MS == 0
        &&& self.phase == StopPhase::SignalTerm ==> self.waited_ms == 0
        &&& (self.phase == StopPhase::Poll || self.phase == StopPhase::Wait) ==> self.waited_ms
            < STOP_TIMEOUT_MS
    }

    pub open spec fn spec_action(self) -> StopAction {
        match self.phase {
            StopPhase::SignalTerm => StopAction::SendTerm(self.pid),
            StopPhase::Poll => StopAction::CheckExited,
            StopPhase::Wait => StopAction::Sleep(STOP_POLL_MS),
            StopPhase::SignalKill => StopAction::SendKill(self.pid),
            StopPhase::Settle => StopAction::Sleep(KILL_SETTLE_MS),
            StopPhase::Reap => StopAction::Reap,
            StopPhase::Done => StopAction::Release,
        }
    }

    /// The sequence after its action was carried out with report `report`.
    pub open spec fn spec_advance(self, report: StopReport) -> StopSequence {
        match self.phase {
            StopPhase::SignalTerm => StopSequence { phase: StopPhase::Poll, ..self },
            StopPhase::Poll => if report == StopReport::Exited {
                StopSequence { phase: StopPhase::Done, ..self }
            } else {
                StopSequence { phase: StopPhase::Wait, ..self }
            },
            StopPhase::Wait => {
                let waited = (self.waited_ms + STOP_POLL_MS) as u64;
                if waited < STOP_TIMEOUT_MS {
                    StopSequence { phase: StopPhase::Poll, waited_ms: waited, ..self }
                } else {
                    StopSequence { phase: StopPhase::SignalKill, waited_ms: waited, ..self }
                }
            },
            StopPhase::SignalKill => StopSequence { phase: StopPhase::Settle, ..self },
            StopPhase::Settle => StopSequence { phase: StopPhase::Reap, ..self },
            StopPhase::Reap => StopSequence { phase: StopPhase::Done, ..self },
            StopPhase::Done => self,
        }
    }

    pub fn new(pid: u32) -> (r: StopSequence)
        ensures
            r == StopSequence::begin(pid),
            r.wf(),
    {
        StopSequence { pid, phase: StopPhase::SignalTerm, waited_ms: 0 }
    }

    pub fn action(&self) -> (r: StopAction)
        ensures
            r == self.spec_action(),
    {
        match self.phase {
            StopPhase::SignalTerm => StopAction::SendTerm(self.pid),
            StopPhase::Poll => StopAction::CheckExited,
            StopPhase::Wait => StopAction::Sleep(STOP_POLL_MS),
            StopPhase::SignalKill => StopAction::SendKill(self.pid),
            StopPhase::Settle => StopAction::Sleep(KILL_SETTLE_MS),
            StopPhase::Reap => StopAction::Reap,
            StopPhase::Done => StopAction::Release,
        }
    }

    pub fn advance(&mut self, report: StopReport)
        requires
            old(self).wf(),
        ensures
            *final(self) == old(self).spec_advance(report),
            final(self).wf(),
    {
        match self.phase {
            StopPhase::SignalTerm => {
                self.phase = StopPhase::Poll;
            },
            StopPhase::Poll => {
                if report == StopReport::Exited {
                    self.phase = StopPhase::Done;
                } else {
                    self.phase = StopPhase::Wait;
                }
            },
            StopPhase::Wait => {
                let waited = self.waited_ms + STOP_POLL_MS;
                self.waited_ms = waited;
                if waited < STOP_TIMEOUT_MS {
                    self.phase = StopPhase::Poll;
                } else {
                    self.phase = StopPhase::SignalKill;
                }
            },
            StopPhase::SignalKill => {
                self.phase = StopPhase::Settle;
            },
            StopPhase::Settle => {
                self.phase = StopPhase::Reap;
            },
            StopPhase::Reap => {
                self.phase = StopPhase::Done;
            },
            StopPhase::Done => {},
        }
    }
}

} // verus!

verus! {

/// The stop sequence after `n` steps in which every check finds the process still
/// running.
pub open spec fn run_ignored(s: StopSequence, n: nat) -> StopSequence
    decreases n,
{
    if n == 0 {
        s
    } else {
        run_ignored(s.spec_advance(StopReport::StillRunning), (n - 1) as nat)
    }
}

/// Milliseconds of sleep that an action orders.
pub open spec fn sleep_of(a: StopAction) -> int {
    match a {
        StopAction::Sleep(ms) => ms as int,
        _ => 0,
    }
}

/// Milliseconds of sleep ordered over the first `n` steps in which every check
/// finds the process still running.
pub open spec fn slept_ignored(s: StopSequence, n: nat) -> int
    decreases n,
{
    if n == 0 {
        0
    } else {
        sleep_of(s.spec_action()) + slept_ignored(
            s.spec_advance(StopReport::StillRunning),
            (n - 1) as nat,
        )
    }
}

proof fn lemma_ignored_polling(pid: u32, w: u64)
    requires
        w < STOP_TIMEOUT_MS,
        w % STOP_POLL_MS == 0,
    ensures
        ({
            let s = StopSequence { pid, phase: StopPhase::Poll, waited_ms: w };
            let n = (2 * ((STOP_TIMEOUT_MS - w) / STOP_POLL_MS as int)) as nat;
            &&& run_ignored(s, n) == StopSequence {
                pid,
                phase: StopPhase::SignalKill,
                waited_ms: STOP_TIMEOUT_MS,
            }
            &&& slept_ignored(s, n) == STOP_TIMEOUT_MS - w
            &&& forall|i: nat| i < n ==> run_ignored(s, i).phase != StopPhase::SignalKill
        }),
    decreases STOP_TIMEOUT_MS - w,
{
    let s = StopSequence { pid, phase: StopPhase::Poll, waited_ms: w };
    let n = (2 * ((STOP_TIMEOUT_MS - w) / STOP_POLL_MS as int)) as nat;
    let s1 = s.spec_advance(StopReport::StillRunning);
    let s2 = s1.spec_advance(StopReport::StillRunning);
    assert(n >= 2);
    assert(run_ignored(s, n) == run_ignored(s1, (n - 1) as nat));
    assert(slept_ignored(s, n) == sleep_of(s.spec_action()) + slept_ignored(s1, (n - 1) as nat));
    assert(run_ignored(s1, (n - 1) as nat) == run_ignored(s2, (n - 2) as nat));
    assert(slept_ignored(s1, (n - 1) as nat) == sleep_of(s1.spec_action()) + slept_ignored(
        s2,
        (n - 2) as nat,
    ));
    assert(run_ignored(s, n) == run_ignored(s2, (n - 2) as nat));
    assert(slept_ignored(s, n) == sleep_of(s.spec_action()) + sleep_of(s1.spec_action())
        + slept_ignored(s2, (n - 2) as nat));
    if w + STOP_POLL_MS < STOP_TIMEOUT_MS {
        lemma_ignored_polling(pid, (w + STOP_POLL_MS) as u64);
        assert((n - 2) as nat == (2 * ((STOP_TIMEOUT_MS - (w + STOP_POLL_MS)) / STOP_POLL_MS as int)) as nat);
        let t = (n - 2) as nat;
        assert forall|i: nat| i < n implies run_ignored(s, i).phase != StopPhase::SignalKill by {
            if i >= 2 {
                assert(run_ignored(s, i) == run_ignored(s1, (i - 1) as nat));
                assert(run_ignored(s1, (i - 1) as nat) == run_ignored(s2, (i - 2) as nat));
                assert(((i - 2) as nat) < t);
            } else if i == 1 {
                assert(run_ignored(s1, 0) == s1);
                assert(run_ignored(s, 1) == s1);
            }
        }
    } else {
        assert(n == 2);
        assert(run_ignored(s2, 0) == s2);
        assert(slept_ignored(s2, 0) == 0);
    }
}

/// A process that ignores graceful termination (every check finds it still running)
/// is escalated on: the sequence first sends the termination signal, polls until
/// `STOP_TIMEOUT_MS` of polling sleep has passed, only then sends the forceful kill,
/// settles, reaps once, and asks to release the handle. In all it orders 10 500 ms
/// of sleep, within [10 000, 11 000] ms.
pub proof fn lemma_stop_escalates_when_ignored(pid: u32)
    ensures
        StopSequence::begin(pid).spec_action() == StopAction::SendTerm(pid),
        forall|i: nat|
            i < 201 ==> #[trigger] run_ignored(StopSequence::begin(pid), i).spec_action()
                != StopAction::SendKill(pid),
        run_ignored(StopSequence::begin(pid), 201).spec_action() == StopAction::SendKill(pid),
        run_ignored(StopSequence::begin(pid), 204).spec_action() == StopAction::Release,
        slept_ignored(StopSequence::begin(pid), 204) == 10500,
        10000 <= slept_ignored(StopSequence::begin(pid), 204) <= 11000,
{
    let b = StopSequence::begin(pid);
    let p = StopSequence { pid, phase: StopPhase::Poll, waited_ms: 0 };
    lemma_ignored_polling(pid, 0);
    assert(b.spec_advance(StopReport::StillRunning) == p);
    let k = StopSequence { pid, phase: StopPhase::SignalKill, waited_ms: STOP_TIMEOUT_MS };
    lemma_run_split(p, 200, 3);
    assert(run_ignored(b, 201) == run_ignored(p, 200));
    assert(run_ignored(b, 204) == run_ignored(p, 203));
    assert(slept_ignored(b, 204) == slept_ignored(p, 203));
    let k1 = k.spec_advance(StopReport::StillRunning);
    let k2 = k1.spec_advance(StopReport::StillRunning);
    let k3 = k2.spec_advance(StopReport::StillRunning);
    assert(run_ignored(k3, 0) == k3);
    assert(run_ignored(k2, 1) == k3);
    assert(run_ignored(k1, 2) == k3);
    assert(run_ignored(k, 3) == k3);
    assert(slept_ignored(k3, 0) == 0);
    assert(slept_ignored(k2, 1) == 0);
    assert(slept_ignored(k1, 2) == KILL_SETTLE_MS);
    assert(slept_ignored(k, 3) == KILL_SETTLE_MS);
    assert forall|i: nat|
        i < 201 implies #[trigger] run_ignored(b, i).spec_action() != StopAction::SendKill(pid) by {
        if i >= 1 {
            assert(run_ignored(b, i) == run_ignored(p, (i - 1) as nat));
        }
    }
}

proof fn lemma_run_split(s: StopSequence, a: nat, b: nat)
    ensures
        run_ignored(s, a + b) == run_ignored(run_ignored(s, a), b),
        slept_ignored(s, a + b) == slept_ignored(s, a) + slept_ignored(run_ignored(s, a), b),
    decreases a,
{
    if a > 0 {
        lemma_run_split(s.spec_advance(StopReport::StillRunning), (a - 1) as nat, b);
        assert((a + b - 1) as nat == (a - 1) as nat + b);
    }
}

/// Stopping is idempotent. A supervisor that holds no process (a new one, or one
/// whose stop has finished and released the handle) is not running whatever the
/// probe says, so a stop runs no escalation and succeeds at once; a stop has no
/// failure to report in any case.
pub proof fn lemma_stop_idempotent(m: AppManager, alive: bool)
    requires
        m.spec_pid() is None,
    ensures
        !m.spec_running(alive),
        m.spec_stop(alive) is None,
{
}

/// The error of a start that crashed within the grace period contains both captured
/// streams: its standard output and its standard error.
pub proof fn lemma_crash_message_embeds_output(out: String, err: String)
    ensures
        contains_seq(crash_message(Some((out, err))), out@),
        contains_seq(crash_message(Some((out, err))), err@),
{
    let head = "Application crashed immediately after start. "@ + "stdout: "@;
    let mid = ", stderr: "@;
    let msg = crash_message(Some((out, err)));
    assert(msg == head + out@ + mid + err@);
    let i = head.len() as int;
    assert(msg.subrange(i, i + out@.len()) =~= out@);
    let j = (head.len() + out@.len() + mid.len()) as int;
    assert(msg.subrange(j, j + err@.len()) =~= err@);
}

} // verus!
