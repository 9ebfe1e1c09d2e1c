//! The life of the background process: whether it runs, how it starts, how it
//! is stopped, and what is reported of it.
//!
//! The liveness marker is a file that holds the process id of the running
//! daemon. The caller reads and removes the file, detaches the process and sends
//! the signal; what to do, and what the marker means, is decided here.
use crate::text::{copy_text, decimal_i32, parse_trimmed_i32, trimmed};
use vstd::prelude::*;

verus! {

/// Where the daemon writes its process id.
pub const PID_FILE: &'static str = "/tmp/clipse.pid";

/// Where the daemon's standard output goes.
pub const STDOUT_FILE: &'static str = "/tmp/clipse.out";

/// Where the daemon's standard error goes.
pub const STDERR_FILE: &'static str = "/tmp/clipse.err";

/// The directory in which the daemon runs.
pub const WORKING_DIRECTORY: &'static str = "/tmp";

/// How long the daemon is given to exit before it is looked for again, in
/// milliseconds.
pub const STOP_WAIT_MILLIS: u64 = 500;

/// How many times the daemon is looked for after the signal.
pub const STOP_POLLS: u32 = 1;

/// What the liveness marker and the process table say of the daemon.
#[derive(Debug, Clone, Copy, PartialEq, Eq, Structural)]
pub enum DaemonState {
    /// No marker, or a marker that names a process that is not alive.
    Stopped,
    /// The marker names this live process.
    Running(i32),
    /// The marker is there and holds no process id.
    Unknown,
}

/// Why a start or a stop did not happen.
#[derive(Debug)]
pub enum LifecycleError {
    /// A live daemon owns the marker.
    AlreadyRunning,
    /// No live daemon owns the marker.
    NotRunning,
    /// The process could not be detached; the text says why.
    DetachFailed(String),
    /// The daemon was still alive when the wait was over.
    StopTimeout,
}

/// What is reported of the daemon.
#[derive(Debug, Clone, Copy, PartialEq, Eq, Structural)]
pub enum LivenessReport {
    Stopped,
    /// The daemon runs as process `pid`. `memory_kb` is its resident memory in
    /// units of 1024 bytes, where that could be read.
    Running { pid: i32, memory_kb: Option<u64> },
}

/// The view of a marker that may be absent.
pub open spec fn marker_text(marker: Option<&str>) -> Option<Seq<char>> {
    match marker {
        Some(text) => Some(text@),
        None => None,
    }
}

/// The process id that a marker holds: the decimal number that it writes,
/// without the white space around it.
pub open spec fn marker_pid(marker: Option<Seq<char>>) -> Option<i32> {
    match marker {
        Some(text) => decimal_i32(trimmed(text)),
        None => None,
    }
}

/// The state of the daemon, given the marker and whether the process that it
/// names is alive. A marker that names a process that is not alive counts as no
/// marker.
pub open spec fn state_of(marker: Option<Seq<char>>, alive: bool) -> DaemonState {
    match marker {
        None => DaemonState::Stopped,
        Some(text) => match decimal_i32(trimmed(text)) {
            None => DaemonState::Unknown,
            Some(pid) => if alive {
                DaemonState::Running(pid)
            } else {
                DaemonState::Stopped
            },
        },
    }
}

/// What is reported of a daemon in `state` whose resident memory is
/// `resident_bytes`, where it could be read.
pub open spec fn report_of(state: DaemonState, resident_bytes: Option<u64>) -> LivenessReport {
    match state {
        DaemonState::Running(pid) => LivenessReport::Running {
            pid,
            memory_kb: match resident_bytes {
                Some(bytes) => Some((bytes / 1024) as u64),
                None => None,
            },
        },
        _ => LivenessReport::Stopped,
    }
}

/// The process id that the marker holds, if it holds one.
pub fn read_pid_file(content: &str) -> (pid: Option<i32>)
    ensures
        pid == decimal_i32(trimmed(content@)),
{
    parse_trimmed_i32(content)
}

/// The state of the daemon, given the marker's content, if the marker is there,
/// and whether the process that it names is alive.
pub fn daemon_state(marker: Option<&str>, alive: bool) -> (state: DaemonState)
    ensures
        state == state_of(marker_text(marker), alive),
{
    match marker {
        None => DaemonState::Stopped,
        Some(text) => match read_pid_file(text) {
            None => DaemonState::Unknown,
            Some(pid) => if alive {
                DaemonState::Running(pid)
            } else {
                DaemonState::Stopped
            },
        },
    }
}

/// What is reported of a daemon in `state` whose resident memory is
/// `resident_bytes`, where it could be read. The report never fails: without the
/// memory it says that the daemon runs, and as which process.
pub fn liveness_report(state: DaemonState, resident_bytes: Option<u64>) -> (report: LivenessReport)
    ensures
        report == report_of(state, resident_bytes),
{
    match state {
        DaemonState::Running(pid) => {
            let memory_kb = match resident_bytes {
                Some(bytes) => Some(bytes / 1024),
                None => None,
            };
            LivenessReport::Running { pid, memory_kb }
        },
        _ => LivenessReport::Stopped,
    }
}

/// sysinfo's snapshot of the machine; only its process table is read here.
#[verifier::external_type_specification]
#[verifier::external_body]
pub struct ExSystem(sysinfo::System);

/// Takes a snapshot of the machine with sysinfo's `System::new_all`. What it
/// holds depends on the machine at that time, so nothing is stated of it.
#[verifier::external_body]
fn new_snapshot() -> (system: sysinfo::System) {
    sysinfo::System::new_all()
}

/// Brings a snapshot up to date with sysinfo's `System::refresh_all`. What it
/// holds afterwards depends on the machine, so nothing is stated of it.
#[verifier::external_body]
fn refresh_snapshot(system: &mut sysinfo::System) {
    system.refresh_all()
}

/// Looks process `pid` up in a snapshot's table of processes with sysinfo's
/// `System::process`, and gives the resident memory in bytes that
/// `Process::memory` reads from the entry, or `None` where there is none.
#[verifier::external_body]
fn resident_memory(system: &sysinfo::System, pid: i32) -> (resident: Option<u64>)
    ensures
        resident == resident_of(residents_in(*system), pid),
{
    match system.process(sysinfo::Pid::from(pid as usize)) {
        Some(process) => Some(process.memory()),
        None => None,
    }
}

/// Looks for process `pid` in a fresh snapshot of the process table: its
/// resident memory in bytes, or `None` where no such process is found.
fn probe_process(pid: i32) -> (resident: Option<u64>)
    ensures
        probed(pid, resident),
{
    let mut system = new_snapshot();
    refresh_snapshot(&mut system);
    resident_memory(&system, pid)
}

impl DaemonState {
    /// Whether the daemon runs.
    pub open spec fn running(self) -> bool {
        self is Running
    }

    /// Whether the daemon runs.
    pub fn is_running(&self) -> (r: bool)
        ensures
            r == self.running(),
    {
        match self {
            DaemonState::Running(_) => true,
            _ => false,
        }
    }
}

/// A stale marker counts as absent: where the marker names a process that is not
/// alive, the daemon is stopped and does not run.
pub proof fn lemma_stale_marker(marker: Seq<char>)
    requires
        decimal_i32(trimmed(marker)) is Some,
    ensures
        state_of(Some(marker), false) == DaemonState::Stopped,
        !state_of(Some(marker), false).running(),
{
}

/// The daemon runs only where the marker holds the id of a live process.
pub proof fn lemma_running_needs_live_pid(marker: Option<Seq<char>>, alive: bool)
    ensures
        state_of(marker, alive).running() <==> alive && marker_pid(marker) is Some,
        state_of(marker, alive) matches DaemonState::Running(pid) ==> marker_pid(marker) == Some(
            pid,
        ),
{
}

/// What the caller is to do to detach the process: where its output goes, where
/// it runs and where it writes its process id.
#[derive(Debug)]
pub struct DetachPlan {
    pub pid_file: String,
    pub stdout_file: String,
    pub stderr_file: String,
    pub working_directory: String,
}

/// Where a stop stands.
#[derive(Debug, Clone, Copy, PartialEq, Eq, Structural)]
pub enum StopPhase {
    /// The signal is to be sent.
    Signalling,
    /// The daemon is to be looked for again after a wait, `polls_left` more
    /// times at most.
    Waiting { polls_left: u32 },
    /// The daemon has exited: the marker is to be removed.
    Removing,
    /// The daemon was stopped and the marker removed.
    Stopped,
    /// The signal could not be sent: no such daemon.
    Vanished,
    /// The daemon outlived the wait.
    TimedOut,
}

/// What the caller is to do next to stop the daemon.
#[derive(Debug)]
pub enum StopAction {
    /// Send the signal that asks process `pid` to end.
    SendTerminate { pid: i32 },
    /// Wait for `millis` milliseconds, then look whether process `pid` is alive.
    WaitThenProbe { pid: i32, millis: u64 },
    /// Remove the liveness marker.
    RemoveMarker,
    /// Stop: the daemon was stopped, or it was not, for this reason.
    Finish(Result<(), LifecycleError>),
}

/// What the caller reports back.
#[derive(Debug, Clone, Copy, PartialEq, Eq, Structural)]
pub enum StopEvent {
    /// The signal was sent, or could not be.
    Signalled { sent: bool },
    /// The process was looked for after the wait.
    Probed { alive: bool },
    /// The marker is gone.
    MarkerRemoved,
}

/// The phase that follows the signal: the wait, where the daemon is looked for
/// at all.
pub open spec fn waiting_for(polls: u32) -> StopPhase {
    if polls > 0 {
        StopPhase::Waiting { polls_left: polls }
    } else {
        StopPhase::TimedOut
    }
}

/// The phase that follows `phase` once `event` is reported, where the daemon is
/// looked for `polls` times. An event that the phase does not wait for changes
/// nothing. A daemon that outlives the wait is left alone: no second signal.
pub open spec fn stop_after(polls: u32, phase: StopPhase, event: StopEvent) -> StopPhase {
    match (phase, event) {
        (StopPhase::Signalling, StopEvent::Signalled { sent }) => if sent {
            waiting_for(polls)
        } else {
            StopPhase::Vanished
        },
        (StopPhase::Waiting { polls_left }, StopEvent::Probed { alive }) => if !alive {
            StopPhase::Removing
        } else if polls_left > 1 {
            StopPhase::Waiting { polls_left: (polls_left - 1) as u32 }
        } else {
            StopPhase::TimedOut
        },
        (StopPhase::Removing, StopEvent::MarkerRemoved) => StopPhase::Stopped,
        _ => phase,
    }
}

/// The phase reached from `phase` once all of `events` are reported, in order.
pub open spec fn stop_after_all(polls: u32, phase: StopPhase, events: Seq<StopEvent>) -> StopPhase
    decreases events.len(),
{
    if events.len() == 0 {
        phase
    } else {
        stop_after_all(polls, stop_after(polls, phase, events[0]), events.drop_first())
    }
}

/// Whether a stop in this phase has ended.
pub open spec fn stop_ended(phase: StopPhase) -> bool {
    phase is Stopped || phase is Vanished || phase is TimedOut
}

/// The stopping of one daemon, from the signal to the removal of the marker.
#[derive(Debug)]
pub struct StopSequence {
    pub pid: i32,
    pub wait_millis: u64,
    pub polls: u32,
    pub phase: StopPhase,
}

impl StopSequence {
    /// What the caller is to do in this phase.
    pub open spec fn action(self) -> StopAction {
        match self.phase {
            StopPhase::Signalling => StopAction::SendTerminate { pid: self.pid },
            StopPhase::Waiting { polls_left } => StopAction::WaitThenProbe {
                pid: self.pid,
                millis: self.wait_millis,
            },
            StopPhase::Removing => StopAction::RemoveMarker,
            StopPhase::Stopped => StopAction::Finish(Ok(())),
            StopPhase::Vanished => StopAction::Finish(Err(LifecycleError::NotRunning)),
            StopPhase::TimedOut => StopAction::Finish(Err(LifecycleError::StopTimeout)),
        }
    }

    /// The sequence once `event` is reported.
    pub open spec fn after(self, event: StopEvent) -> StopSequence {
        StopSequence { phase: stop_after(self.polls, self.phase, event), ..self }
    }

    /// What the caller is to do now.
    pub fn next_action(&self) -> (action: StopAction)
        ensures
            action == self.action(),
    {
        match self.phase {
            StopPhase::Signalling => StopAction::SendTerminate { pid: self.pid },
            StopPhase::Waiting { polls_left } => StopAction::WaitThenProbe {
                pid: self.pid,
                millis: self.wait_millis,
            },
            StopPhase::Removing => StopAction::RemoveMarker,
            StopPhase::Stopped => StopAction::Finish(Ok(())),
            StopPhase::Vanished => StopAction::Finish(Err(LifecycleError::NotRunning)),
            StopPhase::TimedOut => StopAction::Finish(Err(LifecycleError::StopTimeout)),
        }
    }

    /// Takes in what the caller reports. An event that the phase does not wait
    /// for changes nothing.
    pub fn record(&mut self, event: StopEvent)
        ensures
            *final(self) == old(self).after(event),
    {
        let next = match (self.phase, event) {
            (StopPhase::Signalling, StopEvent::Signalled { sent }) => {
                if !sent {
                    StopPhase::Vanished
                } else if self.polls > 0 {
                    StopPhase::Waiting { polls_left: self.polls }
                } else {
                    StopPhase::TimedOut
                }
            },
            (StopPhase::Waiting { polls_left }, StopEvent::Probed { alive }) => {
                if !alive {
                    StopPhase::Removing
                } else if polls_left > 1 {
                    StopPhase::Waiting { polls_left: polls_left - 1 }
                } else {
                    StopPhase::TimedOut
                }
            },
            (StopPhase::Removing, StopEvent::MarkerRemoved) => StopPhase::Stopped,
            (phase, _) => phase,
        };
        self.phase = next;
    }

    /// Takes in what the caller reports and says what to do next.
    pub fn step(&mut self, event: StopEvent) -> (action: StopAction)
        ensures
            *final(self) == old(self).after(event),
            action == final(self).action(),
    {
        self.record(event);
        self.next_action()
    }
}

/// The supervisor of the background process.
#[derive(Debug)]
pub struct Daemon {
    pub pid_file: String,
    pub stdout_file: String,
    pub stderr_file: String,
    pub working_directory: String,
    pub stop_wait_millis: u64,
    pub stop_polls: u32,
}

impl Daemon {
    /// Whether `plan` is the plan by which this supervisor detaches.
    pub open spec fn plans(self, plan: DetachPlan) -> bool {
        &&& plan.pid_file@ == self.pid_file@
        &&& plan.stdout_file@ == self.stdout_file@
        &&& plan.stderr_file@ == self.stderr_file@
        &&& plan.working_directory@ == self.working_directory@
    }

    /// The sequence by which this supervisor stops process `pid`, at its start.
    pub open spec fn stops(self, pid: i32) -> StopSequence {
        StopSequence {
            pid,
            wait_millis: self.stop_wait_millis,
            polls: self.stop_polls,
            phase: StopPhase::Signalling,
        }
    }

    /// The supervisor with the fixed paths and the fixed wait.
    pub fn new() -> (daemon: Daemon)
        ensures
            daemon.pid_file@ == PID_FILE@,
            daemon.stdout_file@ == STDOUT_FILE@,
            daemon.stderr_file@ == STDERR_FILE@,
            daemon.working_directory@ == WORKING_DIRECTORY@,
            daemon.stop_wait_millis == STOP_WAIT_MILLIS,
            daemon.stop_polls == STOP_POLLS,
    {
        Daemon {
            pid_file: copy_text(PID_FILE),
            stdout_file: copy_text(STDOUT_FILE),
            stderr_file: copy_text(STDERR_FILE),
            working_directory: copy_text(WORKING_DIRECTORY),
            stop_wait_millis: STOP_WAIT_MILLIS,
            stop_polls: STOP_POLLS,
        }
    }

    /// The state of the daemon, given the marker's content, if the marker is
    /// there. Whether the process that the marker names is alive is looked up in
    /// the process table; a marker that names no process is not looked up.
    pub fn state(&self, marker: Option<&str>) -> (state: DaemonState)
        ensures
            state == state_of(marker_text(marker), true) || state == state_of(
                marker_text(marker),
                false,
            ),
            seen_state(marker_text(marker), state),
    {
        match marker {
            None => DaemonState::Stopped,
            Some(text) => match read_pid_file(text) {
                None => DaemonState::Unknown,
                Some(pid) => {
                    let found = probe_process(pid);
                    daemon_state(marker, found.is_some())
                },
            },
        }
    }

    /// Whether the daemon runs: whether the marker is there and names a process
    /// that a fresh snapshot of the process table holds.
    pub fn is_running(&self, marker: Option<&str>) -> (running: bool)
        ensures
            seen_running(marker_text(marker), running),
    {
        self.state(marker).is_running()
    }

    /// Decides a start, given the state of the daemon: refused where a daemon
    /// runs, and the plan by which to detach otherwise.
    pub fn start_from(&self, state: DaemonState) -> (r: Result<DetachPlan, LifecycleError>)
        ensures
            state.running() <==> r is Err,
            r matches Err(e) ==> e is AlreadyRunning,
            r matches Ok(plan) ==> self.plans(plan),
    {
        if state.is_running() {
            Err(LifecycleError::AlreadyRunning)
        } else {
            Ok(
                DetachPlan {
                    pid_file: self.pid_file.clone(),
                    stdout_file: self.stdout_file.clone(),
                    stderr_file: self.stderr_file.clone(),
                    working_directory: self.working_directory.clone(),
                },
            )
        }
    }

    /// Starts the daemon, as far as that is decided here: looks whether one
    /// runs, refuses where it does, and hands out the plan by which the caller
    /// detaches the process otherwise. Nothing is written where it refuses.
    pub fn start(&self, marker: Option<&str>) -> (r: Result<DetachPlan, LifecycleError>)
        ensures
            marker_pid(marker_text(marker)) is None ==> r is Ok,
            r matches Err(e) ==> e is AlreadyRunning,
            r matches Ok(plan) ==> self.plans(plan),
    {
        let state = self.state(marker);
        self.start_from(state)
    }

    /// The error of a start whose detaching failed for `reason`.
    pub fn detach_failed(reason: String) -> (e: LifecycleError)
        ensures
            e == LifecycleError::DetachFailed(reason),
    {
        LifecycleError::DetachFailed(reason)
    }

    /// Decides a stop, given the state of the daemon: refused where no daemon
    /// runs, and the sequence that stops the running one otherwise. Where it
    /// refuses there is no sequence, so no signal is sent.
    pub fn stop_from(&self, state: DaemonState) -> (r: Result<StopSequence, LifecycleError>)
        ensures
            match state {
                DaemonState::Running(pid) => r == Ok::<StopSequence, LifecycleError>(
                    self.stops(pid),
                ),
                _ => r == Err::<StopSequence, LifecycleError>(LifecycleError::NotRunning),
            },
    {
        match state {
            DaemonState::Running(pid) => Ok(
                StopSequence {
                    pid,
                    wait_millis: self.stop_wait_millis,
                    polls: self.stop_polls,
                    phase: StopPhase::Signalling,
                },
            ),
            _ => Err(LifecycleError::NotRunning),
        }
    }

    /// Stops the daemon, as far as that is decided here: looks whether one runs,
    /// refuses where none does, and hands out the sequence by which the caller
    /// stops it otherwise.
    pub fn stop(&self, marker: Option<&str>) -> (r: Result<StopSequence, LifecycleError>)
        ensures
            marker_pid(marker_text(marker)) is None ==> r is Err,
            r matches Err(e) ==> e is NotRunning,
            r matches Ok(sequence) ==> marker_pid(marker_text(marker)) == Some(sequence.pid)
                && sequence == self.stops(sequence.pid),
    {
        let state = self.state(marker);
        self.stop_from(state)
    }

    /// What is reported of the daemon, by the marker and two fresh snapshots of
    /// the process table. It never fails: at worst the memory is left out.
    pub fn status(&self, marker: Option<&str>) -> (report: LivenessReport)
        ensures
            seen_report(marker_text(marker), report),
    {
        let state = self.state(marker);
        match state {
            DaemonState::Running(pid) => liveness_report(state, probe_process(pid)),
            _ => liveness_report(state, None),
        }
    }
}

/// The path of the daemon's log.
pub fn get_log_file_path() -> (path: String)
    ensures
        path@ == STDOUT_FILE@,
{
    copy_text(STDOUT_FILE)
}

/// A stop that has ended stays ended, whatever is reported to it: the signal is
/// not sent again and the marker is not touched again.
pub proof fn lemma_stop_is_final(polls: u32, phase: StopPhase, events: Seq<StopEvent>)
    requires
        stop_ended(phase),
    ensures
        stop_after_all(polls, phase, events) == phase,
    decreases events.len(),
{
    if events.len() > 0 {
        lemma_stop_is_final(polls, phase, events.drop_first());
    }
}

/// The marker is removed only on confirmed exit: a stop comes to remove the
/// marker only from the wait, on the report that the process is not alive.
pub proof fn lemma_marker_removed_on_exit(polls: u32, phase: StopPhase, event: StopEvent)
    requires
        !(phase is Removing),
        stop_after(polls, phase, event) is Removing,
    ensures
        phase is Waiting,
        event == (StopEvent::Probed { alive: false }),
{
}

/// The signal is sent once: no report brings a stop back to where the signal is
/// due.
pub proof fn lemma_signal_sent_once(polls: u32, phase: StopPhase, event: StopEvent)
    requires
        !(phase is Signalling),
    ensures
        !(stop_after(polls, phase, event) is Signalling),
{
}

/// The wait is bounded: a daemon that is alive at each of `polls` looks has
/// timed out, however it answers afterwards.
pub proof fn lemma_stop_times_out(polls: u32, left: u32, looks: Seq<StopEvent>)
    requires
        1 <= left <= polls,
        looks.len() >= left,
        forall|i: int| 0 <= i < left ==> looks[i] == (StopEvent::Probed { alive: true }),
    ensures
        stop_after_all(polls, StopPhase::Waiting { polls_left: left }, looks)
            == StopPhase::TimedOut,
    decreases left,
{
    let rest = looks.drop_first();
    if left == 1 {
        lemma_stop_is_final(polls, StopPhase::TimedOut, rest);
    } else {
        assert forall|i: int| 0 <= i < left - 1 implies rest[i] == (StopEvent::Probed {
            alive: true,
        }) by {
            assert(rest[i] == looks[i + 1]);
        }
        lemma_stop_times_out(polls, (left - 1) as u32, rest);
    }
}


/// An upper bound on the number of reports that a stop in `phase` still waits
/// for.
pub open spec fn stop_remaining(polls: u32, phase: StopPhase) -> int {
    match phase {
        StopPhase::Signalling => polls + 3,
        StopPhase::Waiting { polls_left } => polls_left + 2,
        StopPhase::Removing => 1,
        _ => 0,
    }
}

/// Every report that the phase waits for brings the stop nearer to its end: a
/// stop ends after the signal, as many looks as are configured, and the removal
/// of the marker, at the latest.
pub proof fn lemma_stop_progress(polls: u32, phase: StopPhase, event: StopEvent)
    requires
        phase is Signalling && event is Signalled || phase is Waiting && event is Probed
            || phase is Removing && event is MarkerRemoved,
        phase matches StopPhase::Waiting { polls_left } ==> polls_left <= polls,
    ensures
        0 <= stop_remaining(polls, stop_after(polls, phase, event)) < stop_remaining(polls, phase),
        stop_after(polls, phase, event) matches StopPhase::Waiting { polls_left } ==> polls_left
            <= polls,
{
}

/// What a snapshot holds of the process table: the resident memory in bytes of
/// each process in it, by process id.
pub uninterp spec fn residents_in(system: sysinfo::System) -> Map<i32, u64>;

/// What a table of processes says of process `pid`: its resident memory in
/// bytes, or `None` where the table holds no such process.
pub open spec fn resident_of(table: Map<i32, u64>, pid: i32) -> Option<u64> {
    if table.dom().contains(pid) {
        Some(table[pid])
    } else {
        None
    }
}

/// Whether `resident` is what some snapshot of the process table says of
/// process `pid`.
pub open spec fn probed(pid: i32, resident: Option<u64>) -> bool {
    exists|system: sysinfo::System| resident == resident_of(#[trigger] residents_in(system), pid)
}

/// Whether `state` is the state of the daemon that the marker and some snapshot
/// of the process table give: the marker's process is alive where the snapshot
/// holds it. A marker that names no process needs no snapshot.
pub open spec fn seen_state(marker: Option<Seq<char>>, state: DaemonState) -> bool {
    match marker_pid(marker) {
        Some(pid) => exists|found: Option<u64>| #[trigger]
            probed(pid, found) && state == state_of(marker, found is Some),
        None => state == state_of(marker, false),
    }
}

/// Whether `running` says whether the daemon runs, by the marker and some
/// snapshot of the process table: it runs where the marker names a process that
/// the snapshot holds.
pub open spec fn seen_running(marker: Option<Seq<char>>, running: bool) -> bool {
    match marker_pid(marker) {
        Some(pid) => exists|found: Option<u64>| #[trigger]
            probed(pid, found) && running == (found is Some),
        None => !running,
    }
}

/// Whether `report` is what is reported of the daemon by the marker and two
/// snapshots of the process table: the first says whether the marker's process
/// is alive, the second gives its resident memory.
pub open spec fn seen_report(marker: Option<Seq<char>>, report: LivenessReport) -> bool {
    match marker_pid(marker) {
        Some(pid) => exists|found: Option<u64>, again: Option<u64>|
            #![trigger probed(pid, found), probed(pid, again)]
            probed(pid, found) && probed(pid, again) && report == report_of(
                state_of(marker, found is Some),
                again,
            ),
        None => report == LivenessReport::Stopped,
    }
}

} // verus!
