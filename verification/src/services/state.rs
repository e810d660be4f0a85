//! The process table as contracts see it: what a record holds, what each
//! operation makes of the table, and the plain values that go in and out.

use vstd::prelude::*;
use crate::error::{ErrorState, ProcessError};
use tokio::sync::broadcast::Sender;
use crate::scanner::EventState;

verus! {

/// How many seconds a server is given to shut down before it is terminated.
pub const GRACE_SECONDS: u64 = 5;

/// How many seconds lie between two rounds of sampling.
pub const SAMPLE_INTERVAL_SECONDS: u64 = 2;

/// The disk usage is measured in every round whose number is a multiple of
/// this.
pub const DISK_SAMPLE_EVERY: u64 = 15;

/// The file in a server's working directory whose presence says that the
/// server is authenticated.
pub const CREDENTIAL_FILE: &'static str = "auth.enc";

/// The directory, below a server's working directory, that holds its log.
pub const LOG_DIRECTORY: &'static str = "logs";

/// The file in the log directory that holds the console output of the
/// current run. It starts out empty with every launch.
pub const LOG_FILE: &'static str = "console.log";

/// The status line that tells subscribers that a server runs.
pub open spec fn status_running() -> Seq<char> {
    "[STATUS]: running"@
}

/// The status line that tells subscribers that a server's output ended.
pub open spec fn status_stopped() -> Seq<char> {
    "[STATUS]: stopped"@
}

/// What a line of the error stream is published with in front of it.
pub open spec fn stderr_prefix() -> Seq<char> {
    "[STDERR] "@
}

/// What a metrics message starts with.
pub open spec fn metrics_prefix() -> Seq<char> {
    "[METRICS]: "@
}

/// The command by which a server is asked to shut down.
pub open spec fn shutdown_command() -> Seq<char> {
    "/shutdown"@
}

/// The line that ends the log file of a server.
pub open spec fn stopped_marker() -> Seq<char> {
    "[Server Stopped]"@
}

/// What was found out about a process that the table has a handle for.
#[derive(Debug, Clone, PartialEq)]
pub enum Liveness {
    /// It still runs.
    Running,
    /// It has exited.
    Exited,
    /// The operating system could not tell; its words follow.
    Unknown(String),
}

/// What the caller has to do next to stop a server.
#[derive(Debug, Clone, PartialEq)]
pub enum StopStep {
    /// Nothing: the record is gone.
    Done,
    /// Write `command` and a line end to the input of process `pid`, wait
    /// `grace_secs` seconds, find out whether the process still runs, and
    /// report that to `stop_after_grace` together with `run`, the run that
    /// is being stopped.
    Shutdown { pid: u32, run: u64, command: String, grace_secs: u64 },
    /// Terminate process `pid` and report the outcome to `confirm_killed`
    /// together with `run`.
    ForceKill { pid: u32, run: u64 },
}

/// A `StopStep` as contracts see it.
pub enum StepState {
    Done,
    Shutdown { pid: u32, run: nat, command: Seq<char>, grace_secs: u64 },
    ForceKill { pid: u32, run: nat },
}

impl StopStep {
    /// The step as contracts see it.
    pub open spec fn view(&self) -> StepState {
        match *self {
            StopStep::Done => StepState::Done,
            StopStep::Shutdown { pid, run, command, grace_secs } => StepState::Shutdown {
                pid,
                run: run as nat,
                command: command@,
                grace_secs,
            },
            StopStep::ForceKill { pid, run } => StepState::ForceKill { pid, run: run as nat },
        }
    }
}

/// Text to write to the input of a process.
#[derive(Debug, Clone, PartialEq)]
pub struct StdinWrite {
    pub pid: u32,
    pub data: String,
}

/// The metrics of a server that were sampled last: the processor share as
/// the bits of a 32-bit float, the resident memory in bytes, the disk usage
/// in bytes.
#[derive(Debug, Clone, PartialEq)]
pub struct MetricsData {
    pub cpu_bits: u32,
    pub memory: u64,
    pub disk: u64,
}

/// A process to sample: the server it belongs to, the number of its run, its
/// process identifier and the directory whose size is its disk usage.
#[derive(Debug, Clone, PartialEq)]
pub struct SampleTarget {
    pub id: String,
    pub run: u64,
    pub pid: u32,
    pub working_dir: String,
}

/// The outcome of an operation that yields nothing, as contracts see it.
pub open spec fn unit_outcome(done: Result<(), ProcessError>) -> Result<(), ErrorState> {
    match done {
        Ok(_) => Ok(()),
        Err(error) => Err(error@),
    }
}

/// The lines that are handed to the log channel for a line of standard
/// output in which the rules found `event`: the running status where the
/// server announced that it is ready, then the line.
pub open spec fn stdout_publications(event: EventState, line: Seq<char>) -> Seq<Seq<char>> {
    if event is Ready {
        seq![status_running(), line]
    } else {
        seq![line]
    }
}

/// The lines that are handed to the log channel for a line of the error
/// stream: as for standard output, with the line behind the error prefix.
pub open spec fn stderr_publications(event: EventState, line: Seq<char>) -> Seq<Seq<char>> {
    stdout_publications(event, stderr_prefix() + line)
}

/// The outcome of a step towards stopping a server, as contracts see it.
pub open spec fn step_outcome(done: Result<StopStep, ProcessError>) -> Result<StepState, ErrorState> {
    match done {
        Ok(step) => Ok(step@),
        Err(error) => Err(error@),
    }
}

/// The outcome of `send_command`, as contracts see it: the process to write
/// to and the text, if there is anything to write.
pub open spec fn write_outcome(done: Result<Option<StdinWrite>, ProcessError>) -> Result<
    Option<(u32, Seq<char>)>,
    ErrorState,
> {
    match done {
        Ok(Some(write)) => Ok(Some((write.pid, write.data@))),
        Ok(None) => Ok(None),
        Err(error) => Err(error@),
    }
}

/// The record of one supervised server, as contracts see it.
pub struct ProcessState {
    /// The process identifier of the server, or `None` for a virtual record
    /// that holds the slot while something else (an installation) goes on.
    pub pid: Option<u32>,
    /// The number of the record's run: what tells this record, and the
    /// readers of its process's output, from every earlier and later record
    /// of the same identifier.
    pub run: nat,
    /// The sending half of the record's log channel.
    pub log: Sender<String>,
    /// The players that are online.
    pub players: Set<Seq<char>>,
    /// The metrics message that was published last.
    pub last_metrics: Option<Seq<char>>,
    /// The processor share sampled last, as the bits of a 32-bit float.
    pub cpu_bits: u32,
    /// The resident memory sampled last, in bytes.
    pub memory: u64,
    /// The disk usage sampled last, in bytes.
    pub disk: u64,
    /// The directory that the server runs in.
    pub working_dir: Seq<char>,
    /// When the record was created, in milliseconds since the Unix epoch.
    pub started_at: i64,
    /// Whether the server waits for the operator to authenticate it.
    pub auth_required: bool,
}

/// The record that a new entry of the table starts with.
pub open spec fn fresh_process(
    pid: Option<u32>,
    working_dir: Seq<char>,
    started_at: i64,
    run: nat,
    log: Sender<String>,
) -> ProcessState {
    ProcessState {
        pid,
        run,
        log,
        players: Set::empty(),
        last_metrics: None,
        cpu_bits: 0,
        memory: 0,
        disk: 0,
        working_dir,
        started_at,
        auth_required: false,
    }
}

impl ProcessState {
    /// What holds of every record: its run has a number that fits in 64
    /// bits, and finitely many players are online.
    pub open spec fn valid(self) -> bool {
        &&& self.run <= u64::MAX
        &&& self.players.finite()
    }

    /// The record with its authentication flag set to `required`.
    pub open spec fn with_auth(self, required: bool) -> ProcessState {
        ProcessState { auth_required: required, ..self }
    }

    /// The record after a line of output, of either stream, was read in
    /// which the rules found `event` and, if `prompt`, a request to
    /// authenticate: a join adds the player, a leave removes the player, and
    /// a request to authenticate sets the flag.
    pub open spec fn after_line(self, event: EventState, prompt: bool) -> ProcessState {
        let players = match event {
            EventState::Joined(name) => self.players.insert(name),
            EventState::Left(name) => self.players.remove(name),
            _ => self.players,
        };
        ProcessState { players, auth_required: self.auth_required || prompt, ..self }
    }

    /// The record after a sample was taken: the processor share, the memory
    /// and the metrics message are cached, and the disk usage where it was
    /// measured.
    pub open spec fn after_sample(self, cpu_bits: u32, memory: u64, disk: Option<u64>, message: Seq<char>) -> ProcessState {
        ProcessState {
            cpu_bits,
            memory,
            disk: match disk {
                Some(bytes) => bytes,
                None => self.disk,
            },
            last_metrics: Some(message),
            ..self
        }
    }
}

/// The process table, as contracts see it.
pub struct ManagerState {
    /// The record of each supervised identifier.
    pub records: Map<Seq<char>, ProcessState>,
    /// The number that the run of the next record gets.
    pub next_run: nat,
}

impl ManagerState {
    /// What holds of every table: each of its records is valid, and as
    /// long as run numbers are left no record has the number that the next
    /// one gets. That an identifier has at most one record needs no saying:
    /// the records are a map.
    pub open spec fn valid(self) -> bool {
        &&& self.next_run <= u64::MAX
        &&& forall|id: Seq<char>| self.supervises(id) ==> (#[trigger] self.records[id]).valid()
        &&& self.next_run < u64::MAX ==> self.numbered()
    }

    /// Every record has a run number below the next one to be given out, so
    /// that the next record's number is new.
    pub open spec fn numbered(self) -> bool {
        forall|id: Seq<char>| self.supervises(id) ==> (#[trigger] self.records[id]).run < self.next_run
    }

    /// Whether `id` has a record.
    pub open spec fn supervises(self, id: Seq<char>) -> bool {
        self.records.dom().contains(id)
    }

    /// The number that the run after the next one gets. Numbers are not
    /// reused until 2^64 - 1 records have been created.
    pub open spec fn following_run(self) -> nat {
        if self.next_run < u64::MAX {
            self.next_run + 1
        } else {
            self.next_run
        }
    }

    /// The table after `id` got `process` as its record, for a new run.
    pub open spec fn enroll(self, id: Seq<char>, process: ProcessState) -> ManagerState {
        ManagerState { records: self.records.insert(id, process), next_run: self.following_run() }
    }

    /// The table after the record of `id` was replaced by `process`.
    pub open spec fn replace(self, id: Seq<char>, process: ProcessState) -> ManagerState {
        ManagerState { records: self.records.insert(id, process), ..self }
    }

    /// The table without a record for `id`.
    pub open spec fn discard(self, id: Seq<char>) -> ManagerState {
        ManagerState { records: self.records.remove(id), ..self }
    }

    /// The table after `change` was applied to the record of `id`, if there
    /// is one.
    pub open spec fn amend(self, id: Seq<char>, change: spec_fn(ProcessState) -> ProcessState) -> ManagerState {
        if self.supervises(id) {
            self.replace(id, change(self.records[id]))
        } else {
            self
        }
    }

    /// The sending half of the log channel of `id`.
    pub open spec fn channel_of(self, id: Seq<char>) -> Sender<String> {
        self.records[id].log
    }

    /// Registering a virtual record for `id`, with `log` as its new log
    /// channel: refused where `id` has a record.
    pub open spec fn register(self, id: Seq<char>, working_dir: Seq<char>, started_at: i64, log: Sender<String>) -> (
        ManagerState,
        Result<(), ErrorState>,
    ) {
        if self.supervises(id) {
            (self, Err(ErrorState::AlreadyActive))
        } else {
            (self.enroll(id, fresh_process(None, working_dir, started_at, self.next_run, log)), Ok(()))
        }
    }

    /// Recording that a process was spawned for `id`: refused where `id` has
    /// a record; a failure where the spawn failed; else a record with the
    /// process and with `log` as its new log channel. The number of its run
    /// is handed out.
    pub open spec fn start(
        self,
        id: Seq<char>,
        working_dir: Seq<char>,
        spawned: Result<u32, String>,
        started_at: i64,
        log: Sender<String>,
    ) -> (ManagerState, Result<nat, ErrorState>) {
        if self.supervises(id) {
            (self, Err(ErrorState::AlreadyActive))
        } else {
            match spawned {
                Err(cause) => (self, Err(ErrorState::SpawnFailed(cause@))),
                Ok(pid) => (
                    self.enroll(id, fresh_process(Some(pid), working_dir, started_at, self.next_run, log)),
                    Ok(self.next_run),
                ),
            }
        }
    }

    /// The first step of stopping `id`. A virtual record is removed at once.
    /// A record with a process stays, and its process is asked to shut down.
    pub open spec fn stop(self, id: Seq<char>) -> (ManagerState, Result<StepState, ErrorState>) {
        if !self.supervises(id) {
            (self, Err(ErrorState::NotRunning))
        } else {
            match self.records[id].pid {
                None => (self.discard(id), Ok(StepState::Done)),
                Some(pid) => (
                    self,
                    Ok(
                        StepState::Shutdown {
                            pid,
                            run: self.records[id].run,
                            command: shutdown_command(),
                            grace_secs: GRACE_SECONDS,
                        },
                    ),
                ),
            }
        }
    }

    /// The step after the grace period of the stop of run `run`. A process
    /// that has exited is not terminated: its record is removed. A process
    /// that still runs is to be terminated, and its record stays until that
    /// is confirmed. Where the operating system could not tell, that is the
    /// failure and the record stays. Where the record of `id` is gone, or is
    /// that of another run, the stop has nothing left to do and the table
    /// stays as it is.
    pub open spec fn stop_after_grace(self, id: Seq<char>, run: nat, liveness: Liveness) -> (
        ManagerState,
        Result<StepState, ErrorState>,
    ) {
        if !self.reads(id, run) {
            (self, Ok(StepState::Done))
        } else {
            match self.records[id].pid {
                None => (self.discard(id), Ok(StepState::Done)),
                Some(pid) => match liveness {
                    Liveness::Exited => (self.discard(id), Ok(StepState::Done)),
                    Liveness::Running => (self, Ok(StepState::ForceKill { pid, run })),
                    Liveness::Unknown(cause) => (self, Err(ErrorState::WaitFailed(cause@))),
                },
            }
        }
    }

    /// The step after the process of run `run` was to be terminated: once it
    /// is, the record of that run is removed; a record of another run stays.
    /// Where the process could not be terminated, that is the failure and
    /// the table stays as it is.
    pub open spec fn confirm_killed(self, id: Seq<char>, run: nat, outcome: Result<(), String>) -> (
        ManagerState,
        Result<(), ErrorState>,
    ) {
        match outcome {
            Ok(_) => (
                if self.reads(id, run) {
                    self.discard(id)
                } else {
                    self
                },
                Ok(()),
            ),
            Err(cause) => (self, Err(ErrorState::KillFailed(cause@))),
        }
    }

    /// The first step of restarting `id`. Where `id` is supervised and alive
    /// it is stopped first, as `stop` does it. Where it is not, whether it
    /// never ran or its process has exited, nothing is left to stop and the
    /// start comes next; a record whose process has exited is removed.
    pub open spec fn restart(self, id: Seq<char>, liveness: Liveness) -> (ManagerState, Result<StepState, ErrorState>) {
        let (checked, running) = self.check_running(id, liveness);
        if running {
            checked.stop(id)
        } else {
            (checked, Ok(StepState::Done))
        }
    }

    /// The first step of killing `id`: a virtual record is removed at once;
    /// a record with a process stays until its termination is confirmed.
    pub open spec fn kill(self, id: Seq<char>) -> (ManagerState, Result<StepState, ErrorState>) {
        if !self.supervises(id) {
            (self, Err(ErrorState::NotRunning))
        } else {
            match self.records[id].pid {
                None => (self.discard(id), Ok(StepState::Done)),
                Some(pid) => (self, Ok(StepState::ForceKill { pid, run: self.records[id].run })),
            }
        }
    }

    /// What is to be written for a command to `id`: the text and a line end,
    /// to the record's process; nothing for a virtual record.
    pub open spec fn send_command(self, id: Seq<char>, text: Seq<char>) -> Result<Option<(u32, Seq<char>)>, ErrorState> {
        if !self.supervises(id) {
            Err(ErrorState::NotRunning)
        } else {
            match self.records[id].pid {
                None => Ok(None),
                Some(pid) => Ok(Some((pid, text + "\n"@))),
            }
        }
    }

    /// The table after a liveness check of `id`, and the answer of the check.
    ///
    /// A virtual record counts as running. A record whose process has exited
    /// is removed, and the answer is `false`. Where the operating system
    /// could not tell, the answer is `false` and the record stays.
    pub open spec fn check_running(self, id: Seq<char>, liveness: Liveness) -> (ManagerState, bool) {
        if !self.supervises(id) {
            (self, false)
        } else if self.records[id].pid is None {
            (self, true)
        } else {
            match liveness {
                Liveness::Running => (self, true),
                Liveness::Exited => (self.discard(id), false),
                Liveness::Unknown(_) => (self, false),
            }
        }
    }

    /// The table after a query of the authentication flag of `id`, and the
    /// answer. A flag that is set is cleared once the credential file is
    /// there: the file system decides, not the flag.
    pub open spec fn check_auth(self, id: Seq<char>, credential_present: bool) -> (ManagerState, bool) {
        if !self.supervises(id) {
            (self, false)
        } else if self.records[id].auth_required && credential_present {
            (self.replace(id, self.records[id].with_auth(false)), false)
        } else {
            (self, self.records[id].auth_required)
        }
    }

    /// Whether run `run` is the one that the record of `id` stands for: the
    /// record is there and has that number.
    pub open spec fn reads(self, id: Seq<char>, run: nat) -> bool {
        self.supervises(id) && self.records[id].run == run
    }

    /// The table after a line of output, of either stream, came in from a
    /// reader of run `run`. A reader whose record is gone, or has made way
    /// for another run, changes nothing.
    pub open spec fn line(self, id: Seq<char>, run: nat, event: EventState, prompt: bool) -> ManagerState {
        if self.reads(id, run) {
            self.replace(id, self.records[id].after_line(event, prompt))
        } else {
            self
        }
    }

    /// Whether `id` is sampled: it has a record with a process.
    pub open spec fn sampled(self, id: Seq<char>) -> bool {
        self.supervises(id) && self.records[id].pid is Some
    }

    /// Whether a sample of run `run` of `id` is taken in: `id` is sampled
    /// and its record is that of `run`.
    pub open spec fn samples(self, id: Seq<char>, run: nat) -> bool {
        self.sampled(id) && self.records[id].run == run
    }

    /// The table after a sample of run `run` of `id` came in. Virtual
    /// records take no samples, and a sample of a run that has made way for
    /// another is dropped.
    pub open spec fn sample(
        self,
        id: Seq<char>,
        run: nat,
        cpu_bits: u32,
        memory: u64,
        disk: Option<u64>,
        message: Seq<char>,
    ) -> ManagerState {
        if self.samples(id, run) {
            self.replace(id, self.records[id].after_sample(cpu_bits, memory, disk, message))
        } else {
            self
        }
    }

    /// The metrics of `id`; all zero where `id` is not supervised.
    pub open spec fn metrics(self, id: Seq<char>) -> MetricsData {
        if self.supervises(id) {
            MetricsData {
                cpu_bits: self.records[id].cpu_bits,
                memory: self.records[id].memory,
                disk: self.records[id].disk,
            }
        } else {
            MetricsData { cpu_bits: 0, memory: 0, disk: 0 }
        }
    }

    /// How many players are online on the servers `ids`, taken together.
    pub open spec fn players_on(self, ids: Seq<Seq<char>>) -> nat
        decreases ids.len(),
    {
        if ids.len() == 0 {
            0
        } else {
            self.players_on(ids.drop_last()) + self.records[ids.last()].players.len()
        }
    }
}

} // verus!
