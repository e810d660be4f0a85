//! The process table: which server identifiers are supervised, and the
//! record kept for each.
//!
//! The table is a state machine over plain values. It never touches a
//! process, a file or a clock by itself: whoever drives it performs the action
//! that an operation hands out and reports back what happened. Every change
//! goes through `&mut self`, so the check that an identifier is free and the
//! insertion of its record are one step.

use vstd::prelude::*;
use vstd::string::*;
use crate::error::{ErrorState, ProcessError};
use tokio::sync::broadcast::{Receiver, Sender};
use crate::log_channel::{
    closed_receiver,
    open_channel,
    publish,
    same_channel,
    share,
    subscribe,
    subscribed_to,
    without_sender,
    LOG_CAPACITY,
};
use crate::players::PlayerSet;
use crate::pattern::{regex_capture, regex_found};
use crate::scanner::{auth_prompt, classify_line, is_auth_prompt, line_event, LineEvent, LineRules, NAME_GROUP};
use crate::services::launch::{build_launch_command, launches, BindConfig, LaunchCommand};
use crate::services::state::{
    fresh_process,
    metrics_prefix,
    status_stopped,
    stderr_publications,
    stdout_publications,
    step_outcome,
    stopped_marker,
    unit_outcome,
    write_outcome,
    Liveness,
    ManagerState,
    MetricsData,
    ProcessState,
    SampleTarget,
    StdinWrite,
    StopStep,
    DISK_SAMPLE_EVERY,
    GRACE_SECONDS,
};
use crate::text::texts;

verus! {

/// The record of one supervised server.
pub struct ServerProcess {
    pid: Option<u32>,
    run: u64,
    log: Sender<String>,
    players: PlayerSet,
    last_metrics: Option<String>,
    cpu_bits: u32,
    memory: u64,
    disk: u64,
    working_dir: String,
    started_at: i64,
    auth_required: bool,
}

impl ServerProcess {
    /// The record as contracts see it.
    pub closed spec fn view(&self) -> ProcessState {
        ProcessState {
            pid: self.pid,
            run: self.run as nat,
            log: self.log,
            players: self.players@,
            last_metrics: match self.last_metrics {
                Some(text) => Some(text@),
                None => None,
            },
            cpu_bits: self.cpu_bits,
            memory: self.memory,
            disk: self.disk,
            working_dir: self.working_dir@,
            started_at: self.started_at,
            auth_required: self.auth_required,
        }
    }

    /// A record as it starts out: nobody online, nothing sampled, a log
    /// channel of its own.
    fn new(pid: Option<u32>, working_dir: String, started_at: i64, run: u64) -> (process: ServerProcess)
        ensures
            process@ == fresh_process(pid, working_dir@, started_at, run as nat, process@.log),
            process@.valid(),
    {
        ServerProcess {
            pid,
            run,
            log: open_channel(LOG_CAPACITY),
            players: PlayerSet::new(),
            last_metrics: None,
            cpu_bits: 0,
            memory: 0,
            disk: 0,
            working_dir,
            started_at,
            auth_required: false,
        }
    }
}

/// What the two readers of a process's output hold: the number of the run
/// whose output they read, and a handle to its log channel. They publish on
/// that handle, so that what the process still writes after its record is
/// gone reaches those who subscribed while it was there.
pub struct OutputReader {
    pub run: u64,
    pub log: Sender<String>,
}

impl OutputReader {
    /// Takes in that the stream that this reader read has ended: the stopped
    /// status is handed to the log channel, and is the answer. No record is
    /// touched.
    pub fn stream_closed(&self) -> (published: String)
        ensures
            published@ == status_stopped(),
    {
        let published = String::from_str("[STATUS]: stopped");
        publish(&self.log, published.clone());
        published
    }
}

/// What was made of one line of output: the event that the rules found in
/// it, and the lines that were handed to the log channel, in order. The last
/// of them is the line as it belongs in the log file.
pub struct LineReport {
    pub event: LineEvent,
    pub published: Vec<String>,
}

/// The outcome of `start`, as contracts see it: the number of the new run.
pub open spec fn run_outcome(done: Result<OutputReader, ProcessError>) -> Result<nat, ErrorState> {
    match done {
        Ok(reader) => Ok(reader.run as nat),
        Err(error) => Err(error@),
    }
}

/// Hands each of `lines` to the channel behind `log`, in order.
fn publish_all(log: &Sender<String>, lines: &Vec<String>) {
    let mut i: usize = 0;
    while i < lines.len()
        invariant
            i <= lines@.len(),
        decreases lines@.len() - i,
    {
        publish(log, lines[i].clone());
        i += 1;
    }
}

/// The lines to publish for a line of output in which the rules found
/// `event`; `shown` is the line as it is published.
fn publications(event: &LineEvent, shown: String) -> (lines: Vec<String>)
    ensures
        texts(lines@) == stdout_publications(event@, shown@),
{
    let mut lines: Vec<String> = Vec::new();
    match event {
        LineEvent::Ready => {
            lines.push(String::from_str("[STATUS]: running"));
        },
        _ => {},
    }
    lines.push(shown);
    assert(texts(lines@) =~= stdout_publications(event@, shown@));
    lines
}

/// One entry of the table: an identifier and its record.
struct Slot {
    id: String,
    process: ServerProcess,
}

/// The identifiers of the entries, in order.
spec fn slot_ids(slots: Seq<Slot>) -> Seq<Seq<char>> {
    Seq::new(slots.len(), |i: int| slots[i].id@)
}

/// The map that the entries stand for.
spec fn table_of(slots: Seq<Slot>) -> Map<Seq<char>, ProcessState> {
    Map::new(
        |key: Seq<char>| slot_ids(slots).contains(key),
        |key: Seq<char>| slots[slot_ids(slots).index_of(key)].process@,
    )
}

/// Every entry holds a valid record, whose run has a number below the next
/// one to be given out as long as numbers are left.
spec fn slots_valid(slots: Seq<Slot>, next_run: u64) -> bool {
    forall|i: int|
        0 <= i < slots.len() ==> (#[trigger] slots[i]).process@.valid() && (next_run < u64::MAX
            ==> slots[i].process@.run < next_run)
}

/// The map holds each entry under its identifier.
proof fn lemma_table_at(slots: Seq<Slot>, i: int)
    requires
        slot_ids(slots).no_duplicates(),
        0 <= i < slots.len(),
    ensures
        table_of(slots).dom().contains(slots[i].id@),
        table_of(slots)[slots[i].id@] == slots[i].process@,
{
    let ids = slot_ids(slots);
    assert(ids[i] == slots[i].id@);
    assert(ids.contains(slots[i].id@));
    let j = ids.index_of(slots[i].id@);
    assert(0 <= j < ids.len() && ids[j] == slots[i].id@);
    assert(j == i);
}

/// The map holds nothing under an identifier that no entry has.
proof fn lemma_table_absent(slots: Seq<Slot>, key: Seq<char>)
    requires
        forall|i: int| 0 <= i < slots.len() ==> (#[trigger] slots[i]).id@ != key,
    ensures
        !table_of(slots).dom().contains(key),
{
    let ids = slot_ids(slots);
    if ids.contains(key) {
        let j = choose|j: int| 0 <= j < ids.len() && ids[j] == key;
        assert(slots[j].id@ == key);
    }
}

/// Appending an entry with a new identifier inserts it into the map.
proof fn lemma_table_push(slots: Seq<Slot>, slot: Slot)
    requires
        slot_ids(slots).no_duplicates(),
        !table_of(slots).dom().contains(slot.id@),
    ensures
        slot_ids(slots.push(slot)).no_duplicates(),
        table_of(slots.push(slot)) == table_of(slots).insert(slot.id@, slot.process@),
{
    let after = slots.push(slot);
    let ids = slot_ids(slots);
    let ids_after = slot_ids(after);
    assert(ids_after =~= ids.push(slot.id@));
    assert(!ids.contains(slot.id@));
    assert forall|i: int, j: int| 0 <= i < ids_after.len() && 0 <= j < ids_after.len() && i != j implies ids_after[i]
        != ids_after[j] by {
        if i < ids.len() {
            assert(ids.contains(ids[i]));
        }
        if j < ids.len() {
            assert(ids.contains(ids[j]));
        }
    }
    assert forall|key: Seq<char>| table_of(after).dom().contains(key) <==> table_of(slots).insert(
        slot.id@,
        slot.process@,
    ).dom().contains(key) by {
        if ids_after.contains(key) {
            let i = choose|i: int| 0 <= i < ids_after.len() && ids_after[i] == key;
            if i < ids.len() {
                assert(ids[i] == key);
            }
        }
        if ids.contains(key) {
            let i = choose|i: int| 0 <= i < ids.len() && ids[i] == key;
            assert(ids_after[i] == key);
        }
        if key == slot.id@ {
            assert(ids_after[ids.len() as int] == key);
        }
    }
    assert forall|key: Seq<char>| table_of(after).dom().contains(key) implies table_of(after)[key] == table_of(
        slots,
    ).insert(slot.id@, slot.process@)[key] by {
        let i = ids_after.index_of(key);
        lemma_table_at(after, i);
        if i < ids.len() {
            assert(after[i] == slots[i]);
            lemma_table_at(slots, i);
        }
    }
    assert(table_of(after) =~= table_of(slots).insert(slot.id@, slot.process@));
}

/// Replacing an entry by one with the same identifier replaces its record
/// in the map.
proof fn lemma_table_update(slots: Seq<Slot>, i: int, slot: Slot)
    requires
        slot_ids(slots).no_duplicates(),
        0 <= i < slots.len(),
        slot.id@ == slots[i].id@,
    ensures
        slot_ids(slots.update(i, slot)).no_duplicates(),
        table_of(slots.update(i, slot)) == table_of(slots).insert(slot.id@, slot.process@),
{
    let after = slots.update(i, slot);
    let ids = slot_ids(slots);
    assert(slot_ids(after) =~= ids);
    assert forall|key: Seq<char>| table_of(after).dom().contains(key) implies table_of(after)[key] == table_of(
        slots,
    ).insert(slot.id@, slot.process@)[key] by {
        assert(ids.contains(key));
        let j = ids.index_of(key);
        assert(ids[j] == key);
        assert(after[j].id@ == key);
        lemma_table_at(after, j);
        if j != i {
            assert(after[j] == slots[j]);
            assert(ids[i] == slot.id@);
            lemma_table_at(slots, j);
        }
    }
    lemma_table_at(slots, i);
    assert(table_of(after) =~= table_of(slots).insert(slot.id@, slot.process@));
}

/// Taking an entry out removes its identifier from the map.
proof fn lemma_table_remove(slots: Seq<Slot>, i: int)
    requires
        slot_ids(slots).no_duplicates(),
        0 <= i < slots.len(),
    ensures
        slot_ids(slots.remove(i)).no_duplicates(),
        table_of(slots.remove(i)) == table_of(slots).remove(slots[i].id@),
{
    let after = slots.remove(i);
    let ids = slot_ids(slots);
    let ids_after = slot_ids(after);
    assert(ids_after =~= ids.remove(i));
    assert forall|a: int, b: int| 0 <= a < ids_after.len() && 0 <= b < ids_after.len() && a != b implies ids_after[a]
        != ids_after[b] by {
        let a0 = if a < i { a } else { a + 1 };
        let b0 = if b < i { b } else { b + 1 };
        assert(ids_after[a] == ids[a0]);
        assert(ids_after[b] == ids[b0]);
    }
    assert forall|key: Seq<char>| table_of(after).dom().contains(key) <==> table_of(slots).remove(
        slots[i].id@,
    ).dom().contains(key) by {
        if ids_after.contains(key) {
            let a = choose|a: int| 0 <= a < ids_after.len() && ids_after[a] == key;
            let a0 = if a < i { a } else { a + 1 };
            assert(ids[a0] == key);
            assert(ids[i] == slots[i].id@);
        }
        if ids.contains(key) && key != slots[i].id@ {
            let a0 = choose|a0: int| 0 <= a0 < ids.len() && ids[a0] == key;
            assert(ids[i] == slots[i].id@);
            let a = if a0 < i { a0 } else { a0 - 1 };
            assert(ids_after[a] == key);
        }
    }
    assert forall|key: Seq<char>| table_of(after).dom().contains(key) implies table_of(after)[key] == table_of(
        slots,
    ).remove(slots[i].id@)[key] by {
        let a = ids_after.index_of(key);
        let a0 = if a < i { a } else { a + 1 };
        lemma_table_at(after, a);
        assert(after[a] == slots[a0]);
        lemma_table_at(slots, a0);
    }
    assert(table_of(after) =~= table_of(slots).remove(slots[i].id@));
}

/// Valid entries make a valid map.
proof fn lemma_table_valid(slots: Seq<Slot>, next_run: u64)
    requires
        slot_ids(slots).no_duplicates(),
        slots_valid(slots, next_run),
    ensures
        (ManagerState { records: table_of(slots), next_run: next_run as nat }).valid(),
{
    let table = ManagerState { records: table_of(slots), next_run: next_run as nat };
    assert forall|id: Seq<char>| table.supervises(id) implies (#[trigger] table.records[id]).valid() && (next_run
        < u64::MAX ==> table.records[id].run < next_run) by {
        let ids = slot_ids(slots);
        let j = ids.index_of(id);
        assert(ids[j] == id);
        lemma_table_at(slots, j);
    }
}

/// Taking an entry out and putting a changed one back in its place replaces
/// its record in the map.
proof fn lemma_put_back(slots: Seq<Slot>, i: int, slot: Slot)
    requires
        slot_ids(slots).no_duplicates(),
        0 <= i < slots.len(),
        slot.id@ == slots[i].id@,
    ensures
        slots.remove(i).insert(i, slot) == slots.update(i, slot),
        slot_ids(slots.update(i, slot)).no_duplicates(),
        table_of(slots.update(i, slot)) == table_of(slots).insert(slot.id@, slot.process@),
{
    assert(slots.remove(i).insert(i, slot) =~= slots.update(i, slot));
    lemma_table_update(slots, i, slot);
}

/// Whether the disk usage is measured in round `tick` of the sampling.
pub fn disk_sample_due(tick: u64) -> (due: bool)
    ensures
        due == (tick % DISK_SAMPLE_EVERY == 0),
{
    tick % DISK_SAMPLE_EVERY == 0
}

/// The message that carries the metrics `json` to the subscribers.
pub fn metrics_message(json: &str) -> (message: String)
    ensures
        message@ == metrics_prefix() + json@,
{
    String::from_str("[METRICS]: ").concat(json)
}

/// The line that ends the log file of a server.
pub fn stopped_marker_line() -> (line: String)
    ensures
        line@ == stopped_marker(),
{
    String::from_str("[Server Stopped]")
}

/// The process table.
pub struct ProcessManager {
    slots: Vec<Slot>,
    next_run: u64,
}

impl ProcessManager {
    /// The table as contracts see it.
    pub closed spec fn view(&self) -> ManagerState {
        ManagerState { records: table_of(self.slots@), next_run: self.next_run as nat }
    }

    /// No identifier has two entries, and every record is valid.
    #[verifier::type_invariant]
    spec fn well_formed(&self) -> bool {
        &&& slot_ids(self.slots@).no_duplicates()
        &&& slots_valid(self.slots@, self.next_run)
    }

    /// An empty table.
    pub fn new() -> (manager: ProcessManager)
        ensures
            manager@ == (ManagerState { records: Map::empty(), next_run: 0 }),
            manager@.valid(),
    {
        let manager = ProcessManager { slots: Vec::new(), next_run: 0 };
        assert(manager@.records =~= Map::<Seq<char>, ProcessState>::empty()) by {
            assert forall|key: Seq<char>| !table_of(manager.slots@).dom().contains(key) by {
                lemma_table_absent(manager.slots@, key);
            }
        }
        manager
    }

    /// Where the entry of `id` is, if it has one.
    fn find(&self, id: &String) -> (at: Option<usize>)
        ensures
            match at {
                Some(i) => i < self.slots@.len() && self.slots@[i as int].id@ == id@ && self@.supervises(id@)
                    && self@.records[id@] == self.slots@[i as int].process@,
                None => !self@.supervises(id@),
            },
            self@.valid(),
    {
        proof {
            use_type_invariant(self);
            lemma_table_valid(self.slots@, self.next_run);
        }
        let mut i: usize = 0;
        while i < self.slots.len()
            invariant
                i <= self.slots@.len(),
                slot_ids(self.slots@).no_duplicates(),
                self@.valid(),
                forall|j: int| 0 <= j < i ==> (#[trigger] self.slots@[j]).id@ != id@,
            decreases self.slots@.len() - i,
        {
            if self.slots[i].id == *id {
                proof {
                    lemma_table_at(self.slots@, i as int);
                }
                return Some(i);
            }
            i += 1;
        }
        proof {
            lemma_table_absent(self.slots@, id@);
        }
        None
    }

    /// Puts a record for `id` into the table. The caller has found `id` free.
    fn enroll(&mut self, id: String, process: ServerProcess)
        requires
            !old(self)@.supervises(id@),
            process@.valid(),
            process@.run == old(self)@.next_run,
        ensures
            final(self)@ == old(self)@.enroll(id@, process@),
            final(self)@.valid(),
    {
        proof {
            use_type_invariant(&*self);
        }
        let ghost before = self.slots@;
        let slot = Slot { id, process };
        let mut slots: Vec<Slot> = Vec::new();
        std::mem::swap(&mut slots, &mut self.slots);
        slots.push(slot);
        let next: u64 = if self.next_run < u64::MAX {
            self.next_run + 1
        } else {
            self.next_run
        };
        proof {
            lemma_table_push(before, slot);
            assert forall|i: int| 0 <= i < slots@.len() implies (#[trigger] slots@[i]).process@.valid() && (next
                < u64::MAX ==> slots@[i].process@.run < next) by {
                if i < before.len() {
                    assert(slots@[i] == before[i]);
                }
            }
            lemma_table_valid(slots@, next);
        }
        self.next_run = next;
        self.slots = slots;
    }

    /// Takes the slot at `at` out of the table, for the caller to change and
    /// put back.
    fn checkout(&mut self, at: usize) -> (slot: Slot)
        requires
            at < old(self).slots@.len(),
        ensures
            slot == old(self).slots@[at as int],
            slot.process@.valid(),
            old(self).next_run < u64::MAX ==> slot.process@.run < old(self).next_run,
            final(self).slots@ == old(self).slots@.remove(at as int),
            final(self).next_run == old(self).next_run,
    {
        proof {
            use_type_invariant(&*self);
        }
        let ghost before = self.slots@;
        let mut slots: Vec<Slot> = Vec::new();
        std::mem::swap(&mut slots, &mut self.slots);
        let slot = slots.remove(at);
        proof {
            lemma_table_remove(before, at as int);
        }
        self.slots = slots;
        slot
    }

    /// Puts `slot` into the table at `at`.
    fn checkin(&mut self, at: usize, slot: Slot)
        requires
            at <= old(self).slots@.len(),
            slot_ids(old(self).slots@.insert(at as int, slot)).no_duplicates(),
            slot.process@.valid(),
            old(self).next_run < u64::MAX ==> slot.process@.run < old(self).next_run,
        ensures
            final(self).slots@ == old(self).slots@.insert(at as int, slot),
            final(self).next_run == old(self).next_run,
            final(self)@.valid(),
    {
        proof {
            use_type_invariant(&*self);
        }
        let ghost before = self.slots@;
        let mut slots: Vec<Slot> = Vec::new();
        std::mem::swap(&mut slots, &mut self.slots);
        slots.insert(at, slot);
        proof {
            assert forall|i: int| 0 <= i < slots@.len() implies (#[trigger] slots@[i]).process@.valid() && (
            self.next_run < u64::MAX ==> slots@[i].process@.run < self.next_run) by {
                if i < at {
                    assert(slots@[i] == before[i]);
                } else if i > at {
                    assert(slots@[i] == before[i - 1]);
                }
            }
            lemma_table_valid(slots@, self.next_run);
        }
        self.slots = slots;
    }

    /// The command that launches `server_id`, for the caller to spawn.
    ///
    /// Fails with `AlreadyActive` where `server_id` has a record, so that no
    /// process is spawned for an identifier that is taken. The heap options
    /// follow from `max_memory` alone; `min_memory` has no part in them.
    pub fn launch_command(
        &self,
        server_id: &str,
        executable_path: &str,
        working_dir: &str,
        java_path: Option<&str>,
        min_memory: Option<&str>,
        max_memory: Option<&str>,
        extra_args: Option<&str>,
        config: Option<&BindConfig>,
    ) -> (planned: Result<LaunchCommand, ProcessError>)
        ensures
            self@.supervises(server_id@) ==> (planned matches Err(error) && error@ == ErrorState::AlreadyActive),
            !self@.supervises(server_id@) ==> (planned matches Ok(command) && launches(
                command,
                executable_path@,
                working_dir@,
                java_path,
                max_memory,
                extra_args,
                config,
            )),
    {
        let key = server_id.to_owned();
        match self.find(&key) {
            Some(_) => Err(ProcessError::AlreadyActive),
            None => Ok(
                build_launch_command(executable_path, working_dir, java_path, max_memory, extra_args, config),
            ),
        }
    }

    /// Records the process that was spawned for `server_id`.
    ///
    /// `spawned` is the process identifier, or what the operating system said
    /// when it refused. `started_at` is the current time in milliseconds
    /// since the Unix epoch. The test that `server_id` is free and the
    /// insertion of its record are one step. On success the record has a
    /// new log channel, the running status is handed to it, and what the
    /// readers of the process's output need is handed out: the number of
    /// the run and a handle to that channel.
    pub fn start(&mut self, server_id: &str, working_dir: &str, spawned: Result<u32, String>, started_at: i64) -> (done:
        Result<OutputReader, ProcessError>)
        ensures
            (final(self)@, run_outcome(done)) == old(self)@.start(
                server_id@,
                working_dir@,
                spawned,
                started_at,
                final(self)@.channel_of(server_id@),
            ),
            done matches Ok(reader) ==> same_channel(final(self)@.channel_of(server_id@), reader.log),
            final(self)@.valid(),
    {
        let key = server_id.to_owned();
        match self.find(&key) {
            Some(_) => Err(ProcessError::AlreadyActive),
            None => match spawned {
                Err(cause) => Err(ProcessError::SpawnFailed(cause)),
                Ok(pid) => {
                    let run = self.next_run;
                    let process = ServerProcess::new(Some(pid), working_dir.to_owned(), started_at, run);
                    publish(&process.log, String::from_str("[STATUS]: running"));
                    let reader = OutputReader { run, log: share(&process.log) };
                    self.enroll(key, process);
                    Ok(reader)
                },
            },
        }
    }

    /// Creates a virtual record for `server_id`: one without a process, which
    /// holds the slot while an installation goes on. `started_at` is the
    /// current time in milliseconds since the Unix epoch.
    pub fn register_installing(&mut self, server_id: &str, working_dir: &str, started_at: i64) -> (done: Result<
        (),
        ProcessError,
    >)
        ensures
            (final(self)@, unit_outcome(done)) == old(self)@.register(
                server_id@,
                working_dir@,
                started_at,
                final(self)@.channel_of(server_id@),
            ),
            final(self)@.valid(),
    {
        let key = server_id.to_owned();
        match self.find(&key) {
            Some(_) => Err(ProcessError::AlreadyActive),
            None => {
                let process = ServerProcess::new(None, working_dir.to_owned(), started_at, self.next_run);
                self.enroll(key, process);
                Ok(())
            },
        }
    }

    /// Destroys the record of `server_id`, if there is one.
    pub fn remove(&mut self, server_id: &str)
        ensures
            final(self)@ == old(self)@.discard(server_id@),
            final(self)@.valid(),
    {
        proof {
            use_type_invariant(&*self);
        }
        let key = server_id.to_owned();
        match self.find(&key) {
            Some(i) => {
                let ghost before = self.slots@;
                let mut slots: Vec<Slot> = Vec::new();
                std::mem::swap(&mut slots, &mut self.slots);
                slots.remove(i);
                proof {
                    lemma_table_remove(before, i as int);
                }
                self.slots = slots;
            },
            None => {
                assert(self@.records =~= self@.records.remove(server_id@));
            },
        }
    }

    /// Begins to stop `server_id`.
    pub fn stop(&mut self, server_id: &str) -> (done: Result<StopStep, ProcessError>)
        ensures
            (final(self)@, step_outcome(done)) == old(self)@.stop(server_id@),
            final(self)@.valid(),
    {
        let key = server_id.to_owned();
        match self.find(&key) {
            None => Err(ProcessError::NotRunning),
            Some(i) => match self.slots[i].process.pid {
                None => {
                    self.remove(server_id);
                    Ok(StopStep::Done)
                },
                Some(pid) => Ok(
                    StopStep::Shutdown {
                        pid,
                        run: self.slots[i].process.run,
                        command: String::from_str("/shutdown"),
                        grace_secs: GRACE_SECONDS,
                    },
                ),
            },
        }
    }

    /// Goes on stopping run `run` of `server_id` once the grace period is
    /// over; `liveness` is what the operating system then said of its
    /// process. Where the record of `server_id` is no longer that of `run`,
    /// the table is left alone.
    pub fn stop_after_grace(&mut self, server_id: &str, run: u64, liveness: Liveness) -> (done: Result<
        StopStep,
        ProcessError,
    >)
        ensures
            (final(self)@, step_outcome(done)) == old(self)@.stop_after_grace(server_id@, run as nat, liveness),
            final(self)@.valid(),
    {
        let key = server_id.to_owned();
        match self.find(&key) {
            None => Ok(StopStep::Done),
            Some(i) => {
                if self.slots[i].process.run != run {
                    return Ok(StopStep::Done);
                }
                match self.slots[i].process.pid {
                    None => {
                        self.remove(server_id);
                        Ok(StopStep::Done)
                    },
                    Some(pid) => match liveness {
                        Liveness::Exited => {
                            self.remove(server_id);
                            Ok(StopStep::Done)
                        },
                        Liveness::Running => Ok(StopStep::ForceKill { pid, run }),
                        Liveness::Unknown(cause) => Err(ProcessError::WaitFailed(cause)),
                    },
                }
            },
        }
    }

    /// Ends a stop or a kill: `outcome` says whether the process of run
    /// `run` of `server_id` was terminated. Where the record of `server_id`
    /// is no longer that of `run`, the table is left alone.
    pub fn confirm_killed(&mut self, server_id: &str, run: u64, outcome: Result<(), String>) -> (done: Result<
        (),
        ProcessError,
    >)
        ensures
            (final(self)@, unit_outcome(done)) == old(self)@.confirm_killed(server_id@, run as nat, outcome),
            final(self)@.valid(),
    {
        match outcome {
            Ok(_) => {
                let key = server_id.to_owned();
                match self.find(&key) {
                    Some(i) => {
                        if self.slots[i].process.run == run {
                            self.remove(server_id);
                        }
                    },
                    None => {},
                }
                Ok(())
            },
            Err(cause) => {
                proof {
                    use_type_invariant(&*self);
                    lemma_table_valid(self.slots@, self.next_run);
                }
                Err(ProcessError::KillFailed(cause))
            },
        }
    }

    /// Begins to restart `server_id`: a server that is supervised and alive
    /// is stopped first; `liveness` is what the operating system said of its
    /// process. `Done` says that nothing is left to stop and the server can
    /// be started.
    pub fn restart(&mut self, server_id: &str, liveness: Liveness) -> (done: Result<StopStep, ProcessError>)
        ensures
            (final(self)@, step_outcome(done)) == old(self)@.restart(server_id@, liveness),
            final(self)@.valid(),
    {
        if self.is_running(server_id, liveness) {
            self.stop(server_id)
        } else {
            Ok(StopStep::Done)
        }
    }

    /// Begins to kill `server_id`: no request to shut down, no grace period.
    pub fn kill(&mut self, server_id: &str) -> (done: Result<StopStep, ProcessError>)
        ensures
            (final(self)@, step_outcome(done)) == old(self)@.kill(server_id@),
            final(self)@.valid(),
    {
        let key = server_id.to_owned();
        match self.find(&key) {
            None => Err(ProcessError::NotRunning),
            Some(i) => match self.slots[i].process.pid {
                None => {
                    self.remove(server_id);
                    Ok(StopStep::Done)
                },
                Some(pid) => Ok(StopStep::ForceKill { pid, run: self.slots[i].process.run }),
            },
        }
    }

    /// What is to be written to the input of `server_id` for `command`.
    pub fn send_command(&self, server_id: &str, command: &str) -> (done: Result<Option<StdinWrite>, ProcessError>)
        ensures
            write_outcome(done) == self@.send_command(server_id@, command@),
    {
        let key = server_id.to_owned();
        match self.find(&key) {
            None => Err(ProcessError::NotRunning),
            Some(i) => match self.slots[i].process.pid {
                None => Ok(None),
                Some(pid) => {
                    let mut data = command.to_owned();
                    data.append("\n");
                    Ok(Some(StdinWrite { pid, data }))
                },
            },
        }
    }

    /// Whether `server_id` is supervised and alive.
    ///
    /// `liveness` is what the operating system said of the process of
    /// `server_id`; it is read only where the record has a process. A record
    /// whose process has exited is removed here.
    pub fn is_running(&mut self, server_id: &str, liveness: Liveness) -> (running: bool)
        ensures
            (final(self)@, running) == old(self)@.check_running(server_id@, liveness),
            final(self)@.valid(),
    {
        let key = server_id.to_owned();
        match self.find(&key) {
            Some(i) => {
                if self.slots[i].process.pid.is_none() {
                    true
                } else {
                    match liveness {
                        Liveness::Running => true,
                        Liveness::Exited => {
                            self.remove(server_id);
                            false
                        },
                        Liveness::Unknown(_) => false,
                    }
                }
            },
            None => false,
        }
    }

    /// Whether `server_id` holds its slot without a process of its own.
    pub fn is_installing(&self, server_id: &str) -> (installing: bool)
        ensures
            installing == (self@.supervises(server_id@) && self@.records[server_id@].pid is None),
    {
        let key = server_id.to_owned();
        match self.find(&key) {
            Some(i) => self.slots[i].process.pid.is_none(),
            None => false,
        }
    }

    /// Whether `server_id` waits for the operator to authenticate it.
    ///
    /// `credential_present` says whether the credential file is in the
    /// record's working directory. If it is, a flag that is set is cleared.
    pub fn is_auth_required(&mut self, server_id: &str, credential_present: bool) -> (required: bool)
        ensures
            (final(self)@, required) == old(self)@.check_auth(server_id@, credential_present),
            final(self)@.valid(),
    {
        proof {
            use_type_invariant(&*self);
        }
        let key = server_id.to_owned();
        match self.find(&key) {
            Some(i) => {
                if self.slots[i].process.auth_required && credential_present {
                    let ghost before = self.slots@;
                    let mut slot = self.checkout(i);
                    slot.process.auth_required = false;
                    proof {
                        lemma_put_back(before, i as int, slot);
                    }
                    self.checkin(i, slot);
                    false
                } else {
                    self.slots[i].process.auth_required
                }
            },
            None => false,
        }
    }

    /// Sets the authentication flag of `server_id`, if it is supervised.
    pub fn set_auth_required(&mut self, server_id: &str, required: bool)
        ensures
            final(self)@ == old(self)@.amend(server_id@, |record: ProcessState| record.with_auth(required)),
            final(self)@.valid(),
    {
        proof {
            use_type_invariant(&*self);
        }
        let key = server_id.to_owned();
        match self.find(&key) {
            Some(i) => {
                let ghost before = self.slots@;
                let mut slot = self.checkout(i);
                slot.process.auth_required = required;
                proof {
                    lemma_put_back(before, i as int, slot);
                }
                self.checkin(i, slot);
            },
            None => {},
        }
    }

    /// A new subscriber to the log of `server_id`: a subscriber of the
    /// channel of its record, which receives what is published from now on.
    /// Where `server_id` is not supervised the subscriber is one of a
    /// channel without a sender, and never gets a line, whatever is started
    /// under that identifier later.
    pub fn subscribe_logs(&self, server_id: &str) -> (receiver: Receiver<String>)
        ensures
            self@.supervises(server_id@) ==> subscribed_to(self@.channel_of(server_id@), receiver),
            !self@.supervises(server_id@) ==> without_sender(receiver),
    {
        let key = server_id.to_owned();
        match self.find(&key) {
            Some(i) => subscribe(&self.slots[i].process.log),
            None => closed_receiver(LOG_CAPACITY),
        }
    }

    /// Hands `message` to the log channel of `server_id`; whether there was
    /// one to hand it to is the answer.
    pub fn broadcast_log(&self, server_id: &str, message: String) -> (published: bool)
        ensures
            published == self@.supervises(server_id@),
    {
        let key = server_id.to_owned();
        match self.find(&key) {
            Some(i) => {
                publish(&self.slots[i].process.log, message);
                true
            },
            None => false,
        }
    }

    /// Takes in what the rules found in a line of output of either stream:
    /// the record of the reader's run, if it is still there, is updated.
    fn apply_line(&mut self, server_id: &str, run: u64, event: &LineEvent, prompt: bool)
        ensures
            final(self)@ == old(self)@.line(server_id@, run as nat, event@, prompt),
            final(self)@.valid(),
    {
        proof {
            use_type_invariant(&*self);
        }
        let key = server_id.to_owned();
        match self.find(&key) {
            Some(i) => {
                if self.slots[i].process.run == run {
                    let ghost before = self.slots@;
                    let mut slot = self.checkout(i);
                    match event {
                        LineEvent::Joined(name) => {
                            slot.process.players.insert(name.clone());
                        },
                        LineEvent::Left(name) => {
                            slot.process.players.remove(name.as_str());
                        },
                        _ => {},
                    }
                    if prompt {
                        slot.process.auth_required = true;
                    }
                    proof {
                        assert(slot.process@ == before[i as int].process@.after_line(event@, prompt));
                        lemma_put_back(before, i as int, slot);
                    }
                    self.checkin(i, slot);
                }
            },
            None => {},
        }
    }

    /// Takes in a line of standard output, given what the rules found in it.
    ///
    /// The record of the reader's run, if it is still there, is updated: a
    /// join adds the player, a leave removes the player, a request to
    /// authenticate sets the flag. The running status, where the server
    /// announced that it is ready, and then the line are handed to the
    /// reader's log channel; they are the answer.
    pub fn apply_stdout_line(
        &mut self,
        server_id: &str,
        reader: &OutputReader,
        event: &LineEvent,
        prompt: bool,
        line: &str,
    ) -> (published: Vec<String>)
        ensures
            final(self)@ == old(self)@.line(server_id@, reader.run as nat, event@, prompt),
            texts(published@) == stdout_publications(event@, line@),
            final(self)@.valid(),
    {
        self.apply_line(server_id, reader.run, event, prompt);
        let published = publications(event, line.to_owned());
        publish_all(&reader.log, &published);
        published
    }

    /// Takes in a line of standard output: the rules are applied to it, the
    /// record is updated and the line is published. The event is handed out
    /// for the caller to keep the player history.
    pub fn record_stdout_line(&mut self, rules: &LineRules, server_id: &str, reader: &OutputReader, line: &str) -> (report:
        LineReport)
        ensures
            report.event@ == classify_line(
                regex_capture(rules.join@, NAME_GROUP as nat, line@),
                regex_capture(rules.leave@, NAME_GROUP as nat, line@),
                regex_found(rules.ready@, line@),
            ),
            final(self)@ == old(self)@.line(server_id@, reader.run as nat, report.event@, auth_prompt(line@)),
            texts(report.published@) == stdout_publications(report.event@, line@),
            final(self)@.valid(),
    {
        let event = line_event(rules, line);
        let prompt = is_auth_prompt(line);
        let published = self.apply_stdout_line(server_id, reader, &event, prompt, line);
        LineReport { event, published }
    }

    /// Takes in a line of the error stream, given what the rules found in
    /// it. The record is updated as for a line of standard output; the line
    /// is published behind the error prefix.
    pub fn apply_stderr_line(
        &mut self,
        server_id: &str,
        reader: &OutputReader,
        event: &LineEvent,
        prompt: bool,
        line: &str,
    ) -> (published: Vec<String>)
        ensures
            final(self)@ == old(self)@.line(server_id@, reader.run as nat, event@, prompt),
            texts(published@) == stderr_publications(event@, line@),
            final(self)@.valid(),
    {
        self.apply_line(server_id, reader.run, event, prompt);
        let published = publications(event, String::from_str("[STDERR] ").concat(line));
        publish_all(&reader.log, &published);
        published
    }

    /// Takes in a line of the error stream: the same rules are applied to it
    /// as to a line of standard output.
    pub fn record_stderr_line(&mut self, rules: &LineRules, server_id: &str, reader: &OutputReader, line: &str) -> (report:
        LineReport)
        ensures
            report.event@ == classify_line(
                regex_capture(rules.join@, NAME_GROUP as nat, line@),
                regex_capture(rules.leave@, NAME_GROUP as nat, line@),
                regex_found(rules.ready@, line@),
            ),
            final(self)@ == old(self)@.line(server_id@, reader.run as nat, report.event@, auth_prompt(line@)),
            texts(report.published@) == stderr_publications(report.event@, line@),
            final(self)@.valid(),
    {
        let event = line_event(rules, line);
        let prompt = is_auth_prompt(line);
        let published = self.apply_stderr_line(server_id, reader, &event, prompt, line);
        LineReport { event, published }
    }

    /// The processes to sample: one target for each record with a process.
    pub fn sample_targets(&self) -> (targets: Vec<SampleTarget>)
        ensures
            forall|k: int|
                0 <= k < targets@.len() ==> self@.samples((#[trigger] targets@[k]).id@, targets@[k].run as nat)
                    && self@.records[targets@[k].id@].pid == Some(targets@[k].pid)
                    && self@.records[targets@[k].id@].working_dir == targets@[k].working_dir@,
            forall|a: int, b: int|
                0 <= a < targets@.len() && 0 <= b < targets@.len() && a != b ==> (#[trigger] targets@[a]).id@
                    != (#[trigger] targets@[b]).id@,
            forall|id: Seq<char>|
                self@.sampled(id) ==> exists|k: int| 0 <= k < targets@.len() && (#[trigger] targets@[k]).id@ == id,
    {
        proof {
            use_type_invariant(self);
        }
        let ghost ids = slot_ids(self.slots@);
        let ghost mut origin: Seq<int> = Seq::empty();
        let mut targets: Vec<SampleTarget> = Vec::new();
        let mut i: usize = 0;
        while i < self.slots.len()
            invariant
                i <= self.slots@.len(),
                ids == slot_ids(self.slots@),
                ids.no_duplicates(),
                origin.len() == targets@.len(),
                forall|k: int|
                    0 <= k < targets@.len() ==> 0 <= #[trigger] origin[k] < i && targets@[k].id@
                        == self.slots@[origin[k]].id@ && self.slots@[origin[k]].process@.pid == Some(targets@[k].pid)
                        && self.slots@[origin[k]].process@.run == targets@[k].run
                        && self.slots@[origin[k]].process@.working_dir == targets@[k].working_dir@,
                forall|a: int, b: int|
                    0 <= a < b < targets@.len() ==> #[trigger] origin[a] < #[trigger] origin[b],
                forall|j: int|
                    0 <= j < i && self.slots@[j].process@.pid is Some ==> exists|k: int|
                        0 <= k < targets@.len() && #[trigger] origin[k] == j,
            decreases self.slots@.len() - i,
        {
            match self.slots[i].process.pid {
                Some(pid) => {
                    let ghost before = targets@;
                    let ghost origin_before = origin;
                    targets.push(
                        SampleTarget {
                            id: self.slots[i].id.clone(),
                            run: self.slots[i].process.run,
                            pid,
                            working_dir: self.slots[i].process.working_dir.clone(),
                        },
                    );
                    proof {
                        origin = origin.push(i as int);
                        assert forall|j: int| 0 <= j < i + 1 && self.slots@[j].process@.pid is Some implies exists|
                            k: int,
                        |
                            0 <= k < targets@.len() && #[trigger] origin[k] == j by {
                            if j < i {
                                let k = choose|k: int| 0 <= k < before.len() && #[trigger] origin_before[k] == j;
                                assert(origin[k] == j);
                            } else {
                                assert(origin[before.len() as int] == j);
                            }
                        }
                    }
                },
                None => {},
            }
            i += 1;
        }
        proof {
            assert forall|k: int| 0 <= k < targets@.len() implies self@.samples(
                (#[trigger] targets@[k]).id@,
                targets@[k].run as nat,
            ) && self@.records[targets@[k].id@].pid == Some(targets@[k].pid)
                && self@.records[targets@[k].id@].working_dir == targets@[k].working_dir@ by {
                let j = origin[k];
                lemma_table_at(self.slots@, j);
            }
            assert forall|a: int, b: int|
                0 <= a < targets@.len() && 0 <= b < targets@.len() && a != b implies (#[trigger] targets@[a]).id@
                != (#[trigger] targets@[b]).id@ by {
                let ja = origin[a];
                let jb = origin[b];
                if a < b {
                    assert(ja < jb);
                } else {
                    assert(jb < ja);
                }
                assert(ids[ja] == self.slots@[ja].id@);
                assert(ids[jb] == self.slots@[jb].id@);
            }
            assert forall|id: Seq<char>| self@.sampled(id) implies exists|k: int|
                0 <= k < targets@.len() && (#[trigger] targets@[k]).id@ == id by {
                assert(ids.contains(id));
                let j = choose|j: int| 0 <= j < ids.len() && ids[j] == id;
                lemma_table_at(self.slots@, j);
                let k = choose|k: int| 0 <= k < targets@.len() && #[trigger] origin[k] == j;
                assert(targets@[k].id@ == id);
            }
        }
        targets
    }

    /// Takes in a sample of run `run` of `server_id`: the processor share as
    /// the bits of a 32-bit float, the resident memory, the disk usage where
    /// it was measured, and the metrics as JSON. Where the record of
    /// `server_id` is that of `run` and has a process, the sample is cached
    /// and the metrics message is handed to its log channel; a sample of a
    /// run that is gone is dropped. The message is the answer.
    pub fn record_sample(
        &mut self,
        server_id: &str,
        run: u64,
        cpu_bits: u32,
        memory: u64,
        disk: Option<u64>,
        json: &str,
    ) -> (message: String)
        ensures
            message@ == metrics_prefix() + json@,
            final(self)@ == old(self)@.sample(server_id@, run as nat, cpu_bits, memory, disk, message@),
            final(self)@.valid(),
    {
        proof {
            use_type_invariant(&*self);
        }
        let message = metrics_message(json);
        let key = server_id.to_owned();
        match self.find(&key) {
            Some(i) => {
                if self.slots[i].process.pid.is_some() && self.slots[i].process.run == run {
                    let ghost before = self.slots@;
                    let mut slot = self.checkout(i);
                    slot.process.cpu_bits = cpu_bits;
                    slot.process.memory = memory;
                    match disk {
                        Some(bytes) => {
                            slot.process.disk = bytes;
                        },
                        None => {},
                    }
                    slot.process.last_metrics = Some(message.clone());
                    publish(&slot.process.log, message.clone());
                    proof {
                        lemma_put_back(before, i as int, slot);
                    }
                    self.checkin(i, slot);
                }
            },
            None => {},
        }
        message
    }

    /// The players that are online on `server_id`, each once; `None` where
    /// `server_id` is not supervised.
    pub fn get_online_players(&self, server_id: &str) -> (players: Option<Vec<String>>)
        ensures
            self@.supervises(server_id@) ==> (players matches Some(names) && texts(names@).no_duplicates() && texts(
                names@,
            ).to_set() == self@.records[server_id@].players),
            !self@.supervises(server_id@) ==> players is None,
    {
        let key = server_id.to_owned();
        match self.find(&key) {
            Some(i) => Some(self.slots[i].process.players.to_vec()),
            None => None,
        }
    }

    /// How many players are online on all servers together, held at
    /// `u32::MAX` where the count does not fit.
    ///
    /// The count is the sum over the supervised identifiers, each taken
    /// once.
    pub fn get_total_online_players(&self) -> (total: u32)
        ensures
            exists|ids: Seq<Seq<char>>|
                ids.no_duplicates() && ids.to_set() == self@.records.dom() && total == (if self@.players_on(ids)
                    > u32::MAX {
                    u32::MAX as nat
                } else {
                    self@.players_on(ids)
                }),
    {
        proof {
            use_type_invariant(self);
        }
        let ghost ids = slot_ids(self.slots@);
        let mut total: u32 = 0;
        let mut i: usize = 0;
        while i < self.slots.len()
            invariant
                i <= self.slots@.len(),
                ids == slot_ids(self.slots@),
                ids.no_duplicates(),
                total == (if self@.players_on(ids.take(i as int)) > u32::MAX {
                    u32::MAX as nat
                } else {
                    self@.players_on(ids.take(i as int))
                }),
            decreases self.slots@.len() - i,
        {
            let count = self.slots[i].process.players.len();
            proof {
                lemma_table_at(self.slots@, i as int);
                assert(ids.take(i + 1).drop_last() =~= ids.take(i as int));
                assert(ids.take(i + 1).last() == self.slots@[i as int].id@);
            }
            total = if count > (u32::MAX - total) as usize {
                u32::MAX
            } else {
                total + count as u32
            };
            i += 1;
        }
        proof {
            assert(ids.take(i as int) =~= ids);
            assert(ids.to_set() =~= self@.records.dom());
        }
        total
    }

    /// When the record of `server_id` was created.
    pub fn get_server_started_at(&self, server_id: &str) -> (started_at: Option<i64>)
        ensures
            started_at == (if self@.supervises(server_id@) {
                Some(self@.records[server_id@].started_at)
            } else {
                None
            }),
    {
        let key = server_id.to_owned();
        match self.find(&key) {
            Some(i) => Some(self.slots[i].process.started_at),
            None => None,
        }
    }

    /// The process identifier of `server_id`; `None` where it is not
    /// supervised or its record is virtual.
    pub fn get_server_pid(&self, server_id: &str) -> (pid: Option<u32>)
        ensures
            pid == (if self@.supervises(server_id@) {
                self@.records[server_id@].pid
            } else {
                None
            }),
    {
        let key = server_id.to_owned();
        match self.find(&key) {
            Some(i) => self.slots[i].process.pid,
            None => None,
        }
    }

    /// The working directory of `server_id`.
    pub fn get_working_dir(&self, server_id: &str) -> (dir: Option<String>)
        ensures
            self@.supervises(server_id@) ==> (dir matches Some(text) && text@ == self@.records[server_id@].working_dir),
            !self@.supervises(server_id@) ==> dir is None,
    {
        let key = server_id.to_owned();
        match self.find(&key) {
            Some(i) => Some(self.slots[i].process.working_dir.clone()),
            None => None,
        }
    }

    /// The metrics message that was published last for `server_id`.
    pub fn get_last_metrics(&self, server_id: &str) -> (message: Option<String>)
        ensures
            self@.supervises(server_id@) ==> (match message {
                Some(text) => self@.records[server_id@].last_metrics == Some(text@),
                None => self@.records[server_id@].last_metrics is None,
            }),
            !self@.supervises(server_id@) ==> message is None,
    {
        let key = server_id.to_owned();
        match self.find(&key) {
            Some(i) => match &self.slots[i].process.last_metrics {
                Some(text) => Some(text.clone()),
                None => None,
            },
            None => None,
        }
    }

    /// The metrics of `server_id` that were sampled last; zeros where
    /// `server_id` is not supervised.
    pub fn get_metrics_data(&self, server_id: &str) -> (data: MetricsData)
        ensures
            data == self@.metrics(server_id@),
    {
        let key = server_id.to_owned();
        match self.find(&key) {
            Some(i) => MetricsData {
                cpu_bits: self.slots[i].process.cpu_bits,
                memory: self.slots[i].process.memory,
                disk: self.slots[i].process.disk,
            },
            None => MetricsData { cpu_bits: 0, memory: 0, disk: 0 },
        }
    }
}

impl Default for ProcessManager {
    /// An empty table.
    fn default() -> (manager: ProcessManager)
        ensures
            manager@ == (ManagerState { records: Map::empty(), next_run: 0 }),
            manager@.valid(),
    {
        ProcessManager::new()
    }
}

} // verus!
