//! What holds of the process table across several operations.

use vstd::prelude::*;
use crate::error::ErrorState;
use crate::scanner::{auth_prompt, EventState};
use tokio::sync::broadcast::Sender;
use crate::services::state::{
    fresh_process,
    shutdown_command,
    Liveness,
    ManagerState,
    MetricsData,
    ProcessState,
    StepState,
    GRACE_SECONDS,
};

verus! {

/// An identifier has at most one process. Of two attempts to start the same
/// free identifier, in whichever order the table takes them, the first
/// succeeds and the second fails with `AlreadyActive` and changes nothing;
/// the record is that of the first process. From the first success on, the
/// identifier counts as taken, so no second launch is planned for it.
pub proof fn lemma_start_at_most_once(
    table: ManagerState,
    id: Seq<char>,
    first_dir: Seq<char>,
    first_pid: u32,
    first_time: i64,
    first_log: Sender<String>,
    second_dir: Seq<char>,
    second_spawn: Result<u32, String>,
    second_time: i64,
    second_log: Sender<String>,
)
    requires
        !table.supervises(id),
    ensures
        ({
            let (between, first) = table.start(id, first_dir, Ok(first_pid), first_time, first_log);
            let (after, second) = between.start(id, second_dir, second_spawn, second_time, second_log);
            &&& first == Ok::<nat, ErrorState>(table.next_run)
            &&& second == Err::<nat, ErrorState>(ErrorState::AlreadyActive)
            &&& between.supervises(id)
            &&& between.records[id].pid == Some(first_pid)
            &&& between.channel_of(id) == first_log
            &&& after == between
        }),
{
}

/// On an identifier that is taken, every start fails with `AlreadyActive`
/// and every registration of an installation too, and the table stays as it
/// is.
pub proof fn lemma_taken_identifier_is_refused(
    table: ManagerState,
    id: Seq<char>,
    dir: Seq<char>,
    spawn: Result<u32, String>,
    time: i64,
    log: Sender<String>,
)
    requires
        table.supervises(id),
    ensures
        table.start(id, dir, spawn, time, log) == (table, Err::<nat, ErrorState>(ErrorState::AlreadyActive)),
        table.register(id, dir, time, log) == (table, Err::<(), ErrorState>(ErrorState::AlreadyActive)),
{
}

/// Lazy cleanup: once the process of a supervised identifier has exited, the
/// next liveness check answers `false` and removes the record, so that the
/// identifier can be started again at once.
pub proof fn lemma_lazy_cleanup(
    table: ManagerState,
    id: Seq<char>,
    dir: Seq<char>,
    pid: u32,
    time: i64,
    log: Sender<String>,
)
    requires
        table.supervises(id),
        table.records[id].pid is Some,
    ensures
        ({
            let (cleaned, running) = table.check_running(id, Liveness::Exited);
            let (restarted, started) = cleaned.start(id, dir, Ok(pid), time, log);
            &&& !running
            &&& !cleaned.supervises(id)
            &&& started is Ok
            &&& restarted.supervises(id)
            &&& restarted.records[id].pid == Some(pid)
        }),
{
}

/// A liveness check never answers `true` for an identifier whose process is
/// known to have exited, and never leaves its record behind.
pub proof fn lemma_no_stale_positive(table: ManagerState, id: Seq<char>)
    ensures
        table.check_running(id, Liveness::Exited).1 ==> (table.supervises(id) && table.records[id].pid is None),
        table.supervises(id) && table.records[id].pid is Some ==> !table.check_running(id, Liveness::Exited).0.supervises(
            id,
        ),
{
}

/// Graceful, then forced. Stopping a server with a process first asks it to
/// shut down and grants the grace period. A process that has exited by then
/// is not terminated: its record is removed and nothing is left to do. A
/// process that still runs is to be terminated, and its record goes once
/// that is confirmed.
pub proof fn lemma_graceful_then_forced(table: ManagerState, id: Seq<char>, pid: u32)
    requires
        table.supervises(id),
        table.records[id].pid == Some(pid),
    ensures
        ({
            let run = table.records[id].run;
            &&& table.stop(id) == (
                table,
                Ok::<StepState, ErrorState>(
                    StepState::Shutdown { pid, run, command: shutdown_command(), grace_secs: GRACE_SECONDS },
                ),
            )
            &&& table.stop_after_grace(id, run, Liveness::Exited) == (
                table.discard(id),
                Ok::<StepState, ErrorState>(StepState::Done),
            )
            &&& table.stop_after_grace(id, run, Liveness::Running) == (
                table,
                Ok::<StepState, ErrorState>(StepState::ForceKill { pid, run }),
            )
            &&& table.confirm_killed(id, run, Ok(())) == (table.discard(id), Ok::<(), ErrorState>(()))
            &&& !table.confirm_killed(id, run, Ok(())).0.supervises(id)
        }),
{
}

/// A stop or a kill touches no record but that of the run it began with.
/// Where the identifier has changed hands since, been stopped and started
/// again, the steps that remain leave the new record alone, whatever they
/// are told of the old process.
pub proof fn lemma_late_step_spares_the_successor(
    table: ManagerState,
    id: Seq<char>,
    run: nat,
    liveness: Liveness,
    killed: Result<(), String>,
)
    requires
        !table.reads(id, run),
    ensures
        table.stop_after_grace(id, run, liveness) == (table, Ok::<StepState, ErrorState>(StepState::Done)),
        table.confirm_killed(id, run, killed).0 == table,
{
}

/// A record that is created gets a run number that no record of the table
/// has, as long as numbers are left.
pub proof fn lemma_new_run_is_new(
    table: ManagerState,
    id: Seq<char>,
    dir: Seq<char>,
    pid: u32,
    time: i64,
    log: Sender<String>,
    other: Seq<char>,
)
    requires
        !table.supervises(id),
        table.valid(),
        table.next_run < u64::MAX,
    ensures
        table.start(id, dir, Ok(pid), time, log).0.numbered(),
        table.register(id, dir, time, log).0.numbered(),
        table.supervises(other) ==> table.records[other].run != table.start(
            id,
            dir,
            Ok(pid),
            time,
            log,
        ).0.records[id].run,
{
}

/// A restart never fails for want of something to stop: where nothing runs
/// under the identifier, the start comes next, and the identifier is free
/// for it unless an installation holds it.
pub proof fn lemma_restart_of_nothing_goes_on(table: ManagerState, id: Seq<char>, liveness: Liveness)
    ensures
        !(table.restart(id, liveness).1 matches Err(ErrorState::NotRunning)),
        !table.supervises(id) ==> table.restart(id, liveness) == (table, Ok::<StepState, ErrorState>(StepState::Done)),
        table.supervises(id) && table.records[id].pid is Some ==> table.restart(id, Liveness::Exited) == (
            table.discard(id),
            Ok::<StepState, ErrorState>(StepState::Done),
        ),
        table.supervises(id) && table.records[id].pid is Some ==> table.restart(id, Liveness::Running)
            == table.stop(id),
{
}

/// Killing skips the request and the grace period: a server with a process
/// is to be terminated at once.
pub proof fn lemma_kill_is_immediate(table: ManagerState, id: Seq<char>, pid: u32)
    requires
        table.supervises(id),
        table.records[id].pid == Some(pid),
    ensures
        table.kill(id) == (
            table,
            Ok::<StepState, ErrorState>(StepState::ForceKill { pid, run: table.records[id].run }),
        ),
{
}

/// A player who joins is online; a player who then leaves is not. Whatever
/// else the two lines hold, whichever stream they come on, and whoever else
/// is online.
pub proof fn lemma_join_then_leave(record: ProcessState, name: Seq<char>, join_prompt: bool, leave_prompt: bool)
    ensures
        ({
            let joined = record.after_line(EventState::Joined(name), join_prompt);
            let left = joined.after_line(EventState::Left(name), leave_prompt);
            &&& joined.players.contains(name)
            &&& !left.players.contains(name)
            &&& forall|other: Seq<char>| other != name ==> (left.players.contains(other) <==> record.players.contains(other))
        }),
{
}

/// The same, seen through the table: a reader of a record's run reports a
/// join and then a leave of one player.
pub proof fn lemma_player_round_trip(
    table: ManagerState,
    id: Seq<char>,
    run: nat,
    name: Seq<char>,
    join_line: Seq<char>,
    leave_line: Seq<char>,
)
    requires
        table.reads(id, run),
    ensures
        ({
            let joined = table.line(id, run, EventState::Joined(name), auth_prompt(join_line));
            let left = joined.line(id, run, EventState::Left(name), auth_prompt(leave_line));
            &&& joined.supervises(id)
            &&& joined.records[id].players.contains(name)
            &&& left.supervises(id)
            &&& !left.records[id].players.contains(name)
        }),
{
}

/// The authentication flag heals itself. A line that asks for
/// authentication sets the flag. From then on the query answers `true`
/// while the credential file is missing; once the file is there the query
/// answers `false` and clears the flag, so that it stays `false` however the
/// file fares afterwards.
pub proof fn lemma_auth_self_heal(
    table: ManagerState,
    id: Seq<char>,
    run: nat,
    event: EventState,
    line: Seq<char>,
    present_later: bool,
)
    requires
        table.reads(id, run),
        auth_prompt(line),
    ensures
        ({
            let prompted = table.line(id, run, event, auth_prompt(line));
            let (healed, required) = prompted.check_auth(id, true);
            &&& prompted.supervises(id)
            &&& prompted.records[id].auth_required
            &&& prompted.check_auth(id, false) == (prompted, true)
            &&& !required
            &&& healed.supervises(id)
            &&& !healed.records[id].auth_required
            &&& healed.check_auth(id, present_later) == (healed, false)
        }),
{
}

/// The metrics of an identifier that is not supervised are zeros.
pub proof fn lemma_unsupervised_metrics_are_zero(table: ManagerState, id: Seq<char>)
    requires
        !table.supervises(id),
    ensures
        table.metrics(id) == (MetricsData { cpu_bits: 0, memory: 0, disk: 0 }),
{
}

/// Removing an identifier frees it, and removing it again changes nothing.
pub proof fn lemma_discard_is_idempotent(table: ManagerState, id: Seq<char>)
    ensures
        !table.discard(id).supervises(id),
        table.discard(id).discard(id) == table.discard(id),
{
    assert(table.discard(id).records.remove(id) =~= table.discard(id).records);
}

/// Every operation takes a valid table to a valid table.
pub proof fn lemma_table_stays_valid(
    table: ManagerState,
    id: Seq<char>,
    dir: Seq<char>,
    spawn: Result<u32, String>,
    time: i64,
    log: Sender<String>,
    liveness: Liveness,
    killed: Result<(), String>,
    credential_present: bool,
    run: nat,
    event: EventState,
    prompt: bool,
    line: Seq<char>,
    cpu_bits: u32,
    memory: u64,
    disk: Option<u64>,
)
    requires
        table.valid(),
    ensures
        table.register(id, dir, time, log).0.valid(),
        table.start(id, dir, spawn, time, log).0.valid(),
        table.discard(id).valid(),
        table.stop(id).0.valid(),
        table.stop_after_grace(id, run, liveness).0.valid(),
        table.confirm_killed(id, run, killed).0.valid(),
        table.kill(id).0.valid(),
        table.restart(id, liveness).0.valid(),
        table.check_running(id, liveness).0.valid(),
        table.check_auth(id, credential_present).0.valid(),
        table.line(id, run, event, prompt).valid(),
        table.sample(id, run, cpu_bits, memory, disk, line).valid(),
{
    assert(fresh_process(None, dir, time, table.next_run, log).valid());
    match spawn {
        Ok(pid) => {
            assert(fresh_process(Some(pid), dir, time, table.next_run, log).valid());
        },
        Err(_) => {},
    }
}

/// A record keeps its log channel for as long as it is there: no line of
/// output, no sample, no query and no change of the authentication flag
/// gives it another, and whatever happens to one identifier leaves the
/// channels of the others alone.
pub proof fn lemma_channel_stays(
    table: ManagerState,
    id: Seq<char>,
    other: Seq<char>,
    dir: Seq<char>,
    spawn: Result<u32, String>,
    time: i64,
    log: Sender<String>,
    liveness: Liveness,
    killed: Result<(), String>,
    credential_present: bool,
    run: nat,
    event: EventState,
    prompt: bool,
    line: Seq<char>,
    cpu_bits: u32,
    memory: u64,
    disk: Option<u64>,
)
    requires
        table.supervises(other),
    ensures
        table.line(id, run, event, prompt).channel_of(other) == table.channel_of(other),
        table.sample(id, run, cpu_bits, memory, disk, line).channel_of(other) == table.channel_of(other),
        table.check_auth(id, credential_present).0.channel_of(other) == table.channel_of(other),
        table.start(id, dir, spawn, time, log).0.channel_of(other) == table.channel_of(other),
        table.register(id, dir, time, log).0.channel_of(other) == table.channel_of(other),
        table.stop(id).0.supervises(other) ==> table.stop(id).0.channel_of(other) == table.channel_of(other),
        table.stop_after_grace(id, run, liveness).0.supervises(other) ==> table.stop_after_grace(
            id,
            run,
            liveness,
        ).0.channel_of(other) == table.channel_of(other),
        table.confirm_killed(id, run, killed).0.supervises(other) ==> table.confirm_killed(id, run, killed).0.channel_of(
            other,
        ) == table.channel_of(other),
        table.kill(id).0.supervises(other) ==> table.kill(id).0.channel_of(other) == table.channel_of(other),
        table.check_running(id, liveness).0.supervises(other) ==> table.check_running(id, liveness).0.channel_of(other)
            == table.channel_of(other),
        table.restart(id, liveness).0.supervises(other) ==> table.restart(id, liveness).0.channel_of(other)
            == table.channel_of(other),
{
}

} // verus!
