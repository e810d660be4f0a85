use server_supervisor::error::ProcessError;
use tokio::sync::broadcast::error::TryRecvError;
use server_supervisor::scanner::{LineEvent, LineRules};
use server_supervisor::services::launch::{BindConfig, PortField};
use server_supervisor::services::process_manager::{
    disk_sample_due, metrics_message, stopped_marker_line, OutputReader, ProcessManager,
};
use server_supervisor::services::state::{
    Liveness, MetricsData, StdinWrite, StopStep, CREDENTIAL_FILE, DISK_SAMPLE_EVERY, GRACE_SECONDS, LOG_DIRECTORY,
    LOG_FILE, SAMPLE_INTERVAL_SECONDS,
};

const JOIN: &str = "[12:00:01] [Server/INFO]: Alice joined the game";
const LEAVE: &str = "[12:09:30] [Server/INFO]: Alice left the game";
const PROMPT: &str = "[HytaleServer] No server tokens configured";

fn started(manager: &mut ProcessManager, id: &str, pid: u32) -> OutputReader {
    manager.start(id, "/srv", Ok(pid), 1_700_000_000_000).unwrap()
}

fn run_of(done: Result<OutputReader, ProcessError>) -> Result<u64, ProcessError> {
    done.map(|reader| reader.run)
}

fn zeros() -> MetricsData {
    MetricsData { cpu_bits: 0, memory: 0, disk: 0 }
}

#[test]
fn empty_table_knows_nobody() {
    let mut manager = ProcessManager::new();
    assert!(!manager.is_running("a", Liveness::Running));
    assert!(!manager.is_installing("a"));
    assert!(!manager.is_auth_required("a", false));
    assert_eq!(manager.get_online_players("a"), None);
    assert_eq!(manager.get_server_started_at("a"), None);
    assert_eq!(manager.get_server_pid("a"), None);
    assert_eq!(manager.get_working_dir("a"), None);
    assert_eq!(manager.get_last_metrics("a"), None);
    assert_eq!(manager.get_total_online_players(), 0);
    assert!(manager.sample_targets().is_empty());
}

#[test]
fn start_creates_a_record_with_a_process() {
    let mut manager = ProcessManager::new();
    assert_eq!(run_of(manager.start("a", "/srv/a", Ok(4242), 1_700_000_000_123)), Ok(0));
    assert!(manager.is_running("a", Liveness::Running));
    assert!(!manager.is_installing("a"));
    assert_eq!(manager.get_server_pid("a"), Some(4242));
    assert_eq!(manager.get_server_started_at("a"), Some(1_700_000_000_123));
    assert_eq!(manager.get_working_dir("a"), Some("/srv/a".to_string()));
    assert_eq!(manager.get_online_players("a"), Some(vec![]));
    assert_eq!(manager.get_metrics_data("a"), zeros());
    assert!(!manager.is_auth_required("a", false));
}

#[test]
fn second_start_of_an_identifier_is_refused() {
    let mut manager = ProcessManager::new();
    assert_eq!(run_of(manager.start("a", "/one", Ok(1), 10)), Ok(0));
    assert_eq!(run_of(manager.start("a", "/two", Ok(2), 20)), Err(ProcessError::AlreadyActive));
    assert_eq!(manager.get_server_pid("a"), Some(1));
    assert_eq!(manager.get_working_dir("a"), Some("/one".to_string()));
    assert_eq!(manager.get_server_started_at("a"), Some(10));
}

#[test]
fn no_launch_is_planned_for_a_taken_identifier() {
    let mut manager = ProcessManager::new();
    let planned = manager.launch_command("a", "s.jar", "/srv", None, None, None, None, None);
    assert_eq!(planned.unwrap().program, "java");
    started(&mut manager, "a", 1);
    let planned = manager.launch_command("a", "s.jar", "/srv", None, None, None, None, None);
    assert_eq!(planned, Err(ProcessError::AlreadyActive));
    let planned = manager.launch_command("b", "s.jar", "/srv", None, None, None, None, None);
    assert!(planned.is_ok());
}

#[test]
fn planned_launch_carries_the_settings() {
    let manager = ProcessManager::new();
    let config =
        BindConfig { port: PortField::Number(7000), port_capitalized: PortField::Absent, bind_address: None };
    let command = manager
        .launch_command(
            "a",
            "game.jar",
            "/srv/a",
            Some("/usr/bin/java"),
            Some("512M"),
            Some("4G"),
            Some("-Dx=1"),
            Some(&config),
        )
        .unwrap();
    assert_eq!(command.program, "/usr/bin/java");
    assert_eq!(command.working_dir, "/srv/a");
    assert_eq!(command.args[0], "-Xms2730M");
    assert_eq!(command.args[1], "-Xmx3072M");
    assert_eq!(command.args[5], "-Dx=1");
    assert_eq!(command.args[7], "game.jar");
    assert_eq!(command.args[11], "0.0.0.0:7000");
}

#[test]
fn failed_spawn_leaves_no_record() {
    let mut manager = ProcessManager::new();
    let done = run_of(manager.start("a", "/srv", Err("No such file or directory".to_string()), 5));
    assert_eq!(done, Err(ProcessError::SpawnFailed("No such file or directory".to_string())));
    assert!(!manager.is_running("a", Liveness::Running));
    assert_eq!(run_of(manager.start("a", "/srv", Ok(9), 6)), Ok(0));
}

#[test]
fn taken_identifier_is_reported_before_a_failed_spawn() {
    let mut manager = ProcessManager::new();
    started(&mut manager, "a", 1);
    assert_eq!(run_of(manager.start("a", "/srv", Err("boom".to_string()), 5)), Err(ProcessError::AlreadyActive));
}

#[test]
fn every_record_gets_a_run_of_its_own() {
    let mut manager = ProcessManager::new();
    assert_eq!(started(&mut manager, "a", 1).run, 0);
    assert_eq!(started(&mut manager, "b", 2).run, 1);
    manager.remove("a");
    assert_eq!(started(&mut manager, "a", 3).run, 2);
    assert_eq!(manager.register_installing("c", "/srv/c", 0), Ok(()));
    assert_eq!(started(&mut manager, "d", 4).run, 4);
}

#[test]
fn installing_holds_the_slot() {
    let mut manager = ProcessManager::new();
    assert_eq!(manager.register_installing("a", "/srv/a", 77), Ok(()));
    assert!(manager.is_installing("a"));
    assert!(manager.is_running("a", Liveness::Exited));
    assert_eq!(manager.get_server_pid("a"), None);
    assert_eq!(manager.get_server_started_at("a"), Some(77));
    assert_eq!(manager.register_installing("a", "/other", 78), Err(ProcessError::AlreadyActive));
    assert_eq!(run_of(manager.start("a", "/srv/a", Ok(5), 79)), Err(ProcessError::AlreadyActive));
    manager.remove("a");
    assert!(!manager.is_installing("a"));
    assert_eq!(run_of(manager.start("a", "/srv/a", Ok(5), 80)), Ok(1));
    assert!(!manager.is_installing("a"));
}

#[test]
fn remove_of_an_unknown_identifier_changes_nothing() {
    let mut manager = ProcessManager::new();
    started(&mut manager, "a", 1);
    manager.remove("b");
    manager.remove("");
    assert_eq!(manager.get_server_pid("a"), Some(1));
}

#[test]
fn exited_process_is_cleaned_up_by_the_liveness_check() {
    let mut manager = ProcessManager::new();
    started(&mut manager, "a", 1);
    assert!(manager.is_running("a", Liveness::Running));
    assert!(!manager.is_running("a", Liveness::Exited));
    assert_eq!(manager.get_server_pid("a"), None);
    assert_eq!(manager.get_online_players("a"), None);
    assert!(manager.start("a", "/srv", Ok(2), 9).is_ok());
    assert_eq!(manager.get_server_pid("a"), Some(2));
}

#[test]
fn unknown_liveness_is_not_running_and_keeps_the_record() {
    let mut manager = ProcessManager::new();
    started(&mut manager, "a", 1);
    assert!(!manager.is_running("a", Liveness::Unknown("EPERM".to_string())));
    assert_eq!(manager.get_server_pid("a"), Some(1));
    assert!(manager.is_running("a", Liveness::Running));
}

#[test]
fn stop_of_an_unknown_identifier_fails() {
    let mut manager = ProcessManager::new();
    assert_eq!(manager.stop("a"), Err(ProcessError::NotRunning));
    assert_eq!(manager.stop_after_grace("a", 0, Liveness::Running), Ok(StopStep::Done));
    assert_eq!(manager.kill("a"), Err(ProcessError::NotRunning));
    assert_eq!(manager.send_command("a", "say hi"), Err(ProcessError::NotRunning));
}

#[test]
fn graceful_stop_does_not_escalate() {
    let mut manager = ProcessManager::new();
    started(&mut manager, "a", 31);
    let step = manager.stop("a").unwrap();
    assert_eq!(step, StopStep::Shutdown { pid: 31, run: 0, command: "/shutdown".to_string(), grace_secs: 5 });
    assert_eq!(GRACE_SECONDS, 5);
    assert_eq!(manager.get_server_pid("a"), Some(31));
    assert_eq!(manager.stop_after_grace("a", 0, Liveness::Exited), Ok(StopStep::Done));
    assert_eq!(manager.get_server_pid("a"), None);
    assert!(!manager.is_running("a", Liveness::Running));
}

#[test]
fn stubborn_process_is_killed_after_the_grace_period() {
    let mut manager = ProcessManager::new();
    started(&mut manager, "a", 31);
    assert!(matches!(manager.stop("a"), Ok(StopStep::Shutdown { pid: 31, .. })));
    assert_eq!(manager.stop_after_grace("a", 0, Liveness::Running), Ok(StopStep::ForceKill { pid: 31, run: 0 }));
    assert_eq!(manager.get_server_pid("a"), Some(31));
    assert_eq!(manager.confirm_killed("a", 0, Ok(())), Ok(()));
    assert_eq!(manager.get_server_pid("a"), None);
    assert!(manager.start("a", "/srv", Ok(32), 1).is_ok());
}

#[test]
fn failed_liveness_check_during_stop_is_reported() {
    let mut manager = ProcessManager::new();
    started(&mut manager, "a", 31);
    manager.stop("a").unwrap();
    let done = manager.stop_after_grace("a", 0, Liveness::Unknown("wait failed".to_string()));
    assert_eq!(done, Err(ProcessError::WaitFailed("wait failed".to_string())));
    assert_eq!(manager.get_server_pid("a"), Some(31));
}

#[test]
fn failed_kill_is_reported_and_keeps_the_record() {
    let mut manager = ProcessManager::new();
    started(&mut manager, "a", 31);
    assert_eq!(manager.kill("a"), Ok(StopStep::ForceKill { pid: 31, run: 0 }));
    let done = manager.confirm_killed("a", 0, Err("Operation not permitted".to_string()));
    assert_eq!(done, Err(ProcessError::KillFailed("Operation not permitted".to_string())));
    assert_eq!(manager.get_server_pid("a"), Some(31));
}

#[test]
fn kill_is_immediate() {
    let mut manager = ProcessManager::new();
    started(&mut manager, "a", 8);
    assert_eq!(manager.kill("a"), Ok(StopStep::ForceKill { pid: 8, run: 0 }));
    assert_eq!(manager.confirm_killed("a", 0, Ok(())), Ok(()));
    assert_eq!(manager.kill("a"), Err(ProcessError::NotRunning));
}

#[test]
fn stop_and_kill_of_a_virtual_record_remove_it() {
    let mut manager = ProcessManager::new();
    manager.register_installing("a", "/srv", 0).unwrap();
    assert_eq!(manager.stop("a"), Ok(StopStep::Done));
    assert!(!manager.is_installing("a"));
    manager.register_installing("a", "/srv", 0).unwrap();
    assert_eq!(manager.kill("a"), Ok(StopStep::Done));
    assert!(!manager.is_installing("a"));
    manager.register_installing("a", "/srv", 0).unwrap();
    assert_eq!(manager.stop_after_grace("a", 2, Liveness::Running), Ok(StopStep::Done));
    assert!(!manager.is_installing("a"));
    manager.register_installing("a", "/srv", 0).unwrap();
    assert_eq!(manager.stop_after_grace("a", 2, Liveness::Running), Ok(StopStep::Done));
    assert!(manager.is_installing("a"));
}

#[test]
fn command_is_written_with_a_line_end() {
    let mut manager = ProcessManager::new();
    started(&mut manager, "a", 12);
    let write = manager.send_command("a", "say hello").unwrap();
    assert_eq!(write, Some(StdinWrite { pid: 12, data: "say hello\n".to_string() }));
    let write = manager.send_command("a", "").unwrap();
    assert_eq!(write, Some(StdinWrite { pid: 12, data: "\n".to_string() }));
}

#[test]
fn command_to_a_virtual_record_does_nothing() {
    let mut manager = ProcessManager::new();
    manager.register_installing("a", "/srv", 0).unwrap();
    assert_eq!(manager.send_command("a", "say hello"), Ok(None));
}

#[test]
fn player_joins_and_leaves() {
    let mut manager = ProcessManager::new();
    let rules = LineRules::hytale();
    let reader = started(&mut manager, "a", 1);
    let report = manager.record_stdout_line(&rules, "a", &reader, JOIN);
    assert_eq!(report.event, LineEvent::Joined("Alice".to_string()));
    assert_eq!(report.published, vec![JOIN.to_string()]);
    assert_eq!(manager.get_online_players("a"), Some(vec!["Alice".to_string()]));
    assert_eq!(manager.get_total_online_players(), 1);
    let report = manager.record_stdout_line(&rules, "a", &reader, LEAVE);
    assert_eq!(report.event, LineEvent::Left("Alice".to_string()));
    assert_eq!(manager.get_online_players("a"), Some(vec![]));
    assert_eq!(manager.get_total_online_players(), 0);
}

#[test]
fn player_joins_and_leaves_on_the_error_stream() {
    let mut manager = ProcessManager::new();
    let rules = LineRules::hytale();
    let reader = started(&mut manager, "a", 1);
    let report = manager.record_stderr_line(&rules, "a", &reader, "[t] [i]: Bob joined the game");
    assert_eq!(report.event, LineEvent::Joined("Bob".to_string()));
    assert_eq!(report.published, vec!["[STDERR] [t] [i]: Bob joined the game".to_string()]);
    assert_eq!(manager.get_online_players("a"), Some(vec!["Bob".to_string()]));
    let report = manager.record_stderr_line(&rules, "a", &reader, "[t] [i]: Bob left the game");
    assert_eq!(report.event, LineEvent::Left("Bob".to_string()));
    assert_eq!(manager.get_online_players("a"), Some(vec![]));
}

#[test]
fn player_who_joins_twice_is_online_once() {
    let mut manager = ProcessManager::new();
    let rules = LineRules::hytale();
    let reader = started(&mut manager, "a", 1);
    manager.record_stdout_line(&rules, "a", &reader, JOIN);
    manager.record_stderr_line(&rules, "a", &reader, JOIN);
    manager.record_stdout_line(&rules, "a", &reader, "[t] [i]: Bob joined the game");
    let mut players = manager.get_online_players("a").unwrap();
    players.sort();
    assert_eq!(players, vec!["Alice".to_string(), "Bob".to_string()]);
    manager.record_stdout_line(&rules, "a", &reader, "[t] [i]: Carol left the game");
    assert_eq!(manager.get_online_players("a").unwrap().len(), 2);
}

#[test]
fn total_counts_the_players_of_every_server() {
    let mut manager = ProcessManager::new();
    let rules = LineRules::hytale();
    let a = started(&mut manager, "a", 1);
    let b = started(&mut manager, "b", 2);
    manager.register_installing("c", "/srv/c", 0).unwrap();
    manager.record_stdout_line(&rules, "a", &a, "[t] [i]: Alice joined the game");
    manager.record_stdout_line(&rules, "a", &a, "[t] [i]: Bob joined the game");
    manager.record_stdout_line(&rules, "b", &b, "[t] [i]: Alice joined the game");
    assert_eq!(manager.get_total_online_players(), 3);
    manager.remove("a");
    assert_eq!(manager.get_total_online_players(), 1);
}

#[test]
fn lines_are_published_in_order() {
    let mut manager = ProcessManager::new();
    let rules = LineRules::hytale();
    let reader = started(&mut manager, "a", 1);
    let mut sub = manager.subscribe_logs("a");
    assert_eq!(sub.try_recv(), Err(TryRecvError::Empty));
    manager.record_stdout_line(&rules, "a", &reader, "Loading...");
    let report = manager.record_stdout_line(&rules, "a", &reader, "[HytaleServer] Universe ready!");
    assert_eq!(report.event, LineEvent::Ready);
    assert_eq!(
        report.published,
        vec!["[STATUS]: running".to_string(), "[HytaleServer] Universe ready!".to_string()]
    );
    manager.record_stdout_line(&rules, "a", &reader, JOIN);
    assert_eq!(sub.try_recv(), Ok("Loading...".to_string()));
    assert_eq!(sub.try_recv(), Ok("[STATUS]: running".to_string()));
    assert_eq!(sub.try_recv(), Ok("[HytaleServer] Universe ready!".to_string()));
    assert_eq!(sub.try_recv(), Ok(JOIN.to_string()));
    assert_eq!(sub.try_recv(), Err(TryRecvError::Empty));
}

#[test]
fn subscriber_does_not_see_what_was_published_before() {
    let mut manager = ProcessManager::new();
    started(&mut manager, "a", 1);
    manager.broadcast_log("a", "early".to_string());
    let mut sub = manager.subscribe_logs("a");
    assert_eq!(sub.try_recv(), Err(TryRecvError::Empty));
    manager.broadcast_log("a", "late".to_string());
    assert_eq!(sub.try_recv(), Ok("late".to_string()));
}

#[test]
fn error_stream_is_published_with_its_prefix() {
    let mut manager = ProcessManager::new();
    let rules = LineRules::hytale();
    let reader = started(&mut manager, "a", 1);
    let mut sub = manager.subscribe_logs("a");
    let report = manager.record_stderr_line(&rules, "a", &reader, "Exception in thread main");
    assert_eq!(report.event, LineEvent::Nothing);
    assert_eq!(report.published, vec!["[STDERR] Exception in thread main".to_string()]);
    assert_eq!(sub.try_recv(), Ok("[STDERR] Exception in thread main".to_string()));
    assert!(!manager.is_auth_required("a", false));
    manager.record_stderr_line(&rules, "a", &reader, PROMPT);
    assert!(manager.is_auth_required("a", false));
}

#[test]
fn ready_on_the_error_stream_publishes_the_running_status() {
    let mut manager = ProcessManager::new();
    let rules = LineRules::hytale();
    let reader = started(&mut manager, "a", 1);
    let mut sub = manager.subscribe_logs("a");
    let report = manager.record_stderr_line(&rules, "a", &reader, "Universe ready!");
    assert_eq!(report.event, LineEvent::Ready);
    assert_eq!(report.published, vec!["[STATUS]: running".to_string(), "[STDERR] Universe ready!".to_string()]);
    assert_eq!(sub.try_recv(), Ok("[STATUS]: running".to_string()));
    assert_eq!(sub.try_recv(), Ok("[STDERR] Universe ready!".to_string()));
}

#[test]
fn end_of_a_stream_publishes_the_stopped_status_and_keeps_the_record() {
    let mut manager = ProcessManager::new();
    let reader = started(&mut manager, "a", 1);
    let mut sub = manager.subscribe_logs("a");
    assert_eq!(reader.stream_closed(), "[STATUS]: stopped");
    assert_eq!(sub.try_recv(), Ok("[STATUS]: stopped".to_string()));
    assert_eq!(reader.stream_closed(), "[STATUS]: stopped");
    assert_eq!(sub.try_recv(), Ok("[STATUS]: stopped".to_string()));
    assert_eq!(manager.get_server_pid("a"), Some(1));
    assert_eq!(manager.get_online_players("a"), Some(vec![]));
    assert_eq!(stopped_marker_line(), "[Server Stopped]");
}

#[test]
fn late_lines_of_a_former_process_do_not_reach_its_successor() {
    let mut manager = ProcessManager::new();
    let rules = LineRules::hytale();
    let old = started(&mut manager, "a", 1);
    let mut old_sub = manager.subscribe_logs("a");
    manager.remove("a");
    let new = started(&mut manager, "a", 2);
    let mut new_sub = manager.subscribe_logs("a");
    let report = manager.record_stdout_line(&rules, "a", &old, JOIN);
    assert_eq!(report.event, LineEvent::Joined("Alice".to_string()));
    manager.record_stderr_line(&rules, "a", &old, PROMPT);
    old.stream_closed();
    assert_eq!(manager.get_online_players("a"), Some(vec![]));
    assert!(!manager.is_auth_required("a", false));
    assert_eq!(new_sub.try_recv(), Err(TryRecvError::Empty));
    assert_eq!(old_sub.try_recv(), Ok(JOIN.to_string()));
    assert_eq!(old_sub.try_recv(), Ok(format!("[STDERR] {}", PROMPT)));
    assert_eq!(old_sub.try_recv(), Ok("[STATUS]: stopped".to_string()));
    manager.record_stdout_line(&rules, "a", &new, JOIN);
    assert_eq!(manager.get_online_players("a"), Some(vec!["Alice".to_string()]));
    assert_eq!(new_sub.try_recv(), Ok(JOIN.to_string()));
}

#[test]
fn lines_for_an_unknown_identifier_are_still_read() {
    let mut manager = ProcessManager::new();
    let rules = LineRules::hytale();
    let reader = started(&mut manager, "b", 1);
    assert_eq!(manager.record_stdout_line(&rules, "a", &reader, LEAVE).event, LineEvent::Left("Alice".to_string()));
    assert_eq!(manager.record_stderr_line(&rules, "a", &reader, "oops").published, vec!["[STDERR] oops".to_string()]);
    assert_eq!(manager.get_online_players("a"), None);
}

#[test]
fn steps_of_a_stop_spare_the_successor() {
    let mut manager = ProcessManager::new();
    let old = started(&mut manager, "a", 1);
    assert!(matches!(manager.stop("a"), Ok(StopStep::Shutdown { pid: 1, run: 0, .. })));
    manager.remove("a");
    let new = started(&mut manager, "a", 2);
    assert_eq!(manager.stop_after_grace("a", old.run, Liveness::Running), Ok(StopStep::Done));
    assert_eq!(manager.stop_after_grace("a", old.run, Liveness::Exited), Ok(StopStep::Done));
    assert_eq!(manager.confirm_killed("a", old.run, Ok(())), Ok(()));
    assert_eq!(manager.get_server_pid("a"), Some(2));
    assert_eq!(
        manager.stop_after_grace("a", new.run, Liveness::Running),
        Ok(StopStep::ForceKill { pid: 2, run: new.run })
    );
    assert_eq!(manager.confirm_killed("a", new.run, Ok(())), Ok(()));
    assert_eq!(manager.get_server_pid("a"), None);
}

#[test]
fn auth_prompt_sets_the_flag_and_the_credential_file_clears_it() {
    let mut manager = ProcessManager::new();
    let rules = LineRules::hytale();
    let reader = started(&mut manager, "a", 1);
    assert!(!manager.is_auth_required("a", false));
    manager.record_stdout_line(&rules, "a", &reader, PROMPT);
    assert!(manager.is_auth_required("a", false));
    assert!(manager.is_auth_required("a", false));
    assert!(!manager.is_auth_required("a", true));
    assert!(!manager.is_auth_required("a", false));
}

#[test]
fn auth_flag_can_be_set_by_hand() {
    let mut manager = ProcessManager::new();
    started(&mut manager, "a", 1);
    manager.set_auth_required("a", true);
    assert!(manager.is_auth_required("a", false));
    manager.set_auth_required("a", false);
    assert!(!manager.is_auth_required("a", false));
    manager.set_auth_required("b", true);
    assert!(!manager.is_auth_required("b", false));
}

#[test]
fn credential_file_without_a_flag_changes_nothing() {
    let mut manager = ProcessManager::new();
    started(&mut manager, "a", 1);
    assert!(!manager.is_auth_required("a", true));
    manager.set_auth_required("a", true);
    assert!(manager.is_auth_required("a", false));
}

#[test]
fn metrics_of_an_unknown_identifier_are_zeros() {
    let manager = ProcessManager::new();
    assert_eq!(manager.get_metrics_data("nobody"), zeros());
    assert_eq!(manager.get_last_metrics("nobody"), None);
}

#[test]
fn sample_is_cached_and_published() {
    let mut manager = ProcessManager::new();
    started(&mut manager, "a", 1);
    let mut sub = manager.subscribe_logs("a");
    let cpu = 12.5f32.to_bits();
    let message = manager.record_sample("a", 0, cpu, 1_000_000, Some(42), r#"{"cpu":12.5,"memory":1000000,"disk_bytes":42}"#);
    assert_eq!(message, r#"[METRICS]: {"cpu":12.5,"memory":1000000,"disk_bytes":42}"#);
    assert_eq!(manager.get_metrics_data("a"), MetricsData { cpu_bits: cpu, memory: 1_000_000, disk: 42 });
    assert_eq!(f32::from_bits(manager.get_metrics_data("a").cpu_bits), 12.5);
    assert_eq!(manager.get_last_metrics("a"), Some(message.clone()));
    assert_eq!(sub.try_recv(), Ok(message));
}

#[test]
fn sample_without_disk_keeps_the_disk_usage() {
    let mut manager = ProcessManager::new();
    started(&mut manager, "a", 1);
    manager.record_sample("a", 0, 1, 10, Some(500), "{}");
    manager.record_sample("a", 0, 2, 20, None, "{}");
    assert_eq!(manager.get_metrics_data("a"), MetricsData { cpu_bits: 2, memory: 20, disk: 500 });
}

#[test]
fn virtual_and_unknown_records_take_no_samples() {
    let mut manager = ProcessManager::new();
    manager.register_installing("a", "/srv", 0).unwrap();
    let mut sub = manager.subscribe_logs("a");
    assert_eq!(manager.record_sample("a", 0, 1, 2, Some(3), "{}"), "[METRICS]: {}");
    assert_eq!(manager.get_metrics_data("a"), zeros());
    assert_eq!(manager.get_last_metrics("a"), None);
    assert_eq!(sub.try_recv(), Err(TryRecvError::Empty));
    manager.record_sample("b", 0, 1, 2, Some(3), "{}");
    assert_eq!(manager.get_metrics_data("b"), zeros());
}

#[test]
fn only_records_with_a_process_are_sampled() {
    let mut manager = ProcessManager::new();
    started(&mut manager, "a", 10);
    manager.register_installing("b", "/srv/b", 0).unwrap();
    manager.start("c", "/srv/c", Ok(30), 0).unwrap();
    let mut targets = manager.sample_targets();
    targets.sort_by(|x, y| x.id.cmp(&y.id));
    assert_eq!(targets.len(), 2);
    assert_eq!((targets[0].id.as_str(), targets[0].pid, targets[0].working_dir.as_str()), ("a", 10, "/srv"));
    assert_eq!((targets[1].id.as_str(), targets[1].pid, targets[1].working_dir.as_str()), ("c", 30, "/srv/c"));
    assert_eq!((targets[0].run, targets[1].run), (0, 2));
}

#[test]
fn disk_is_measured_every_fifteenth_round() {
    assert_eq!(DISK_SAMPLE_EVERY, 15);
    assert_eq!(SAMPLE_INTERVAL_SECONDS, 2);
    assert!(disk_sample_due(0));
    assert!(!disk_sample_due(1));
    assert!(!disk_sample_due(14));
    assert!(disk_sample_due(15));
    assert!(disk_sample_due(30));
    assert!(!disk_sample_due(u64::MAX - 1));
    assert!(disk_sample_due(u64::MAX));
}

#[test]
fn metrics_message_has_its_tag() {
    assert_eq!(metrics_message("{}"), "[METRICS]: {}");
    assert_eq!(metrics_message(""), "[METRICS]: ");
}

#[test]
fn identifiers_are_told_apart_exactly() {
    let mut manager = ProcessManager::new();
    started(&mut manager, "a", 1);
    started(&mut manager, "A", 2);
    started(&mut manager, "a ", 3);
    started(&mut manager, "", 4);
    assert_eq!(manager.get_server_pid("a"), Some(1));
    assert_eq!(manager.get_server_pid("A"), Some(2));
    assert_eq!(manager.get_server_pid("a "), Some(3));
    assert_eq!(manager.get_server_pid(""), Some(4));
    manager.remove("A");
    assert_eq!(manager.get_server_pid("a"), Some(1));
    assert_eq!(manager.get_server_pid("A"), None);
}

#[test]
fn files_of_a_server() {
    assert_eq!(CREDENTIAL_FILE, "auth.enc");
    assert_eq!(LOG_DIRECTORY, "logs");
    assert_eq!(LOG_FILE, "console.log");
}

#[test]
fn default_table_is_empty() {
    let mut manager = ProcessManager::default();
    assert_eq!(manager.get_total_online_players(), 0);
    assert!(!manager.is_running("a", Liveness::Running));
    assert_eq!(run_of(manager.start("a", "/srv", Ok(1), 0)), Ok(0));
}

#[test]
fn restart_of_a_running_server_stops_it_first() {
    let mut manager = ProcessManager::new();
    started(&mut manager, "a", 3);
    let step = manager.restart("a", Liveness::Running);
    assert_eq!(step, Ok(StopStep::Shutdown { pid: 3, run: 0, command: "/shutdown".to_string(), grace_secs: 5 }));
    assert_eq!(manager.get_server_pid("a"), Some(3));
    assert_eq!(manager.stop_after_grace("a", 0, Liveness::Exited), Ok(StopStep::Done));
    assert_eq!(run_of(manager.start("a", "/srv", Ok(4), 0)), Ok(1));
}

#[test]
fn restart_of_nothing_goes_straight_to_the_start() {
    let mut manager = ProcessManager::new();
    assert_eq!(manager.restart("a", Liveness::Running), Ok(StopStep::Done));
    assert_eq!(run_of(manager.start("a", "/srv", Ok(4), 0)), Ok(0));
}

#[test]
fn restart_of_an_exited_server_cleans_up() {
    let mut manager = ProcessManager::new();
    started(&mut manager, "a", 3);
    assert_eq!(manager.restart("a", Liveness::Exited), Ok(StopStep::Done));
    assert_eq!(manager.get_server_pid("a"), None);
    assert_eq!(run_of(manager.start("a", "/srv", Ok(4), 0)), Ok(1));
}

#[test]
fn restart_of_an_installation_removes_it() {
    let mut manager = ProcessManager::new();
    manager.register_installing("a", "/srv", 0).unwrap();
    assert_eq!(manager.restart("a", Liveness::Exited), Ok(StopStep::Done));
    assert!(!manager.is_installing("a"));
}

#[test]
fn restart_with_unknown_liveness_leaves_the_record() {
    let mut manager = ProcessManager::new();
    started(&mut manager, "a", 3);
    assert_eq!(manager.restart("a", Liveness::Unknown("?".to_string())), Ok(StopStep::Done));
    assert_eq!(run_of(manager.start("a", "/srv", Ok(4), 0)), Err(ProcessError::AlreadyActive));
}

#[test]
fn sample_of_a_former_process_does_not_reach_its_successor() {
    let mut manager = ProcessManager::new();
    let old = started(&mut manager, "a", 1);
    let targets = manager.sample_targets();
    assert_eq!(targets[0].run, old.run);
    manager.remove("a");
    let new = started(&mut manager, "a", 2);
    let mut sub = manager.subscribe_logs("a");
    manager.record_sample("a", targets[0].run, 7, 8, Some(9), "{}");
    assert_eq!(manager.get_metrics_data("a"), zeros());
    assert_eq!(manager.get_last_metrics("a"), None);
    assert_eq!(sub.try_recv(), Err(TryRecvError::Empty));
    manager.record_sample("a", new.run, 7, 8, Some(9), "{}");
    assert_eq!(manager.get_metrics_data("a"), MetricsData { cpu_bits: 7, memory: 8, disk: 9 });
    assert_eq!(sub.try_recv(), Ok("[METRICS]: {}".to_string()));
}

#[test]
fn readers_and_subscribers_share_the_channel_of_their_record() {
    let mut manager = ProcessManager::new();
    let a = started(&mut manager, "a", 1);
    let b = started(&mut manager, "b", 2);
    let mut sub_a = manager.subscribe_logs("a");
    let mut sub_b = manager.subscribe_logs("b");
    assert!(!a.log.same_channel(&b.log));
    a.stream_closed();
    assert_eq!(sub_a.try_recv(), Ok("[STATUS]: stopped".to_string()));
    assert_eq!(sub_b.try_recv(), Err(TryRecvError::Empty));
    manager.set_auth_required("a", true);
    assert!(manager.is_auth_required("a", false));
    assert!(!manager.is_auth_required("a", true));
    manager.record_sample("a", a.run, 1, 2, None, "{}");
    let mut late = manager.subscribe_logs("a");
    a.stream_closed();
    assert_eq!(late.try_recv(), Ok("[STATUS]: stopped".to_string()));
    assert_eq!(sub_a.try_recv(), Ok("[METRICS]: {}".to_string()));
    assert_eq!(sub_a.try_recv(), Ok("[STATUS]: stopped".to_string()));
}
