use procman::process::{
    ExitDecision, Process, ProcessConfig, Status, CRASH_LOOP_NOTICE, RESTART_NOTICE,
    SPAWN_FAILED_NOTICE,
};

fn config(command: &str, autostart: bool) -> ProcessConfig {
    ProcessConfig {
        name: "job".to_string(),
        dir: "/tmp".to_string(),
        command: command.to_string(),
        user: "validuser".to_string(),
        autostart,
    }
}

#[test]
fn new_record_is_running_without_child() {
    let p = Process::new(7, config("sleep 1", true), 1234);
    assert_eq!(p.id, 7);
    assert_eq!(p.command, "sleep 1");
    assert_eq!(p.status, Status::Running);
    assert_eq!(p.timestamp, 1234);
    assert_eq!(p.pid, 0);
    assert!(p.autostart);
    assert!(p.log_snapshot().is_empty());
}

#[test]
fn spawn_records_pid_and_time() {
    let mut p = Process::new(1, config("true", false), 10);
    assert!(p.on_spawned(4242, 99, 0));
    assert_eq!(p.pid, 4242);
    assert_eq!(p.timestamp, 99);
    assert_eq!(p.status, Status::Running);
}

#[test]
fn spawn_failure_stops_with_notice() {
    let mut p = Process::new(1, config("true", true), 10);
    p.log.append(b"earlier");
    p.on_spawn_failed(0);
    assert_eq!(p.status, Status::Exited(-1));
    assert_eq!(p.log_snapshot(), SPAWN_FAILED_NOTICE.as_bytes().to_vec());
}

#[test]
fn output_is_published_only_when_watched() {
    let mut p = Process::new(1, config("yes", false), 0);
    assert!(!p.on_output(b"a", 0));
    assert!(p.on_output(b"b", 2));
    assert_eq!(p.log_snapshot(), b"ab".to_vec());
}

#[test]
fn exit_without_autostart_is_final() {
    let mut p = Process::new(1, config("false", false), 0);
    assert!(p.on_spawned(50, 0, 0));
    p.on_output(b"x", 0);
    let d = p.on_exit(Some(1), 100_000, 0);
    assert_eq!(d, ExitDecision::Stop);
    assert!(!d.relaunches());
    assert_eq!(d.notice(), None);
    assert_eq!(p.status, Status::Exited(1));
    assert_eq!(p.pid, 0);
    assert_eq!(p.log_snapshot(), b"x".to_vec());
}

#[test]
fn late_exit_with_autostart_relaunches() {
    let mut p = Process::new(1, config("server", true), 0);
    assert!(p.on_spawned(50, 1_000, 0));
    let d = p.on_exit(Some(0), 31_000, 0);
    assert_eq!(d, ExitDecision::Relaunch);
    assert!(d.relaunches());
    assert_eq!(d.notice(), Some(RESTART_NOTICE));
    assert_eq!(p.log_snapshot(), RESTART_NOTICE.as_bytes().to_vec());
    assert!(p.on_spawned(51, 31_005, 0));
    assert!(p.timestamp - 1_000 >= 30_000);
    assert_eq!(p.status, Status::Running);
}

#[test]
fn early_exit_with_autostart_is_a_crash_loop() {
    let mut p = Process::new(1, config("crash", true), 0);
    assert!(p.on_spawned(50, 1_000, 0));
    let d = p.on_exit(Some(2), 30_999, 0);
    assert_eq!(d, ExitDecision::CrashLoop);
    assert!(!d.relaunches());
    assert_eq!(d.notice(), Some(CRASH_LOOP_NOTICE));
    assert_eq!(p.status, Status::Exited(2));
    assert_eq!(p.log_snapshot(), CRASH_LOOP_NOTICE.as_bytes().to_vec());
}

#[test]
fn exit_before_start_time_counts_as_crash_loop() {
    let mut p = Process::new(1, config("crash", true), 0);
    assert!(p.on_spawned(50, 5_000, 0));
    assert_eq!(p.on_exit(Some(0), 4_000, 0), ExitDecision::CrashLoop);
}

#[test]
fn exit_without_code_reads_minus_one() {
    let mut p = Process::new(1, config("sleep 100", false), 0);
    assert!(p.on_spawned(50, 0, 0));
    p.on_exit(None, 10, 0);
    assert_eq!(p.status, Status::Exited(-1));
}

#[test]
fn kill_clears_autostart_and_targets_child() {
    let mut p = Process::new(1, config("sleep 100", true), 0);
    assert_eq!(p.kill_request(), None);
    assert!(!p.autostart);
    assert!(p.on_spawned(77, 0, 0));
    assert_eq!(p.kill_request(), Some(77));
    assert_eq!(p.on_exit(None, 100_000, 0), ExitDecision::Stop);
}

#[test]
fn restored_record_without_autostart_is_marked_exited() {
    let (p, start) = Process::restored(3, config("x", false), Status::Running, 500);
    assert!(!start);
    assert_eq!(p.status, Status::Exited(-1));
    assert_eq!(p.timestamp, 500);
    assert_eq!(p.pid, 0);
    let (q, start) = Process::restored(4, config("x", false), Status::Exited(3), 500);
    assert!(!start);
    assert_eq!(q.status, Status::Exited(3));
}

#[test]
fn restored_record_with_autostart_is_started() {
    let (p, start) = Process::restored(3, config("x", true), Status::Running, 500);
    assert!(start);
    assert_eq!(p.status, Status::Running);
}

#[test]
fn echo_hi_exits_zero_with_output() {
    let mut reg: procman::registry::Registry<Process> = procman::registry::Registry::new();
    let id = reg.issue_for_user(Some(1000)).unwrap();
    let mut p = Process::new(id, config("echo hi", false), 0);
    assert!(p.on_spawned(900, 0, 0));
    p.on_output(b"hi\n", 0);
    assert_eq!(p.on_exit(Some(0), 20, 0), ExitDecision::Stop);
    reg.insert(id, p);
    let p = reg.get(id).unwrap();
    assert_eq!(p.status, Status::Exited(0));
    let log = p.log_snapshot();
    assert!(log.windows(3).any(|w| w == b"hi\n"));
}

#[test]
fn restarting_a_crashing_command_twice_hits_the_guard() {
    let mut p = Process::new(1, config("exit 1", true), 0);
    assert!(p.on_spawned(10, 0, 0));
    let (run, stale) = p.restart_request();
    assert_eq!(run, 1);
    assert_eq!(stale, Some(10));
    assert_eq!(p.on_exit(Some(137), 100, 0), ExitDecision::Stop);
    assert_eq!(p.status, Status::Running);
    assert!(p.on_spawned(11, 100, run));
    let first = p.on_exit(Some(1), 5_000, run);
    assert_eq!(first, ExitDecision::CrashLoop);
    let (run, stale) = p.restart_request();
    assert_eq!(run, 2);
    assert_eq!(stale, None);
    assert_eq!(p.status, Status::Running);
    assert!(p.on_spawned(12, 5_000, run));
    let second = p.on_exit(Some(1), 10_000, run);
    assert_eq!(second, ExitDecision::CrashLoop);
    assert!(!second.relaunches());
    assert_eq!(p.status, Status::Exited(1));
    assert_eq!(p.log_snapshot(), [CRASH_LOOP_NOTICE, CRASH_LOOP_NOTICE].concat().into_bytes());
}

#[test]
fn exit_of_an_older_run_changes_nothing() {
    let mut p = Process::new(1, config("sleep 100", true), 0);
    assert!(p.on_spawned(10, 0, 0));
    let (run, _) = p.restart_request();
    assert!(p.on_spawned(11, 50, run));
    assert_eq!(p.on_exit(Some(0), 100_000, run - 1), ExitDecision::Stop);
    assert_eq!(p.status, Status::Running);
    assert_eq!(p.pid, 11);
    assert!(p.log_snapshot().is_empty());
}

#[test]
fn spawn_or_failure_of_an_older_run_changes_nothing() {
    let mut p = Process::new(1, config("sleep 100", true), 0);
    assert!(p.on_spawned(10, 0, 0));
    let (run, _) = p.restart_request();
    assert!(!p.on_spawned(20, 40, run - 1));
    assert_eq!(p.pid, 0);
    assert_eq!(p.timestamp, 0);
    p.on_spawn_failed(run - 1);
    assert_eq!(p.status, Status::Running);
    assert!(p.log_snapshot().is_empty());
    assert!(p.on_spawned(21, 50, run));
    assert_eq!(p.pid, 21);
    assert_eq!(p.command, "sleep 100");
    assert_eq!(p.user, "validuser");
}
