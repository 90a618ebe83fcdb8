//! One supervised process: its configuration, its lifecycle status and the
//! decisions of its monitoring loop.
//!
//! The loop itself (spawning, reading the child's streams, polling for its
//! exit) runs outside this module; each thing it observes is handed to one of
//! the `on_*` methods, which update the record and say what to do next.

use crate::log_buffer::{keep_recent, LogBuffer};
use vstd::prelude::*;
use vstd::string::StringSliceAdditionalSpecFns;

verus! {

/// A child that exits sooner than this many milliseconds after its last
/// start is not relaunched.
pub const CRASH_LOOP_MS: u128 = 30000;

/// Log line written when a spawn is refused by the OS.
pub const SPAWN_FAILED_NOTICE: &'static str =
    "Permission Denied while spawning child (did you use a privledged user?)";

/// Log line written when a crash loop stops automatic relaunching.
pub const CRASH_LOOP_NOTICE: &'static str =
    "[pm] !!!! exited within 30 seconds of starting, will not restart !!!!\n";

/// Log line written before an automatic relaunch.
pub const RESTART_NOTICE: &'static str = "[pm] autostart was on, restarting process\n";

/// Lifecycle status of a record.
#[derive(Clone, Copy, Debug, PartialEq, Eq, Structural)]
pub enum Status {
    Running,
    Exited(i32),
}

/// What a caller asks to run.
pub struct ProcessConfig {
    pub name: String,
    pub dir: String,
    pub command: String,
    pub user: String,
    pub autostart: bool,
}

/// What the monitoring loop does after the child exited.
#[derive(Clone, Copy, Debug, PartialEq, Eq, Structural)]
pub enum ExitDecision {
    /// Autostart is off: the loop ends.
    Stop,
    /// The child died too soon after its start: the loop ends, and
    /// `CRASH_LOOP_NOTICE` is published.
    CrashLoop,
    /// The child is launched again, after `RESTART_NOTICE` is published.
    Relaunch,
}

/// One supervised unit.
pub struct Process {
    pub id: usize,
    pub name: String,
    pub dir: String,
    pub command: String,
    pub user: String,
    pub status: Status,
    /// Milliseconds since the epoch of the last (re)start.
    pub timestamp: u128,
    /// Live OS process id, 0 when no child is running.
    pub pid: u32,
    pub autostart: bool,
    /// Number of the monitoring run that owns the record; each external
    /// restart starts a new run. Spawns, spawn failures and exits reported
    /// by an older run are ignored.
    pub run: u64,
    pub log: LogBuffer,
}

/// `b` is the same record as `a`: identifier, name, directory, command and
/// user are kept.
pub open spec fn same_identity(a: Process, b: Process) -> bool {
    &&& b.id == a.id
    &&& b.name == a.name
    &&& b.dir == a.dir
    &&& b.command == a.command
    &&& b.user == a.user
}

/// Status recorded for an exit code; a child killed by a signal has none.
pub open spec fn exit_status(code: Option<i32>) -> Status {
    match code {
        Some(c) => Status::Exited(c),
        None => Status::Exited(-1i32),
    }
}

/// Decision after an exit at `now`, for a record last started at `started`.
pub open spec fn decide_exit(autostart: bool, started: u128, now: u128) -> ExitDecision {
    if !autostart {
        ExitDecision::Stop
    } else if now < started || now - started < CRASH_LOOP_MS {
        ExitDecision::CrashLoop
    } else {
        ExitDecision::Relaunch
    }
}

/// The log line that goes with a decision.
pub open spec fn notice_bytes(d: ExitDecision) -> Seq<u8> {
    match d {
        ExitDecision::Stop => Seq::empty(),
        ExitDecision::CrashLoop => CRASH_LOOP_NOTICE.spec_bytes(),
        ExitDecision::Relaunch => RESTART_NOTICE.spec_bytes(),
    }
}

impl ExitDecision {
    /// Whether the monitoring loop launches the child again.
    pub fn relaunches(&self) -> (r: bool)
        ensures
            r == (*self == ExitDecision::Relaunch),
    {
        match self {
            ExitDecision::Relaunch => true,
            _ => false,
        }
    }

    /// The line to publish to live viewers, if any.
    pub fn notice(&self) -> (r: Option<&'static str>)
        ensures
            *self == ExitDecision::Stop ==> r is None,
            *self == ExitDecision::CrashLoop ==> r == Some(CRASH_LOOP_NOTICE),
            *self == ExitDecision::Relaunch ==> r == Some(RESTART_NOTICE),
    {
        match self {
            ExitDecision::Stop => None,
            ExitDecision::CrashLoop => Some(CRASH_LOOP_NOTICE),
            ExitDecision::Relaunch => Some(RESTART_NOTICE),
        }
    }
}

impl Process {
    /// A fresh record, about to be started: status `Running`, no child yet,
    /// an empty log.
    pub fn new(id: usize, config: ProcessConfig, now: u128) -> (r: Process)
        ensures
            r.id == id,
            r.name == config.name,
            r.dir == config.dir,
            r.command == config.command,
            r.user == config.user,
            r.autostart == config.autostart,
            r.status == Status::Running,
            r.timestamp == now,
            r.pid == 0,
            r.run == 0,
            r.log@ == Seq::<u8>::empty(),
    {
        Process {
            id,
            name: config.name,
            dir: config.dir,
            command: config.command,
            user: config.user,
            status: Status::Running,
            timestamp: now,
            pid: 0,
            autostart: config.autostart,
            run: 0,
            log: LogBuffer::new(),
        }
    }

    /// A record read back from a snapshot. Its child no longer exists: no pid
    /// and an empty log. Returns whether its monitoring loop is to be started
    /// (autostart is set); otherwise a `Running` status becomes `Exited(-1)`.
    pub fn restored(
        id: usize,
        config: ProcessConfig,
        status: Status,
        timestamp: u128,
    ) -> (r: (Process, bool))
        ensures
            r.0.id == id,
            r.0.name == config.name,
            r.0.dir == config.dir,
            r.0.command == config.command,
            r.0.user == config.user,
            r.0.autostart == config.autostart,
            r.0.timestamp == timestamp,
            r.0.pid == 0,
            r.0.run == 0,
            r.0.log@ == Seq::<u8>::empty(),
            r.1 == config.autostart,
            r.0.status == (if !config.autostart && status == Status::Running {
                Status::Exited(-1i32)
            } else {
                status
            }),
    {
        let relaunch = config.autostart;
        let status = if !relaunch && status == Status::Running {
            Status::Exited(-1i32)
        } else {
            status
        };
        let p = Process {
            id,
            name: config.name,
            dir: config.dir,
            command: config.command,
            user: config.user,
            status,
            timestamp,
            pid: 0,
            autostart: relaunch,
            run: 0,
            log: LogBuffer::new(),
        };
        (p, relaunch)
    }

    /// The OS refused to create the child of run `run`. For the current
    /// run the record stops with `Exited(-1)` and its log holds only
    /// `SPAWN_FAILED_NOTICE`; an older run's failure changes nothing.
    pub fn on_spawn_failed(&mut self, run: u64)
        ensures
            run != old(self).run ==> *final(self) == *old(self),
            run == old(self).run ==> {
                &&& final(self).status == Status::Exited(-1i32)
                &&& final(self).pid == 0
                &&& final(self).log@ == keep_recent(SPAWN_FAILED_NOTICE.spec_bytes())
                &&& final(self).timestamp == old(self).timestamp
                &&& final(self).autostart == old(self).autostart
                &&& final(self).run == old(self).run
                &&& same_identity(*old(self), *final(self))
            },
    {
        if run != self.run {
            return;
        }
        self.status = Status::Exited(-1i32);
        self.pid = 0;
        self.log.reset_to(SPAWN_FAILED_NOTICE.as_bytes());
    }

    /// The child of run `run` was created with OS id `pid` at time `now`.
    /// Returns whether the record took it; a child of an older run is not
    /// taken, changes nothing, and is to be terminated.
    pub fn on_spawned(&mut self, pid: u32, now: u128, run: u64) -> (taken: bool)
        ensures
            taken == (run == old(self).run),
            !taken ==> *final(self) == *old(self),
            taken ==> {
                &&& final(self).status == Status::Running
                &&& final(self).pid == pid
                &&& final(self).timestamp == now
                &&& final(self).autostart == old(self).autostart
                &&& final(self).log@ == old(self).log@
                &&& final(self).run == old(self).run
                &&& same_identity(*old(self), *final(self))
            },
    {
        if run != self.run {
            return false;
        }
        self.status = Status::Running;
        self.pid = pid;
        self.timestamp = now;
        true
    }

    /// The child wrote `chunk`. It goes to the log; the result says whether
    /// it is also to be published, which is so exactly when someone is
    /// subscribed.
    pub fn on_output(&mut self, chunk: &[u8], subscribers: usize) -> (publish: bool)
        ensures
            publish == (subscribers > 0),
            final(self).log@ == keep_recent(old(self).log@ + chunk@),
            final(self).status == old(self).status,
            final(self).pid == old(self).pid,
            final(self).timestamp == old(self).timestamp,
            final(self).autostart == old(self).autostart,
            final(self).run == old(self).run,
            same_identity(*old(self), *final(self)),
    {
        self.log.append(chunk);
        subscribers > 0
    }

    /// The child of run `run` exited at time `now` with `code`. For the
    /// current run: records the exit, decides whether to relaunch, and logs
    /// the matching notice. An older run's exit changes nothing and stops
    /// that run.
    pub fn on_exit(&mut self, code: Option<i32>, now: u128, run: u64) -> (d: ExitDecision)
        ensures
            run != old(self).run ==> d == ExitDecision::Stop && *final(self) == *old(self),
            run == old(self).run ==> {
                &&& d == decide_exit(old(self).autostart, old(self).timestamp, now)
                &&& final(self).status == exit_status(code)
                &&& final(self).pid == 0
                &&& d == ExitDecision::Stop ==> final(self).log@ == old(self).log@
                &&& d != ExitDecision::Stop ==> final(self).log@ == keep_recent(
                    old(self).log@ + notice_bytes(d),
                )
                &&& final(self).timestamp == old(self).timestamp
                &&& final(self).autostart == old(self).autostart
                &&& final(self).run == old(self).run
                &&& same_identity(*old(self), *final(self))
            },
    {
        if run != self.run {
            return ExitDecision::Stop;
        }
        self.status = match code {
            Some(c) => Status::Exited(c),
            None => Status::Exited(-1i32),
        };
        self.pid = 0;
        let d = if !self.autostart {
            ExitDecision::Stop
        } else if now < self.timestamp || now - self.timestamp < CRASH_LOOP_MS {
            ExitDecision::CrashLoop
        } else {
            ExitDecision::Relaunch
        };
        match d {
            ExitDecision::Stop => {},
            ExitDecision::CrashLoop => self.log.append(CRASH_LOOP_NOTICE.as_bytes()),
            ExitDecision::Relaunch => self.log.append(RESTART_NOTICE.as_bytes()),
        }
        d
    }

    /// An external kill: autostart is cleared so the coming exit is final.
    /// Returns the OS id to terminate, if a child is running.
    pub fn kill_request(&mut self) -> (target: Option<u32>)
        ensures
            !final(self).autostart,
            target == (if old(self).pid == 0 { None } else { Some(old(self).pid) }),
            final(self).status == old(self).status,
            final(self).pid == old(self).pid,
            final(self).timestamp == old(self).timestamp,
            final(self).log@ == old(self).log@,
            final(self).run == old(self).run,
            same_identity(*old(self), *final(self)),
    {
        self.autostart = false;
        if self.pid == 0 {
            None
        } else {
            Some(self.pid)
        }
    }

    /// An external restart: the record reads `Running` again and belongs to
    /// a new run, whose monitoring loop is to be started. Returns the new
    /// run and the OS id of the child to terminate first, if one is running;
    /// the exit of that child then no longer counts.
    pub fn restart_request(&mut self) -> (r: (u64, Option<u32>))
        requires
            old(self).run < u64::MAX,
        ensures
            final(self).status == Status::Running,
            final(self).run == old(self).run + 1,
            r.0 == final(self).run,
            r.1 == (if old(self).pid == 0 { None } else { Some(old(self).pid) }),
            final(self).pid == 0,
            final(self).timestamp == old(self).timestamp,
            final(self).autostart == old(self).autostart,
            final(self).log@ == old(self).log@,
            same_identity(*old(self), *final(self)),
    {
        let stale = if self.pid == 0 {
            None
        } else {
            Some(self.pid)
        };
        self.status = Status::Running;
        self.pid = 0;
        self.run = self.run + 1;
        (self.run, stale)
    }

    /// The retained output, oldest byte first.
    pub fn log_snapshot(&self) -> (r: Vec<u8>)
        ensures
            r@ == self.log@,
    {
        self.log.snapshot()
    }
}

/// With autostart off, an exit is final: the loop stops and nothing is
/// launched again, whenever the child exits.
pub proof fn lemma_no_autostart_is_final(started: u128, now: u128)
    ensures
        decide_exit(false, started, now) == ExitDecision::Stop,
        notice_bytes(decide_exit(false, started, now)) == Seq::<u8>::empty(),
{
}

/// With autostart on, a child that ran at least `CRASH_LOOP_MS` is launched
/// again, one restart notice is logged, and the next start time lies at
/// least `CRASH_LOOP_MS` after the previous one.
pub proof fn lemma_late_exit_relaunches(started: u128, now: u128, restarted: u128)
    requires
        started <= now,
        now - started >= CRASH_LOOP_MS,
        now <= restarted,
    ensures
        decide_exit(true, started, now) == ExitDecision::Relaunch,
        notice_bytes(decide_exit(true, started, now)) == RESTART_NOTICE.spec_bytes(),
        restarted - started >= CRASH_LOOP_MS,
{
}

/// With autostart on, a child that exits sooner than `CRASH_LOOP_MS` after
/// its start is not launched again: the loop stops after logging the
/// crash-loop warning.
pub proof fn lemma_early_exit_stops(started: u128, now: u128)
    requires
        now < started || now - started < CRASH_LOOP_MS,
    ensures
        decide_exit(true, started, now) == ExitDecision::CrashLoop,
        notice_bytes(decide_exit(true, started, now)) == CRASH_LOOP_NOTICE.spec_bytes(),
{
}

} // verus!
