//! The supervisor state machine: the single source of truth for "is a
//! backend owned by this process running, on what port, with what token",
//! serializing start, stop and status requests.
//!
//! The embedding application owns the OS handle, the lock and the HTTP
//! client; it holds the lock briefly, feeds each observation (a non-blocking
//! exit check, a probe verdict, a spawn outcome) into exactly one of the
//! transition methods below, and performs the action the result calls for.
//! Every transition states how the new record relates to the old one, so the
//! request-level laws at the end of this module compose them.

use vstd::prelude::*;
use crate::discovery::{
    spec_adoptable, spec_reported_port, spec_discovery_plan, DiscoveryPlan, InfoFields,
};

verus! {

/// The status record every exposed operation reports.
#[derive(Clone, Debug, PartialEq, Eq)]
pub struct BackendStatus {
    /// Whether a backend is (as far as the supervisor knows) running.
    pub running: bool,
    /// The port it listens on; 0 when none is known.
    pub port: u16,
    /// The owned child's OS process id; `None` for an adopted instance.
    pub pid: Option<u32>,
    /// The boot token it was launched with, when known.
    pub boot_token: Option<String>,
}

/// Result of the non-blocking exit check on the owned child process.
#[derive(Clone, Copy, Debug, PartialEq, Eq, Structural)]
pub enum ProcessCheck {
    /// The child has no exit status yet: it is still running.
    StillRunning,
    /// An exit status is available: the child is gone.
    Exited,
    /// The check itself failed; the handle is treated as stale.
    CheckFailed,
}

/// The errors that surface to a caller. Discovery and log-parsing faults
/// never do: they degrade to "not found" instead.
#[derive(Clone, Copy, Debug, PartialEq, Eq, Structural)]
pub enum SupervisorError {
    /// No runnable backend could be resolved; fatal to that start call.
    Resolution,
    /// The OS refused to create the process; fatal, state reset.
    Spawn,
    /// The spawned process never confirmed healthy and no listening port
    /// could be recovered; the process is kept, not killed.
    ReadinessTimeout,
    /// The terminate signal could not be delivered on stop.
    StopFailed,
    /// The non-blocking exit check failed during a status query.
    StatusCheckFailed,
}

/// What a stop request must do after taking the owned handle.
#[derive(Clone, Copy, Debug, PartialEq, Eq, Structural)]
pub enum StopAction {
    /// Terminate this child and block until the OS confirms its exit.
    Kill(u32),
    /// Nothing is owned; report a successful `false`, not an error.
    NoOp,
}

pub open spec fn spec_error_message(e: SupervisorError) -> Seq<char> {
    match e {
        SupervisorError::Resolution => "no runnable backend was found; check the bundled resources"@,
        SupervisorError::Spawn => "the operating system refused to start the backend process"@,
        SupervisorError::ReadinessTimeout => "the backend did not report ready in time; the process was kept, consult the backend log file"@,
        SupervisorError::StopFailed => "the backend process could not be terminated"@,
        SupervisorError::StatusCheckFailed => "the state of the backend process could not be checked"@,
    }
}

impl SupervisorError {
    /// A descriptive line for the caller, pointing at the log file where
    /// that is the place to look.
    pub fn message(&self) -> (m: &'static str)
        ensures
            m@ == spec_error_message(*self),
    {
        match self {
            SupervisorError::Resolution => "no runnable backend was found; check the bundled resources",
            SupervisorError::Spawn => "the operating system refused to start the backend process",
            SupervisorError::ReadinessTimeout => "the backend did not report ready in time; the process was kept, consult the backend log file",
            SupervisorError::StopFailed => "the backend process could not be terminated",
            SupervisorError::StatusCheckFailed => "the state of the backend process could not be checked",
        }
    }
}

/// The status reported when no backend is known: not running, port zero.
pub open spec fn spec_idle_status() -> BackendStatus {
    BackendStatus { running: false, port: 0, pid: None, boot_token: None }
}

/// The supervisor's owned-process record. At most one process handle is
/// owned at a time; `port` is meaningful only while a process is owned or
/// discovery has populated it.
pub struct Supervisor {
    /// OS process id of the owned child, if one was spawned and not yet
    /// stopped or seen to exit. The handle itself stays with the caller.
    pub owned_pid: Option<u32>,
    /// The port the backend was launched with, adopted from discovery, or
    /// recovered from its log; 0 when none is known.
    pub port: u16,
    /// The boot token generated for the owned child, or the one a discovered
    /// instance reported.
    pub boot_token: Option<String>,
    /// The start-in-progress guard: set while one start request is between
    /// its launch decision and its spawn record, so concurrent start
    /// requests collapse into that one launch.
    pub starting: bool,
}

fn clone_token(t: &Option<String>) -> (r: Option<String>)
    ensures
        r == *t,
{
    match t {
        Some(s) => Some(s.clone()),
        None => None,
    }
}

impl Supervisor {
    /// The record every application instance begins and ends with.
    pub open spec fn spec_idle() -> Supervisor {
        Supervisor { owned_pid: None, port: 0, boot_token: None, starting: false }
    }

    /// A fresh supervisor: nothing owned, nothing known.
    pub fn new() -> (s: Supervisor)
        ensures
            s == Supervisor::spec_idle(),
    {
        Supervisor { owned_pid: None, port: 0, boot_token: None, starting: false }
    }

    /// The record reported for a backend believed to be running.
    pub open spec fn spec_running_status(self, pid: Option<u32>) -> BackendStatus {
        BackendStatus { running: true, port: self.port, pid, boot_token: self.boot_token }
    }

    /// First step of a start request, under the short-held lock: feed the
    /// non-blocking exit check of the owned child, if any.
    pub open spec fn spec_precheck(self, observed: ProcessCheck) -> (Supervisor, Option<
        BackendStatus,
    >) {
        match self.owned_pid {
            None => (self, None),
            Some(pid) => match observed {
                ProcessCheck::StillRunning => (self, Some(self.spec_running_status(Some(pid)))),
                ProcessCheck::Exited => ((Supervisor { owned_pid: None, ..self }), None),
                ProcessCheck::CheckFailed => ((Supervisor { owned_pid: None, ..self }), None),
            },
        }
    }

    /// Start is idempotent against a healthy owned process: when the exit
    /// check confirms the child alive, its current status is returned
    /// immediately and nothing further is launched. A child seen to have
    /// exited (or whose check failed) is cleared as stale, and the start
    /// request goes on. `observed` is ignored when nothing is owned.
    pub fn start_precheck(&mut self, observed: ProcessCheck) -> (r: Option<BackendStatus>)
        ensures
            (*(final(self)), r) == old(self).spec_precheck(observed),
    {
        match self.owned_pid {
            None => None,
            Some(pid) => match observed {
                ProcessCheck::StillRunning => Some(
                    BackendStatus {
                        running: true,
                        port: self.port,
                        pid: Some(pid),
                        boot_token: clone_token(&self.boot_token),
                    },
                ),
                ProcessCheck::Exited => {
                    self.owned_pid = None;
                    None
                },
                ProcessCheck::CheckFailed => {
                    self.owned_pid = None;
                    None
                },
            },
        }
    }

    /// Adopt a discovered compatible instance (or one re-discovered after a
    /// readiness timeout): record its port and token; nothing is spawned.
    pub open spec fn spec_adopt(self, port: u16, token: Option<String>) -> Supervisor {
        Supervisor { port, boot_token: token, ..self }
    }

    /// Record a discovered instance's port and token as current.
    pub fn adopt_discovered(&mut self, port: u16, token: Option<String>)
        ensures
            *(final(self)) == old(self).spec_adopt(port, token),
    {
        self.port = port;
        self.boot_token = token;
    }

    /// The atomic test-and-set of the start-in-progress guard.
    pub open spec fn spec_begin_start(self) -> (Supervisor, bool) {
        ((Supervisor { starting: true, ..self }), self.starting)
    }

    /// Claim the launch. When `already` comes back true, another start
    /// request is mid-launch: the caller must not spawn, and reports
    /// `collapse_status` instead.
    pub fn begin_start(&mut self) -> (already: bool)
        ensures
            (*(final(self)), already) == old(self).spec_begin_start(),
    {
        let already = self.starting;
        self.starting = true;
        already
    }

    /// What a collapsed concurrent start reports: the in-flight launch's
    /// port when it is already recorded (possibly still zero), with no pid.
    pub open spec fn spec_collapse_status(self) -> BackendStatus {
        BackendStatus {
            running: self.port != 0,
            port: self.port,
            pid: None,
            boot_token: self.boot_token,
        }
    }

    /// The status a start request reports after observing the guard taken.
    pub fn collapse_status(&self) -> (st: BackendStatus)
        ensures
            st == self.spec_collapse_status(),
    {
        BackendStatus {
            running: self.port != 0,
            port: self.port,
            pid: None,
            boot_token: clone_token(&self.boot_token),
        }
    }

    /// Publish the chosen port and fresh boot token before spawning, so a
    /// collapsed concurrent caller can report them.
    pub open spec fn spec_record_launch(self, port: u16, token: String) -> Supervisor {
        Supervisor { port, boot_token: Some(token), ..self }
    }

    /// Record the launch parameters of the spawn about to happen.
    pub fn record_launch(&mut self, port: u16, token: String)
        ensures
            *(final(self)) == old(self).spec_record_launch(port, token),
    {
        self.port = port;
        self.boot_token = Some(token);
    }

    /// Take ownership of the spawned child and release the start guard.
    pub open spec fn spec_record_spawn(self, pid: u32) -> Supervisor {
        Supervisor { owned_pid: Some(pid), starting: false, ..self }
    }

    /// Record the spawned child's pid; the start guard is released.
    pub fn record_spawn(&mut self, pid: u32)
        ensures
            *(final(self)) == old(self).spec_record_spawn(pid),
    {
        self.owned_pid = Some(pid);
        self.starting = false;
    }

    /// Spawn failure is fatal for that start call and never retried: the
    /// published launch parameters are cleared and the guard released.
    pub open spec fn spec_spawn_failed(self) -> Supervisor {
        Supervisor { port: 0, boot_token: None, starting: false, ..self }
    }

    /// Reset after the OS refused to create the process.
    pub fn spawn_failed(&mut self)
        ensures
            *(final(self)) == old(self).spec_spawn_failed(),
    {
        self.port = 0;
        self.boot_token = None;
        self.starting = false;
    }

    /// The success report of a start request: the current port and token,
    /// with the child's pid when one was spawned.
    pub fn running_status(&self, pid: Option<u32>) -> (st: BackendStatus)
        ensures
            st == self.spec_running_status(pid),
    {
        BackendStatus {
            running: true,
            port: self.port,
            pid,
            boot_token: clone_token(&self.boot_token),
        }
    }

    /// After a readiness timeout, the listening port recovered from the
    /// captured log replaces the requested one; the spawned process is kept.
    pub open spec fn spec_recover_port(self, found: u16) -> Supervisor {
        Supervisor { port: found, ..self }
    }

    /// Adopt the port the log banner showed the backend actually bound.
    pub fn recover_port(&mut self, found: u16)
        ensures
            *(final(self)) == old(self).spec_recover_port(found),
    {
        self.port = found;
    }

    /// A stop request atomically takes the owned handle, so a concurrent
    /// stop cannot double-kill.
    pub open spec fn spec_stop_begin(self) -> (Supervisor, StopAction) {
        (
            (Supervisor { owned_pid: None, ..self }),
            match self.owned_pid {
                Some(pid) => StopAction::Kill(pid),
                None => StopAction::NoOp,
            },
        )
    }

    /// Take the owned handle. On `Kill`, the caller terminates the child,
    /// waits for the OS to confirm its exit, and feeds the outcome to
    /// `stop_finish`; on `NoOp` it reports a successful `false` (stopping
    /// nothing is not an error).
    pub fn stop_begin(&mut self) -> (a: StopAction)
        ensures
            (*(final(self)), a) == old(self).spec_stop_begin(),
    {
        match self.owned_pid {
            Some(pid) => {
                self.owned_pid = None;
                StopAction::Kill(pid)
            },
            None => StopAction::NoOp,
        }
    }

    /// Outcome of the terminate-and-wait on the taken handle.
    pub open spec fn spec_stop_finish(self, kill_ok: bool) -> (Supervisor, Result<
        bool,
        SupervisorError,
    >) {
        if kill_ok {
            ((Supervisor { port: 0, boot_token: None, ..self }), Ok(true))
        } else {
            (self, Err(SupervisorError::StopFailed))
        }
    }

    /// Clear the port and token once the child is confirmed gone; a failed
    /// terminate surfaces as `StopFailed` and clears nothing further.
    pub fn stop_finish(&mut self, kill_ok: bool) -> (r: Result<bool, SupervisorError>)
        ensures
            (*(final(self)), r) == old(self).spec_stop_finish(kill_ok),
    {
        if kill_ok {
            self.port = 0;
            self.boot_token = None;
            Ok(true)
        } else {
            Err(SupervisorError::StopFailed)
        }
    }

    /// A status query that finds no owned handle reports the idle record,
    /// whatever ports an adopted instance may have left behind.
    pub fn status_no_process(&self) -> (st: BackendStatus)
        ensures
            st == spec_idle_status(),
    {
        BackendStatus { running: false, port: 0, pid: None, boot_token: None }
    }

    /// A status query with an owned handle, fed the non-blocking exit check.
    pub open spec fn spec_status_step(self, observed: ProcessCheck) -> (Supervisor, Result<
        BackendStatus,
        SupervisorError,
    >) {
        match observed {
            ProcessCheck::StillRunning => (self, Ok(self.spec_running_status(self.owned_pid))),
            ProcessCheck::Exited => ((Supervisor { owned_pid: None, ..self }), Ok(
                spec_idle_status(),
            )),
            ProcessCheck::CheckFailed => (self, Err(SupervisorError::StatusCheckFailed)),
        }
    }

    /// Non-blocking status of the owned child: an available exit status
    /// means no longer running and clears the stale handle.
    pub fn status_step(&mut self, observed: ProcessCheck) -> (r: Result<
        BackendStatus,
        SupervisorError,
    >)
        requires
            old(self).owned_pid is Some,
        ensures
            (*(final(self)), r) == old(self).spec_status_step(observed),
    {
        match observed {
            ProcessCheck::StillRunning => {
                let pid = self.owned_pid;
                Ok(
                    BackendStatus {
                        running: true,
                        port: self.port,
                        pid,
                        boot_token: clone_token(&self.boot_token),
                    },
                )
            },
            ProcessCheck::Exited => {
                self.owned_pid = None;
                Ok(BackendStatus { running: false, port: 0, pid: None, boot_token: None })
            },
            ProcessCheck::CheckFailed => Err(SupervisorError::StatusCheckFailed),
        }
    }
}

impl Default for Supervisor {
    /// Application start: all fields empty and zero.
    fn default() -> (s: Supervisor)
        ensures
            s == Supervisor::spec_idle(),
    {
        Supervisor::new()
    }
}

/// Idempotent start: two successive start requests that both find the owned
/// child healthy return the same port, pid and token, and leave the record
/// unchanged — the precheck answers before any launch step, so no second
/// process is spawned.
pub proof fn lemma_idempotent_start(s: Supervisor)
    requires
        s.owned_pid is Some,
    ensures
        ({
            let (s1, r1) = s.spec_precheck(ProcessCheck::StillRunning);
            let (s2, r2) = s1.spec_precheck(ProcessCheck::StillRunning);
            &&& s1 == s
            &&& s2 == s
            &&& r1 is Some
            &&& r1 == r2
            &&& r1->Some_0.port == s.port
            &&& r1->Some_0.pid == s.owned_pid
        }),
{
}

/// Start/stop round trip: after a launch (guard claimed, port and token
/// recorded, child spawned) followed by a stop whose terminate succeeded,
/// the handle is gone and a status query reports running=false, port=0,
/// pid=None.
pub proof fn lemma_start_stop_status_round_trip(
    s0: Supervisor,
    port: u16,
    token: String,
    pid: u32,
)
    ensures
        ({
            let s1 = s0.spec_begin_start().0.spec_record_launch(port, token).spec_record_spawn(pid);
            let (s2, action) = s1.spec_stop_begin();
            let (s3, stop_result) = s2.spec_stop_finish(true);
            &&& action == StopAction::Kill(pid)
            &&& stop_result == Ok::<bool, SupervisorError>(true)
            &&& s3.owned_pid is None
            &&& s3.port == 0
            &&& s3.boot_token is None
            &&& spec_idle_status().running == false
            &&& spec_idle_status().port == 0
            &&& spec_idle_status().pid is None
        }),
{
}

/// Discovery precedence: a start request in development mode with no forced
/// port scans for an existing backend before resolving any command, and a
/// compatible instance answering on port 8005 is adopted as found: the
/// request reports port 8005 with no pid, and the owned-process record stays
/// empty — nothing is spawned.
pub proof fn lemma_discovery_precedence(s0: Supervisor, f: InfoFields, tok: Option<String>)
    requires
        s0.owned_pid is None,
        spec_adoptable(f, false),
        spec_reported_port(f, 8005) == 8005,
    ensures
        spec_discovery_plan(true, None) == (DiscoveryPlan::Exhaustive { require_token: false }),
        ({
            let s1 = s0.spec_adopt(8005, tok);
            let report = s1.spec_running_status(None);
            &&& s1.owned_pid is None
            &&& report.running
            &&& report.port == 8005
            &&& report.pid is None
        }),
{
}

/// A full launch in one picture: from a record owning nothing, claim the
/// guard, publish the chosen port and fresh token, record the spawned child.
/// The success report then carries exactly that port, token and pid, and the
/// final record owns the child with the guard released.
pub proof fn lemma_launch_path(s0: Supervisor, port: u16, token: String, pid: u32)
    requires
        s0.owned_pid is None,
    ensures
        ({
            let s1 = s0.spec_begin_start().0.spec_record_launch(port, token).spec_record_spawn(
                pid,
            );
            let report = s1.spec_running_status(Some(pid));
            &&& s1.owned_pid == Some(pid)
            &&& !s1.starting
            &&& report.running
            &&& report.port == port
            &&& report.pid == Some(pid)
            &&& report.boot_token == Some(token)
        }),
{
}

/// Concurrent start collapse: once one start request has claimed the guard
/// and published its chosen port, a second request's test-and-set reports
/// the guard taken and changes nothing, so the second caller spawns nothing
/// and reports the published port — the same port the first caller's own
/// success report carries.
pub proof fn lemma_concurrent_start_collapse(s0: Supervisor, port: u16, token: String, pid: u32)
    requires
        !s0.starting,
        port != 0,
    ensures
        ({
            let (sa, first_already) = s0.spec_begin_start();
            let sb = sa.spec_record_launch(port, token);
            let (sc, second_already) = sb.spec_begin_start();
            let second_report = sc.spec_collapse_status();
            let first_report = sc.spec_record_spawn(pid).spec_running_status(Some(pid));
            &&& !first_already
            &&& second_already
            &&& sc == sb
            &&& second_report.running
            &&& second_report.port == port
            &&& second_report.pid is None
            &&& first_report.port == port
            &&& second_report.port == first_report.port
        }),
{
}

} // verus!
