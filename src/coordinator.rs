use vstd::prelude::*;

use crate::config::PythonConfig;
use crate::error::BackendError;
use crate::lock::{InstanceLock, LockRole};
use crate::probe::{find_free_port, spec_find_free_port, PORT_SCAN_WINDOW};
use crate::select::lemma_first_true_from;
use crate::reclaim::{lemma_ports_except, ports_except, spec_known_ports, sweep_ports};
use crate::supervisor::{ExitAction, RestartPolicy};

verus! {

/// The backend of this instance, as far as a launch has got.
#[derive(Debug, Clone, Copy, PartialEq, Eq, Structural)]
pub enum Slot {
    /// No backend.
    Empty,
    /// Waiting to learn whether the canonical port is free.
    ProbingCanonical,
    /// The canonical port is taken; waiting to learn whether our own worker holds it.
    ProbingHealth,
    /// Waiting for a scan of the ports above the canonical one.
    Scanning,
    /// `port` is chosen; waiting to learn whether the interpreter runs.
    CheckingExecutable { port: u16 },
    /// Waiting to learn whether the worker package can be imported.
    CheckingDependency { port: u16 },
    /// The worker is being launched on `port`.
    Spawning { port: u16 },
    /// This instance launched the worker `pid`, listening on `port`, and must stop it.
    Owned { pid: u32, port: u16 },
    /// A healthy worker that this instance did not launch serves on `port`; it is never killed
    /// from here.
    Reused { port: u16 },
}

/// What the caller learnt from the work that the last step asked for.
#[derive(Debug, Clone, PartialEq, Eq)]
pub enum Event {
    PortProbed { free: bool },
    HealthProbed { ours: bool },
    /// `free[i]` tells whether port `start + i` of the scan could be bound.
    PortsScanned { free: Vec<bool> },
    ExecutableChecked { found: bool },
    DependencyChecked { found: bool },
    Spawned { pid: u32 },
    SpawnFailed { reason: String },
}

/// What the caller does next to bring the backend up.
#[derive(Debug, Clone, PartialEq, Eq)]
pub enum Step {
    /// The backend serves on `port`; tell the shell.
    Ready { port: u16 },
    /// The launch failed; tell the shell.
    Failed { error: BackendError },
    /// Another caller is bringing the backend up.
    Busy,
    /// Find out whether `port` can be bound on loopback.
    ProbePort { port: u16 },
    /// Ask the health endpoint on `port` whether our own worker answers.
    ProbeHealth { port: u16 },
    /// Probe the ports `start .. start + count` in order.
    ScanPorts { start: u16, count: u16 },
    /// Ask the interpreter for its version.
    CheckExecutable,
    /// Ask the interpreter to import the worker package.
    CheckDependency,
    /// Launch the worker on `port`.
    Spawn { port: u16 },
    /// A worker was launched for a start that has since been cancelled: terminate `pid`.
    Discard { pid: u32 },
    /// The event belongs to no start in progress.
    Ignored,
}

/// What stopping the backend takes.
#[derive(Debug, Clone, PartialEq, Eq)]
pub struct StopPlan {
    /// The worker this instance owns, to be asked to exit and then killed.
    pub terminate: Option<u32>,
    /// Ports swept afterwards for stray workers.
    pub reclaim_ports: Vec<u16>,
    /// Whether the instance lock marker is to be deleted.
    pub remove_lock_marker: bool,
}

/// The state shared by everything that acts on this instance's backend: the session's
/// configuration, the instance lock, the backend slot and the restart count.
#[derive(Debug, Clone)]
pub struct Backend {
    pub config: PythonConfig,
    pub lock: InstanceLock,
    pub slot: Slot,
    pub policy: RestartPolicy,
    /// Port of a service this instance adopted rather than launched; sweeps never touch it.
    pub adopted: Option<u16>,
}

impl Backend {
    /// The port the backend serves on, once it is up.
    pub open spec fn spec_port(self) -> Option<u16> {
        match self.slot {
            Slot::Owned { port, .. } => Some(port),
            Slot::Reused { port } => Some(port),
            _ => None,
        }
    }

    /// This instance launched the worker and is responsible for stopping it.
    pub open spec fn spec_owns_process(self) -> bool {
        self.slot is Owned
    }

    pub open spec fn is_primary(self) -> bool {
        self.lock.role == LockRole::Primary
    }

    /// The scan for a port of this instance's own starts just above the canonical port.
    pub open spec fn scan_fits(self) -> bool {
        self.config.port < u16::MAX
    }

    /// How many ports the scan probes: the window, clipped so that the scan and its fallback
    /// stay within the last port.
    pub open spec fn scan_count(self) -> u16 {
        if u16::MAX - self.config.port - 1 < PORT_SCAN_WINDOW {
            (u16::MAX - self.config.port - 1) as u16
        } else {
            PORT_SCAN_WINDOW
        }
    }

    /// The port a sweep leaves alone: that of an adopted service.
    pub open spec fn spared_port(self) -> Option<u16> {
        match self.slot {
            Slot::Reused { port } => Some(port),
            _ => self.adopted,
        }
    }

    /// The ports a stop sweeps for stray workers.
    pub open spec fn swept_ports(self) -> Seq<u16> {
        ports_except(spec_known_ports(), self.spared_port())
    }

    pub open spec fn scan_start(self) -> u16 {
        (self.config.port + 1) as u16
    }

    /// Starts the scan for a port of this instance's own, or fails where the window would run
    /// past the last port.
    pub open spec fn begin_scan(self) -> (Backend, Step) {
        if self.scan_fits() {
            (
                Backend { slot: Slot::Scanning, ..self },
                Step::ScanPorts { start: self.scan_start(), count: self.scan_count() },
            )
        } else {
            (
                Backend { slot: Slot::Empty, ..self },
                Step::Failed { error: BackendError::PortUnavailable },
            )
        }
    }

    /// A request for the backend. One that is up is returned as it is, and nothing is launched;
    /// one that is coming up is left to its caller. Otherwise a launch begins: the primary
    /// instance looks at the canonical port first, a secondary one scans for a port of its own.
    /// An explicit (`fresh`) request starts a new supervisory session.
    pub open spec fn after_start(self, fresh: bool) -> (Backend, Step) {
        match self.slot {
            Slot::Owned { port, .. } => (self, Step::Ready { port }),
            Slot::Reused { port } => (self, Step::Ready { port }),
            Slot::Empty => {
                let b = if fresh {
                    Backend { policy: RestartPolicy::fresh(), ..self }
                } else {
                    self
                };
                if self.is_primary() {
                    (
                        Backend { slot: Slot::ProbingCanonical, ..b },
                        Step::ProbePort { port: self.config.port },
                    )
                } else {
                    b.begin_scan()
                }
            },
            _ => (self, Step::Busy),
        }
    }

    /// The launch after an event, and its next step.
    pub open spec fn after_event(self, e: Event) -> (Backend, Step) {
        let ignored = (self, Step::Ignored);
        match e {
            Event::PortProbed { free } => if self.slot is ProbingCanonical {
                if free {
                    (
                        Backend {
                            slot: Slot::CheckingExecutable { port: self.config.port },
                            ..self
                        },
                        Step::CheckExecutable,
                    )
                } else {
                    (
                        Backend { slot: Slot::ProbingHealth, ..self },
                        Step::ProbeHealth { port: self.config.port },
                    )
                }
            } else {
                ignored
            },
            Event::HealthProbed { ours } => if self.slot is ProbingHealth {
                if ours {
                    (
                        Backend {
                            slot: Slot::Reused { port: self.config.port },
                            adopted: Some(self.config.port),
                            ..self
                        },
                        Step::Ready { port: self.config.port },
                    )
                } else {
                    self.begin_scan()
                }
            } else {
                ignored
            },
            Event::PortsScanned { free } => if self.slot is Scanning {
                if self.scan_fits() {
                    let port = spec_find_free_port(self.scan_start(), self.scan_count(), free@) as u16;
                    (
                        Backend { slot: Slot::CheckingExecutable { port }, ..self },
                        Step::CheckExecutable,
                    )
                } else {
                    (
                        Backend { slot: Slot::Empty, ..self },
                        Step::Failed { error: BackendError::PortUnavailable },
                    )
                }
            } else {
                ignored
            },
            Event::ExecutableChecked { found } => match self.slot {
                Slot::CheckingExecutable { port } => if found {
                    (
                        Backend { slot: Slot::CheckingDependency { port }, ..self },
                        Step::CheckDependency,
                    )
                } else {
                    (
                        Backend { slot: Slot::Empty, ..self },
                        Step::Failed {
                            error: BackendError::ExecutableNotFound {
                                path: self.config.python_path,
                            },
                        },
                    )
                },
                _ => ignored,
            },
            Event::DependencyChecked { found } => match self.slot {
                Slot::CheckingDependency { port } => if found {
                    (Backend { slot: Slot::Spawning { port }, ..self }, Step::Spawn { port })
                } else {
                    (
                        Backend { slot: Slot::Empty, ..self },
                        Step::Failed { error: BackendError::DependencyMissing },
                    )
                },
                _ => ignored,
            },
            Event::Spawned { pid } => match self.slot {
                Slot::Spawning { port } => (
                    Backend { slot: Slot::Owned { pid, port }, ..self },
                    Step::Ready { port },
                ),
                _ => (self, Step::Discard { pid }),
            },
            Event::SpawnFailed { reason } => match self.slot {
                Slot::Spawning { .. } => (
                    Backend { slot: Slot::Empty, ..self },
                    Step::Failed { error: BackendError::SpawnFailed { reason } },
                ),
                _ => ignored,
            },
        }
    }

    /// The backend after the worker `pid` exited. Only the exit of the worker held in the slot
    /// is unexpected: a stop takes the worker out of the slot before terminating it. Such an
    /// exit empties the slot and goes through the restart policy.
    pub open spec fn after_exit(self, pid: u32) -> (Backend, ExitAction) {
        match self.slot {
            Slot::Owned { pid: held, .. } => if held == pid {
                let (policy, action) = self.policy.after_exit(self.config.auto_restart);
                (Backend { slot: Slot::Empty, policy, ..self }, action)
            } else {
                (self, ExitAction::Ignore)
            },
            _ => (self, ExitAction::Ignore),
        }
    }

    /// The worker that a stop takes out of the slot, to terminate it: only one this instance
    /// launched.
    pub open spec fn taken_by_stop(self) -> Option<u32> {
        match self.slot {
            Slot::Owned { pid, .. } => Some(pid),
            _ => None,
        }
    }

    /// The backend after a stop that keeps the instance's role.
    pub open spec fn after_stop(self) -> Backend {
        Backend { slot: Slot::Empty, adopted: self.spared_port(), ..self }
    }

    /// The backend after the instance's final teardown, and whether the lock marker goes.
    pub open spec fn after_teardown(self) -> (Backend, bool) {
        let (lock, remove) = self.lock.after_release();
        (Backend { slot: Slot::Empty, lock, adopted: self.spared_port(), ..self }, remove)
    }

    /// The backend of an instance whose lock acquisition is still to come.
    pub fn new(config: PythonConfig, lock: InstanceLock) -> (r: Backend)
        ensures
            r.config == config,
            r.lock == lock,
            r.slot == Slot::Empty,
            r.policy == RestartPolicy::fresh(),
            r.adopted is None,
    {
        Backend { config, lock, slot: Slot::Empty, policy: RestartPolicy::new(), adopted: None }
    }

    /// The port the backend serves on, once it is up.
    pub fn current_port(&self) -> (r: Option<u16>)
        ensures
            r == self.spec_port(),
    {
        match self.slot {
            Slot::Owned { port, .. } => Some(port),
            Slot::Reused { port } => Some(port),
            _ => None,
        }
    }

    /// Whether this instance launched the worker and must stop it.
    pub fn owns_process(&self) -> (r: bool)
        ensures
            r == self.spec_owns_process(),
    {
        match self.slot {
            Slot::Owned { .. } => true,
            _ => false,
        }
    }

    fn scan_count_exec(&self) -> (r: u16)
        requires
            self.scan_fits(),
        ensures
            r == self.scan_count(),
    {
        let room = u16::MAX - self.config.port - 1;
        if room < PORT_SCAN_WINDOW {
            room
        } else {
            PORT_SCAN_WINDOW
        }
    }

    fn spared_port_exec(&self) -> (r: Option<u16>)
        ensures
            r == self.spared_port(),
    {
        match self.slot {
            Slot::Reused { port } => Some(port),
            _ => self.adopted,
        }
    }

    fn begin_scan_exec(&mut self) -> (r: Step)
        ensures
            (*final(self), r) == old(self).begin_scan(),
    {
        if self.config.port < u16::MAX {
            self.slot = Slot::Scanning;
            Step::ScanPorts { start: self.config.port + 1, count: self.scan_count_exec() }
        } else {
            self.slot = Slot::Empty;
            Step::Failed { error: BackendError::PortUnavailable }
        }
    }

    /// Asks for the backend; see `after_start`.
    pub fn ensure_backend(&mut self, fresh: bool) -> (r: Step)
        ensures
            (*final(self), r) == old(self).after_start(fresh),
    {
        match self.slot {
            Slot::Owned { port, .. } => Step::Ready { port },
            Slot::Reused { port } => Step::Ready { port },
            Slot::Empty => {
                if fresh {
                    self.policy = RestartPolicy::new();
                }
                if self.lock.is_primary() {
                    self.slot = Slot::ProbingCanonical;
                    Step::ProbePort { port: self.config.port }
                } else {
                    self.begin_scan_exec()
                }
            },
            _ => Step::Busy,
        }
    }

    /// Takes the launch one step further; see `after_event`.
    pub fn on_event(&mut self, e: Event) -> (r: Step)
        ensures
            (*final(self), r) == old(self).after_event(e),
    {
        match e {
            Event::PortProbed { free } => {
                if let Slot::ProbingCanonical = self.slot {
                    if free {
                        self.slot = Slot::CheckingExecutable { port: self.config.port };
                        Step::CheckExecutable
                    } else {
                        self.slot = Slot::ProbingHealth;
                        Step::ProbeHealth { port: self.config.port }
                    }
                } else {
                    Step::Ignored
                }
            },
            Event::HealthProbed { ours } => {
                if let Slot::ProbingHealth = self.slot {
                    if ours {
                        self.slot = Slot::Reused { port: self.config.port };
                        self.adopted = Some(self.config.port);
                        Step::Ready { port: self.config.port }
                    } else {
                        self.begin_scan_exec()
                    }
                } else {
                    Step::Ignored
                }
            },
            Event::PortsScanned { free } => {
                if let Slot::Scanning = self.slot {
                    if self.config.port < u16::MAX {
                        let count = self.scan_count_exec();
                        let port = find_free_port(self.config.port + 1, count, &free);
                        self.slot = Slot::CheckingExecutable { port };
                        Step::CheckExecutable
                    } else {
                        self.slot = Slot::Empty;
                        Step::Failed { error: BackendError::PortUnavailable }
                    }
                } else {
                    Step::Ignored
                }
            },
            Event::ExecutableChecked { found } => {
                if let Slot::CheckingExecutable { port } = self.slot {
                    if found {
                        self.slot = Slot::CheckingDependency { port };
                        Step::CheckDependency
                    } else {
                        self.slot = Slot::Empty;
                        Step::Failed {
                            error: BackendError::ExecutableNotFound {
                                path: self.config.python_path.clone(),
                            },
                        }
                    }
                } else {
                    Step::Ignored
                }
            },
            Event::DependencyChecked { found } => {
                if let Slot::CheckingDependency { port } = self.slot {
                    if found {
                        self.slot = Slot::Spawning { port };
                        Step::Spawn { port }
                    } else {
                        self.slot = Slot::Empty;
                        Step::Failed { error: BackendError::DependencyMissing }
                    }
                } else {
                    Step::Ignored
                }
            },
            Event::Spawned { pid } => {
                if let Slot::Spawning { port } = self.slot {
                    self.slot = Slot::Owned { pid, port };
                    Step::Ready { port }
                } else {
                    Step::Discard { pid }
                }
            },
            Event::SpawnFailed { reason } => {
                if let Slot::Spawning { .. } = self.slot {
                    self.slot = Slot::Empty;
                    Step::Failed { error: BackendError::SpawnFailed { reason } }
                } else {
                    Step::Ignored
                }
            },
        }
    }

    /// Records that the worker `pid` exited; see `after_exit`.
    pub fn on_process_exit(&mut self, pid: u32) -> (r: ExitAction)
        ensures
            (*final(self), r) == old(self).after_exit(pid),
    {
        if let Slot::Owned { pid: held, .. } = self.slot {
            if held == pid {
                self.slot = Slot::Empty;
                let auto_restart = self.config.auto_restart;
                return self.policy.on_unexpected_exit(auto_restart);
            }
        }
        ExitAction::Ignore
    }

    /// Stops the backend and keeps the instance's role, as a switch to development mode does.
    /// Only a worker this instance launched is terminated; the known ports are swept in any
    /// case, except the port of a service this instance adopted. A start in progress is abandoned, and a worker it still launches is discarded.
    pub fn stop(&mut self) -> (r: StopPlan)
        ensures
            *final(self) == old(self).after_stop(),
            r.terminate == old(self).taken_by_stop(),
            r.reclaim_ports@ == old(self).swept_ports(),
            !r.remove_lock_marker,
    {
        let terminate = match self.slot {
            Slot::Owned { pid, .. } => Some(pid),
            _ => None,
        };
        let spared = self.spared_port_exec();
        let reclaim_ports = sweep_ports(spared);
        self.slot = Slot::Empty;
        self.adopted = spared;
        StopPlan { terminate, reclaim_ports, remove_lock_marker: false }
    }

    /// Stops the backend for good as the instance exits, and gives up the instance lock. Safe to
    /// repeat: a second call terminates nothing and leaves the marker alone.
    pub fn teardown(&mut self) -> (r: StopPlan)
        ensures
            *final(self) == old(self).after_teardown().0,
            r.terminate == old(self).taken_by_stop(),
            r.reclaim_ports@ == old(self).swept_ports(),
            r.remove_lock_marker == old(self).after_teardown().1,
    {
        let mut plan = self.stop();
        plan.remove_lock_marker = self.lock.release();
        plan
    }
}

/// The backend after a run of requests for it, `fresh[i]` telling whether request `i` was an
/// explicit one, with the step that answered each.
pub open spec fn starts_in_a_row(b: Backend, fresh: Seq<bool>) -> (Backend, Seq<Step>)
    decreases fresh.len(),
{
    if fresh.len() == 0 {
        (b, seq![])
    } else {
        let (next, step) = b.after_start(fresh[0]);
        let (last, steps) = starts_in_a_row(next, fresh.drop_first());
        (last, seq![step] + steps)
    }
}

/// Once the backend is up, any run of requests for it leaves it exactly as it is and answers
/// each with the port it already has: nothing is launched a second time.
pub proof fn lemma_ensure_idempotent(b: Backend, fresh: Seq<bool>)
    requires
        (b.spec_port() is Some),
    ensures
        starts_in_a_row(b, fresh).0 == b,
        starts_in_a_row(b, fresh).1.len() == fresh.len(),
        forall|i: int|
            0 <= i < fresh.len() ==> #[trigger] starts_in_a_row(b, fresh).1[i] == (Step::Ready {
                port: b.spec_port()->0,
            }),
    decreases fresh.len(),
{
    if fresh.len() > 0 {
        lemma_ensure_idempotent(b, fresh.drop_first());
    }
}

/// A primary instance that finds the canonical port taken by a service answering as our worker
/// adopts that service: no launch, and the instance does not own the process.
pub proof fn lemma_healthy_canonical_reused(b: Backend, fresh: bool)
    requires
        b.slot == Slot::Empty,
        b.is_primary(),
    ensures
        ({
            let canonical = b.config.port;
            let (b1, s1) = b.after_start(fresh);
            let (b2, s2) = b1.after_event(Event::PortProbed { free: false });
            let (b3, s3) = b2.after_event(Event::HealthProbed { ours: true });
            &&& s1 == Step::ProbePort { port: canonical }
            &&& s2 == Step::ProbeHealth { port: canonical }
            &&& s3 == Step::Ready { port: canonical }
            &&& b3.slot == Slot::Reused { port: canonical }
            &&& !b3.spec_owns_process()
        }),
{
}

/// A primary instance that finds the canonical port taken by some other service launches its
/// worker on the first free port of the scan window above it: a port that was found free,
/// inside the window, other than the canonical one, with no free port before it. The window
/// holds `PORT_SCAN_WINDOW` ports wherever they fit below the last port, and is clipped there.
pub proof fn lemma_foreign_canonical_avoided(b: Backend, fresh: bool, free: Vec<bool>)
    requires
        b.slot == Slot::Empty,
        b.is_primary(),
        b.scan_fits(),
        exists|i: int| 0 <= i < b.scan_count() && i < free@.len() && #[trigger] free@[i],
    ensures
        b.config.port + 1 + PORT_SCAN_WINDOW <= u16::MAX ==> b.scan_count() == PORT_SCAN_WINDOW,
        ({
            let canonical = b.config.port;
            let (b1, s1) = b.after_start(fresh);
            let (b2, s2) = b1.after_event(Event::PortProbed { free: false });
            let (b3, s3) = b2.after_event(Event::HealthProbed { ours: false });
            let (b4, s4) = b3.after_event(Event::PortsScanned { free });
            let (b5, s5) = b4.after_event(Event::ExecutableChecked { found: true });
            let (b6, s6) = b5.after_event(Event::DependencyChecked { found: true });
            &&& s3 == Step::ScanPorts { start: (canonical + 1) as u16, count: b.scan_count() }
            &&& s6 matches Step::Spawn { port } && port != canonical && canonical + 1 <= port
                < canonical + 1 + b.scan_count() && free@[port - canonical - 1] && (forall|j: int|
                0 <= j < port - canonical - 1 ==> !#[trigger] free@[j])
        }),
{
    lemma_first_true_from(free@, b.scan_count() as int, 0);
}

/// Teardown of an instance that does not own its worker terminates no process, and still
/// deletes the lock marker when the instance is primary. The port of a service it adopted is
/// left out of the sweep, in this teardown and in any later one.
pub proof fn lemma_teardown_without_ownership(b: Backend)
    requires
        !b.spec_owns_process(),
    ensures
        (b.taken_by_stop() is None),
        b.after_teardown().1 == b.is_primary(),
        !b.after_teardown().0.is_primary(),
        (b.after_teardown().0.spec_port() is None),
        b.slot matches Slot::Reused { port } ==> b.after_teardown().0.spared_port() == Some(port)
            && forall|i: int|
            0 <= i < b.swept_ports().len() ==> #[trigger] b.swept_ports()[i] != port,
{
    lemma_ports_except(spec_known_ports(), b.spared_port());
}

/// Teardown is safe to repeat from every exit path: after the first, a second one terminates
/// nothing, leaves the lock marker alone and spares the same port, so no worker is killed twice,
/// the marker is deleted at most once, and an adopted service is never swept.
pub proof fn lemma_teardown_idempotent(b: Backend)
    ensures
        (b.after_teardown().0.taken_by_stop() is None),
        !b.after_teardown().0.after_teardown().1,
        b.after_teardown().0.spared_port() == b.spared_port(),
{
}

} // verus!
