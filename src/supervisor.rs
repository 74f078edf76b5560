use vstd::prelude::*;
use vstd::string::*;

use crate::text::{append_decimal, decimal};

verus! {

/// Restarts granted after unexpected exits before the supervisor gives up.
pub const MAX_RESTARTS: u32 = 3;

/// Pause before a restart, in milliseconds.
pub const RESTART_DELAY_MS: u64 = 2000;

/// How long the worker is given to exit after the shutdown command, in milliseconds.
pub const SHUTDOWN_GRACE_MS: u64 = 500;

/// Line written to the worker's input to ask it to exit.
pub const SHUTDOWN_COMMAND: &'static str = "sidecar shutdown\n";

/// Python module that runs the worker.
pub const WORKER_MODULE: &'static str = "aestiv";

/// Longest wait for a version or import query of the interpreter, in milliseconds.
pub const PROBE_TIMEOUT_MS: u64 = 10000;

/// Script that succeeds only where the worker module can be imported.
pub const DEPENDENCY_PROBE_SCRIPT: &'static str = "import aestiv; print('ok')";

/// Size past which the worker's log file is rotated, in bytes.
pub const LOG_ROTATE_BYTES: u64 = 1048576;

/// Whether the worker's log, at `current_size` bytes, is rotated before a line of `line_len`
/// bytes is appended: the line would take it past `LOG_ROTATE_BYTES`.
pub fn needs_rotation(current_size: u64, line_len: u64) -> (r: bool)
    ensures
        r == (current_size + line_len > LOG_ROTATE_BYTES),
{
    current_size > LOG_ROTATE_BYTES || line_len > LOG_ROTATE_BYTES - current_size
}

/// Arguments of the worker's command line: the module, the port, and in development the
/// standalone flag.
pub open spec fn spec_launch_args(port: u16, standalone: bool) -> Seq<Seq<char>> {
    let base = seq!["-m"@, WORKER_MODULE@, "--port"@, decimal(port as nat)];
    if standalone {
        base.push("--standalone"@)
    } else {
        base
    }
}

/// Command-line arguments that launch the worker on `port`.
pub fn launch_args(port: u16, standalone: bool) -> (r: Vec<String>)
    ensures
        r@.map_values(|s: String| s@) == spec_launch_args(port, standalone),
{
    let mut port_text = String::new();
    append_decimal(&mut port_text, port as u32);
    let mut r = vec![
        String::from_str("-m"),
        String::from_str(WORKER_MODULE),
        String::from_str("--port"),
        port_text,
    ];
    if standalone {
        r.push(String::from_str("--standalone"));
    }
    assert(r@.map_values(|s: String| s@) =~= spec_launch_args(port, standalone));
    r
}

/// Counts the restarts of one supervisory session.
#[derive(Debug, Clone, Copy, PartialEq, Eq, Structural)]
pub struct RestartPolicy {
    /// Restarts made since the last explicit start.
    pub restarts: u32,
}

/// What follows an unexpected exit of the worker.
#[derive(Debug, Clone, Copy, PartialEq, Eq, Structural)]
pub enum ExitAction {
    /// Wait the restart delay, then start the worker again; `attempt` counts from 1. On the
    /// `last` one the restarts are used up: report, once, that the worker keeps crashing and
    /// that no further restart will follow.
    Restart { attempt: u32, last: bool },
    /// Nothing to do: automatic restart is off, or the restarts are used up.
    Ignore,
}

impl RestartPolicy {
    /// A session with no restarts yet.
    pub open spec fn fresh() -> RestartPolicy {
        RestartPolicy { restarts: 0 }
    }

    /// The policy after an unexpected exit, and what follows it.
    pub open spec fn after_exit(self, auto_restart: bool) -> (RestartPolicy, ExitAction) {
        if auto_restart && self.restarts < MAX_RESTARTS {
            (
                RestartPolicy { restarts: (self.restarts + 1) as u32 },
                ExitAction::Restart {
                    attempt: (self.restarts + 1) as u32,
                    last: self.restarts + 1 == MAX_RESTARTS,
                },
            )
        } else {
            (self, ExitAction::Ignore)
        }
    }

    /// Starts a session with no restarts.
    pub fn new() -> (r: RestartPolicy)
        ensures
            r == RestartPolicy::fresh(),
    {
        RestartPolicy { restarts: 0 }
    }

    /// Records an unexpected exit and decides what follows.
    pub fn on_unexpected_exit(&mut self, auto_restart: bool) -> (r: ExitAction)
        ensures
            (*final(self), r) == old(self).after_exit(auto_restart),
    {
        if auto_restart && self.restarts < MAX_RESTARTS {
            self.restarts = self.restarts + 1;
            ExitAction::Restart { attempt: self.restarts, last: self.restarts == MAX_RESTARTS }
        } else {
            ExitAction::Ignore
        }
    }
}

/// The policy after `n` unexpected exits in a row, with the number of restarts and of
/// give-up reports among them.
pub open spec fn exits_in_a_row(p: RestartPolicy, auto_restart: bool, n: nat) -> (
    RestartPolicy,
    nat,
    nat,
)
    decreases n,
{
    if n == 0 {
        (p, 0, 0)
    } else {
        let (next, action) = p.after_exit(auto_restart);
        let (last, restarts, fatal) = exits_in_a_row(next, auto_restart, (n - 1) as nat);
        (
            last,
            restarts + if action is Restart {
                1nat
            } else {
                0nat
            },
            fatal + if action matches ExitAction::Restart { last: true, .. } {
                1nat
            } else {
                0nat
            },
        )
    }
}

pub open spec fn min_nat(a: nat, b: nat) -> nat {
    if a <= b {
        a
    } else {
        b
    }
}

proof fn lemma_exits_from(p: RestartPolicy, n: nat)
    requires
        p.restarts <= MAX_RESTARTS,
    ensures
        exits_in_a_row(p, true, n).1 == min_nat(n, (MAX_RESTARTS - p.restarts) as nat),
        exits_in_a_row(p, true, n).2 == if p.restarts < MAX_RESTARTS && n >= MAX_RESTARTS
            - p.restarts {
            1nat
        } else {
            0nat
        },
    decreases n,
{
    if n > 0 {
        lemma_exits_from(p.after_exit(true).0, (n - 1) as nat);
    }
}

proof fn lemma_exits_without_restart(p: RestartPolicy, n: nat)
    ensures
        exits_in_a_row(p, false, n).1 == 0,
        exits_in_a_row(p, false, n).2 == 0,
    decreases n,
{
    if n > 0 {
        lemma_exits_without_restart(p.after_exit(false).0, (n - 1) as nat);
    }
}

/// Bounded restarts: with automatic restart, `n` unexpected exits in a row from a fresh session
/// lead to `min(n, MAX_RESTARTS)` restarts, and the give-up report comes exactly once when
/// `n >= MAX_RESTARTS`, at the exit that uses the last restart, and never otherwise. Without
/// automatic restart there is neither.
pub proof fn lemma_bounded_restarts(n: nat)
    ensures
        exits_in_a_row(RestartPolicy::fresh(), true, n).1 == min_nat(n, MAX_RESTARTS as nat),
        exits_in_a_row(RestartPolicy::fresh(), true, n).2 == if n >= MAX_RESTARTS {
            1nat
        } else {
            0nat
        },
        exits_in_a_row(RestartPolicy::fresh(), false, n).1 == 0,
        exits_in_a_row(RestartPolicy::fresh(), false, n).2 == 0,
{
    lemma_exits_from(RestartPolicy::fresh(), n);
    lemma_exits_without_restart(RestartPolicy::fresh(), n);
}

} // verus!
