use vstd::prelude::*;

verus! {

/// Sent to the shell when the backend serves, with its port.
pub const EVENT_READY: &'static str = "backend-ready";

/// Sent to the shell with the message of a failure.
pub const EVENT_ERROR: &'static str = "backend-error";

/// Sent to the shell with each line the worker writes to its standard output.
pub const EVENT_STDOUT: &'static str = "backend-stdout";

/// Sent to the shell with each line the worker writes to its standard error.
pub const EVENT_STDERR: &'static str = "backend-stderr";

/// Sent to the shell when the worker exits.
pub const EVENT_TERMINATED: &'static str = "backend-terminated";

} // verus!
