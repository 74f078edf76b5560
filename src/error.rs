use vstd::prelude::*;
use vstd::string::*;

use crate::text::{append_decimal, decimal};

verus! {

/// Why the backend could not be brought up.
#[derive(Debug, Clone, PartialEq, Eq)]
pub enum BackendError {
    /// The interpreter at `path` did not answer a version query.
    ExecutableNotFound { path: String },
    /// The interpreter cannot import the worker package.
    DependencyMissing,
    /// Launching the worker failed, for `reason`.
    SpawnFailed { reason: String },
    /// No port is left for a backend of this instance.
    PortUnavailable,
    /// The worker crashed for the `attempts`-th time; the restart now under way is the last one.
    RestartsExhausted { attempts: u32 },
}

impl BackendError {
    /// The text shown to the user.
    pub open spec fn spec_message(self) -> Seq<char> {
        match self {
            BackendError::ExecutableNotFound { path } => "Python not found at '"@ + path@
                + "'. Please install Python and ensure it's in your PATH."@,
            BackendError::DependencyMissing =>
                "aestiv package not found. Please install it with:\n  pip install aestiv\nor for development:\n  pip install -e ./src-python"@,
            BackendError::SpawnFailed { reason } => "Failed to spawn Python backend: "@ + reason@
                + ". Make sure Python is installed and aestiv package is available."@,
            BackendError::PortUnavailable => "No port is available for the Python backend."@,
            BackendError::RestartsExhausted { attempts } => "Python backend crashed "@ + decimal(
                attempts as nat,
            ) + " times. This is the last automatic restart; if it stops again, check the logs and restart it manually."@,
        }
    }

    /// The text shown to the user.
    pub fn message(&self) -> (r: String)
        ensures
            r@ == self.spec_message(),
    {
        match self {
            BackendError::ExecutableNotFound { path } => {
                let mut s = String::from_str("Python not found at '");
                s.append(path.as_str());
                s.append("'. Please install Python and ensure it's in your PATH.");
                s
            },
            BackendError::DependencyMissing => String::from_str(
                "aestiv package not found. Please install it with:\n  pip install aestiv\nor for development:\n  pip install -e ./src-python",
            ),
            BackendError::SpawnFailed { reason } => {
                let mut s = String::from_str("Failed to spawn Python backend: ");
                s.append(reason.as_str());
                s.append(". Make sure Python is installed and aestiv package is available.");
                s
            },
            BackendError::PortUnavailable => String::from_str(
                "No port is available for the Python backend.",
            ),
            BackendError::RestartsExhausted { attempts } => {
                let mut s = String::from_str("Python backend crashed ");
                append_decimal(&mut s, *attempts);
                s.append(" times. This is the last automatic restart; if it stops again, check the logs and restart it manually.");
                s
            },
        }
    }
}

} // verus!
