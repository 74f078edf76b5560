use vstd::prelude::*;
use vstd::string::*;

use crate::select::{first_true, first_true_below};

verus! {

/// Interpreter name used when none has been configured or detected.
pub const DEFAULT_INTERPRETER: &'static str = "python";

/// Canonical port of the worker's HTTP API.
pub const DEFAULT_PORT: u16 = 8009;

/// Address the worker listens on.
pub const DEFAULT_HOST: &'static str = "127.0.0.1";

/// How long the worker may take to come up, in milliseconds.
pub const DEFAULT_STARTUP_TIMEOUT_MS: u64 = 10000;

/// Settings of one session of the shell. Loaded once at startup and never changed afterwards.
#[derive(Debug, Clone)]
pub struct PythonConfig {
    /// Interpreter that runs the worker.
    pub python_path: String,
    /// Canonical port of the worker's API.
    pub port: u16,
    /// Address the worker binds to.
    pub host: String,
    /// Whether an unexpected exit of the worker triggers a restart.
    pub auto_restart: bool,
    /// Startup timeout, in milliseconds.
    pub startup_timeout_ms: u64,
    /// Whether the worker is launched standalone, for development.
    pub dev_mode: bool,
}

/// The defaults, with `path` as the interpreter.
pub open spec fn default_config_with(c: PythonConfig, path: Seq<char>) -> bool {
    &&& c.python_path@ == path
    &&& c.port == DEFAULT_PORT
    &&& c.host@ == DEFAULT_HOST@
    &&& c.auto_restart
    &&& c.startup_timeout_ms == DEFAULT_STARTUP_TIMEOUT_MS
    &&& !c.dev_mode
}

/// A configuration that still names the placeholder interpreter, or no configuration at all,
/// needs the interpreter to be detected on this machine.
pub open spec fn spec_needs_detection(loaded: Option<PythonConfig>) -> bool {
    match loaded {
        Some(c) => c.python_path@ == DEFAULT_INTERPRETER@,
        None => true,
    }
}

impl Default for PythonConfig {
    fn default() -> (r: Self)
        ensures
            default_config_with(r, DEFAULT_INTERPRETER@),
    {
        PythonConfig {
            python_path: String::from_str(DEFAULT_INTERPRETER),
            port: DEFAULT_PORT,
            host: String::from_str(DEFAULT_HOST),
            auto_restart: true,
            startup_timeout_ms: DEFAULT_STARTUP_TIMEOUT_MS,
            dev_mode: false,
        }
    }
}

impl PythonConfig {
    /// Whether the interpreter has to be detected before `from_loaded` can settle the
    /// configuration.
    pub fn needs_detection(loaded: &Option<PythonConfig>) -> (r: bool)
        ensures
            r == spec_needs_detection(*loaded),
    {
        match loaded {
            Some(c) => {
                let placeholder = String::from_str(DEFAULT_INTERPRETER);
                c.python_path == placeholder
            },
            None => true,
        }
    }

    /// Settles the configuration read from disk: without one the defaults apply, and the
    /// placeholder interpreter gives way to the `detected` one. A configured interpreter other
    /// than the placeholder is kept as it is.
    pub fn from_loaded(loaded: Option<PythonConfig>, detected: String) -> (r: PythonConfig)
        ensures
            match loaded {
                Some(c) => if spec_needs_detection(loaded) {
                    r == (PythonConfig { python_path: detected, ..c })
                } else {
                    r == c
                },
                None => default_config_with(r, detected@),
            },
    {
        let needs = PythonConfig::needs_detection(&loaded);
        match loaded {
            Some(c) => {
                if needs {
                    PythonConfig { python_path: detected, ..c }
                } else {
                    c
                }
            },
            None => {
                let mut c = PythonConfig::default();
                c.python_path = detected;
                c
            },
        }
    }
}

/// Places searched for the configuration file, in order.
pub open spec fn spec_config_file_candidates() -> Seq<Seq<char>> {
    seq!["config/python.json"@, "../config/python.json"@]
}

/// Interpreters tried, in order of preference: a project virtual environment first, then the
/// system interpreter.
pub open spec fn spec_interpreter_candidates(windows: bool) -> Seq<Seq<char>> {
    if windows {
        seq![
            ".venv\\Scripts\\python.exe"@,
            "src-python\\.venv\\Scripts\\python.exe"@,
            "../src-python/.venv/Scripts/python.exe"@,
            "python"@,
            "python3"@,
        ]
    } else {
        seq![
            ".venv/bin/python"@,
            "src-python/.venv/bin/python"@,
            "../src-python/.venv/bin/python"@,
            "python3"@,
            "python"@,
        ]
    }
}

pub open spec fn views(v: Seq<String>) -> Seq<Seq<char>> {
    v.map_values(|s: String| s@)
}

/// Places searched for the configuration file, in order.
pub fn config_file_candidates() -> (r: Vec<String>)
    ensures
        views(r@) == spec_config_file_candidates(),
{
    let r = vec![String::from_str("config/python.json"), String::from_str("../config/python.json")];
    assert(views(r@) =~= spec_config_file_candidates());
    r
}

/// Interpreters to try on this platform, in order of preference.
pub fn interpreter_candidates(windows: bool) -> (r: Vec<String>)
    ensures
        views(r@) == spec_interpreter_candidates(windows),
{
    let r = if windows {
        vec![
            String::from_str(".venv\\Scripts\\python.exe"),
            String::from_str("src-python\\.venv\\Scripts\\python.exe"),
            String::from_str("../src-python/.venv/Scripts/python.exe"),
            String::from_str("python"),
            String::from_str("python3"),
        ]
    } else {
        vec![
            String::from_str(".venv/bin/python"),
            String::from_str("src-python/.venv/bin/python"),
            String::from_str("../src-python/.venv/bin/python"),
            String::from_str("python3"),
            String::from_str("python"),
        ]
    };
    assert(views(r@) =~= spec_interpreter_candidates(windows));
    r
}

/// The interpreter chosen from `candidates`, given which of them answered a version query
/// (`answered[i]` for `candidates[i]`; candidates not tried yet may be left out).
pub open spec fn spec_select_interpreter(candidates: Seq<Seq<char>>, answered: Seq<bool>) -> Seq<
    char,
> {
    match first_true_below(answered, candidates.len() as int) {
        Some(i) => candidates[i as int],
        None => DEFAULT_INTERPRETER@,
    }
}

/// Picks the first candidate that answered; without one, the placeholder interpreter.
pub fn select_interpreter(candidates: &Vec<String>, answered: &Vec<bool>) -> (r: String)
    ensures
        r@ == spec_select_interpreter(views(candidates@), answered@),
{
    proof {
        crate::select::lemma_first_true_from(answered@, candidates@.len() as int, 0);
    }
    match first_true(answered, candidates.len()) {
        Some(i) => candidates[i].clone(),
        None => String::from_str(DEFAULT_INTERPRETER),
    }
}

} // verus!
