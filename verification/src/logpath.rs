//! Log channel path resolution: the platform state directory, with the data
//! directory as fallback, extended by the application's fixed subpath.

use vstd::prelude::*;
use vstd::string::StringExecFns;

verus! {

/// Failure to locate any platform state or data directory.
#[derive(Clone, Copy, PartialEq, Eq, Structural, Debug)]
pub enum LogPathError {
    NoStateDir,
}

impl LogPathError {
    /// The diagnostic text reported when no platform directory is available.
    pub fn message(&self) -> (m: String)
        ensures
            m@ == "Could not determine state directory"@,
    {
        "Could not determine state directory".to_owned()
    }
}

/// The resolved log locations: the directory that must exist before the log
/// is opened, and the log file inside it.
pub struct LogPaths {
    pub dir: String,
    pub file: String,
}

/// Relies on dirs::state_dir: the platform-specific state directory, if the
/// platform defines one. The result depends on the host environment, so
/// nothing is promised of it.
#[verifier::external_body]
fn state_dir_string() -> (r: Option<String>) {
    match dirs::state_dir() {
        Some(p) => Some(p.to_string_lossy().into_owned()),
        None => None,
    }
}

/// Relies on dirs::data_dir: the platform-specific data directory, if the
/// platform defines one. The result depends on the host environment, so
/// nothing is promised of it.
#[verifier::external_body]
fn data_dir_string() -> (r: Option<String>) {
    match dirs::data_dir() {
        Some(p) => Some(p.to_string_lossy().into_owned()),
        None => None,
    }
}

/// Picks the base directory for the log: the state directory when one is
/// known, else the data directory; an error when neither is.
pub fn choose_state_dir(state: Option<String>, data: Option<String>) -> (r: Result<
    String,
    LogPathError,
>)
    ensures
        state matches Some(s) ==> r == Ok::<String, LogPathError>(s),
        state is None ==> (data matches Some(d) ==> r == Ok::<String, LogPathError>(d)),
        state is None && data is None ==> r == Err::<String, LogPathError>(
            LogPathError::NoStateDir,
        ),
{
    match state {
        Some(s) => Ok(s),
        None => match data {
            Some(d) => Ok(d),
            None => Err(LogPathError::NoStateDir),
        },
    }
}

/// Appends the application's fixed log subdirectory to a base directory.
pub fn log_dir_path(base: String) -> (r: String)
    ensures
        r@ == base@ + "/discobot/logs"@,
{
    base.concat("/discobot/logs")
}

/// The log file inside the log directory.
pub fn log_file_in_dir(dir: &String) -> (r: String)
    ensures
        r@ == dir@ + "/server.log"@,
{
    dir.clone().concat("/server.log")
}

/// Resolves where the log lives: the platform state directory, falling back
/// to the platform data directory, extended by the fixed subpath. Fails only
/// when the platform defines neither directory.
pub fn get_log_file_path() -> (r: Result<LogPaths, LogPathError>)
    ensures
        r matches Ok(p) ==> {
            &&& exists|base: Seq<char>| p.dir@ == #[trigger] (base + "/discobot/logs"@)
            &&& p.file@ == p.dir@ + "/server.log"@
        },
        r matches Err(e) ==> e == LogPathError::NoStateDir,
{
    let state = state_dir_string();
    let data = data_dir_string();
    match choose_state_dir(state, data) {
        Ok(base) => {
            let ghost base_view = base@;
            let dir = log_dir_path(base);
            let file = log_file_in_dir(&dir);
            proof {
                assert(dir@ == base_view + "/discobot/logs"@);
            }
            Ok(LogPaths { dir, file })
        },
        Err(e) => Err(e),
    }
}

} // verus!
