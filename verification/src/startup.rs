//! The startup decisions: the production-only gate on launching the sidecar,
//! the two fatal resolution gates, and the fixed log notices the launcher
//! emits around them.

use crate::pump::LogRecord;
use crate::pump::Severity;
use vstd::prelude::*;
use vstd::string::*;

verus! {

/// A fatal startup error. Each one aborts startup and is surfaced through
/// the host application's error path; none is recovered from.
#[derive(Clone, Copy, Debug, PartialEq, Eq, Structural)]
pub enum StartupError {
    /// The OS could not resolve the per-user application data directory.
    AppDataDirUnresolved,
    /// The data directory could not be created (for a reason other than
    /// already existing).
    DataDirCreateFailed,
    /// The bundled resource directory could not be resolved.
    ResourceDirUnresolved,
    /// The bundled companion executable was not found.
    SidecarBinaryMissing,
    /// The OS refused to spawn the child process.
    SpawnFailed,
}

/// The descriptive message of each fatal startup error.
pub open spec fn spec_message(e: StartupError) -> Seq<char> {
    match e {
        StartupError::AppDataDirUnresolved => "Failed to resolve app data directory"@,
        StartupError::DataDirCreateFailed => "Failed to create data directory"@,
        StartupError::ResourceDirUnresolved => "Failed to resolve standalone resource directory"@,
        StartupError::SidecarBinaryMissing => "Failed to find node sidecar binary"@,
        StartupError::SpawnFailed => "Failed to spawn Next.js server sidecar"@,
    }
}

impl StartupError {
    /// The descriptive message surfaced when this error aborts startup.
    pub fn message(&self) -> (r: String)
        ensures
            r@ == spec_message(*self),
    {
        match self {
            StartupError::AppDataDirUnresolved => String::from_str(
                "Failed to resolve app data directory",
            ),
            StartupError::DataDirCreateFailed => String::from_str(
                "Failed to create data directory",
            ),
            StartupError::ResourceDirUnresolved => String::from_str(
                "Failed to resolve standalone resource directory",
            ),
            StartupError::SidecarBinaryMissing => String::from_str(
                "Failed to find node sidecar binary",
            ),
            StartupError::SpawnFailed => String::from_str("Failed to spawn Next.js server sidecar"),
        }
    }
}

/// The sidecar is launched only in a production build; in a development
/// build an external workflow runs the server and the launcher deliberately
/// does nothing.
pub fn sidecar_enabled(dev_build: bool) -> (r: bool)
    ensures
        r == !dev_build,
{
    !dev_build
}

/// First fatal gate of startup: the OS-resolved application data root, or
/// the error that aborts startup when the OS could not resolve one.
pub fn require_app_data_root(root: Option<String>) -> (r: Result<String, StartupError>)
    ensures
        r == match root {
            Some(p) => Result::<String, StartupError>::Ok(p),
            None => Result::<String, StartupError>::Err(StartupError::AppDataDirUnresolved),
        },
{
    match root {
        Some(p) => Ok(p),
        None => Err(StartupError::AppDataDirUnresolved),
    }
}

/// Second fatal gate: the bundled resource directory. When it cannot be
/// resolved, startup aborts here — before any child process is spawned and
/// before any background task is created.
pub fn require_resource_dir(dir: Option<String>) -> (r: Result<String, StartupError>)
    ensures
        r == match dir {
            Some(p) => Result::<String, StartupError>::Ok(p),
            None => Result::<String, StartupError>::Err(StartupError::ResourceDirUnresolved),
        },
{
    match dir {
        Some(p) => Ok(p),
        None => Err(StartupError::ResourceDirUnresolved),
    }
}

/// The informational notice emitted in a development build in place of any
/// spawn-related record.
pub fn dev_skip_notice() -> (r: LogRecord)
    ensures
        r.severity == Severity::Info,
        r.text@ == "Dev mode - skipping sidecar spawn (beforeDevCommand handles it)"@,
{
    LogRecord {
        severity: Severity::Info,
        text: String::from_str("Dev mode - skipping sidecar spawn (beforeDevCommand handles it)"),
    }
}

/// The informational notice announcing the spawn, with the entry script.
pub fn spawn_notice(script: &str) -> (r: LogRecord)
    ensures
        r.severity == Severity::Info,
        r.text@ == "Spawning sidecar: node "@ + script@,
{
    LogRecord {
        severity: Severity::Info,
        text: String::from_str("Spawning sidecar: node ").concat(script),
    }
}

/// The informational notice recording the connection string handed to the
/// child.
pub fn database_url_notice(url: &str) -> (r: LogRecord)
    ensures
        r.severity == Severity::Info,
        r.text@ == "DATABASE_URL: "@ + url@,
{
    LogRecord {
        severity: Severity::Info,
        text: String::from_str("DATABASE_URL: ").concat(url),
    }
}

/// The error record emitted when a fatal startup error is surfaced.
pub fn startup_failure_record(e: StartupError) -> (r: LogRecord)
    ensures
        r.severity == Severity::Error,
        r.text@ == "Failed to spawn sidecar: "@ + spec_message(e),
{
    LogRecord {
        severity: Severity::Error,
        text: String::from_str("Failed to spawn sidecar: ").concat(e.message().as_str()),
    }
}

} // verus!
