//! Launch mode resolution, service configuration, and the error taxonomy of
//! the supervisor.

use vstd::prelude::*;

verus! {

/// Whether the host runs against a developer-managed server (development) or
/// against its own production builds.
#[derive(Clone, Copy, PartialEq, Eq, Structural, Debug)]
pub enum Mode {
    /// The dependent services are started out-of-band by the developer; the
    /// supervisor spawns nothing.
    Development,
    /// The supervisor spawns the built services itself.
    Production,
}

/// The only value of the mode environment variable that selects development
/// mode.  Any other value, or an absent variable, selects production.
pub open spec fn dev_marker() -> Seq<char> {
    "dev"@
}

/// Resolve the launch mode from the value of the mode environment variable.
/// An absent variable, or any value other than the development marker, selects
/// production.
pub fn resolve_mode(env_value: Option<&String>) -> (m: Mode)
    ensures
        m == Mode::Development <==> (env_value matches Some(v) && v@ == dev_marker()),
        m == Mode::Production <==> !(env_value matches Some(v) && v@ == dev_marker()),
{
    match env_value {
        Some(v) => {
            let marker: String = "dev".to_owned();
            if *v == marker {
                Mode::Development
            } else {
                Mode::Production
            }
        },
        None => Mode::Production,
    }
}

/// Identity and launch parameters of one managed service.
pub struct ServiceConfig {
    /// Logical name, e.g. "api" or "web".
    pub name: String,
    /// Port the service listens on; passed on its command line.
    pub port: u16,
    /// Environment overrides merged into the spawned process's environment.
    pub env: Vec<(String, String)>,
}

/// Port of the primary (API) service.
pub const API_PORT: u16 = 8911;

/// Port of the web service.
pub const WEB_PORT: u16 = 8912;

/// Best-effort settling delay after each successful spawn, in milliseconds,
/// before the next dependent service is launched.  A heuristic wait, not a
/// readiness probe.
pub const SETTLE_MILLIS: u64 = 3000;

/// Grace period between the graceful and the forceful group signal during
/// teardown, in milliseconds.
pub const GRACE_MILLIS: u64 = 500;

/// Directory, relative to the working directory, whose presence confirms that
/// the production build was run.
pub open spec fn build_marker_rel() -> Seq<char> {
    "api/dist"@
}

/// The absolute build-marker path for a given working directory.
pub open spec fn build_marker_path(cwd: Seq<char>) -> Seq<char> {
    cwd + "/"@ + build_marker_rel()
}

/// Command the user must run when the build marker is missing.
pub open spec fn rebuild_command() -> Seq<char> {
    "yarn redwood build"@
}

/// The build-marker directory relative to the working directory, as a value
/// the driver can join onto the resolved working directory.
pub fn build_marker_relative() -> (s: String)
    ensures
        s@ == build_marker_rel(),
{
    "api/dist".to_owned()
}

/// Why a launch request failed.  None of these is fatal to the host: it keeps
/// running without the managed services.
#[derive(Debug, PartialEq, Eq)]
pub enum StartError {
    /// Production launch refused: the build artifact directory is missing.
    /// Carries the path that was expected and the command that creates it.
    BuildNotFound { expected_path: String, remediation: String },
    /// The OS refused to create a service process.
    SpawnFailed { service: String, message: String },
    /// The working directory could not be determined.
    DirectoryResolutionFailed,
}

} // verus!
