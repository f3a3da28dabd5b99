use vstd::prelude::*;

verus! {

/// Output rendering of a location.
#[derive(Clone, Copy, Debug, PartialEq, Eq, Structural)]
pub enum Format {
    Json,
    Csv,
    Env,
    Plain,
}

/// The location source a user asks for.
#[derive(Clone, Copy, Debug, PartialEq, Eq, Structural)]
pub enum Provider {
    /// The platform location service where this build has it, else the
    /// network lookup; falls back to the network lookup when the service is
    /// disabled or access is denied.
    Auto,
    /// The platform location service.
    Corelocation,
    /// The desktop location service over D-Bus.
    Geoclue,
    /// The network lookup by IP address.
    Ip,
}

/// Command-line options.
#[derive(Clone, Debug, PartialEq, Eq)]
pub struct Args {
    pub format: Format,
    pub provider: Provider,
    pub accuracy: Option<String>,
    /// Seconds.
    pub timeout: u64,
    pub watch: Option<u64>,
    pub no_cache: bool,
    pub verbose: bool,
}

} // verus!
