//! Error taxonomy of the pipeline.
//!
//! Configuration and construction faults are fatal at startup; runtime
//! export failures are contained inside the batch processor and never reach
//! these types.

use vstd::prelude::*;

verus! {

/// A fatal startup fault: missing or malformed configuration, or a second
/// attempt to install the process-wide recorder. The process must not begin
/// serving traffic after one of these.
#[derive(Clone, Copy, Debug, PartialEq, Eq, Structural)]
pub enum ConfigError {
    /// The collector endpoint setting was absent.
    EndpointMissing,
    /// The credential setting was absent.
    CredentialMissing,
    /// The endpoint value did not parse as an absolute URL.
    EndpointInvalid,
    /// The endpoint URL parsed but carries no usable host.
    EndpointHostMissing,
    /// The recorder bridge was already installed.
    AlreadyInstalled,
}

impl ConfigError {
    /// A human-readable description naming the offending setting.
    pub fn message(&self) -> (r: &'static str)
        ensures
            *self is EndpointMissing ==> r@ == "endpoint missing"@,
            *self is CredentialMissing ==> r@ == "credential missing"@,
            *self is EndpointInvalid ==> r@ == "endpoint is not a valid url"@,
            *self is EndpointHostMissing ==> r@ == "endpoint has no host"@,
            *self is AlreadyInstalled ==> r@ == "tracer already installed"@,
    {
        match self {
            ConfigError::EndpointMissing => "endpoint missing",
            ConfigError::CredentialMissing => "credential missing",
            ConfigError::EndpointInvalid => "endpoint is not a valid url",
            ConfigError::EndpointHostMissing => "endpoint has no host",
            ConfigError::AlreadyInstalled => "tracer already installed",
        }
    }
}

/// A fatal exporter-construction fault. Raised at build time, never deferred
/// to the first export.
#[derive(Clone, Copy, Debug, PartialEq, Eq, Structural)]
pub enum TransportError {
    /// The credential cannot be encoded as an authentication header value.
    CredentialNotAscii,
}

impl TransportError {
    /// A human-readable description of the construction fault.
    pub fn message(&self) -> (r: &'static str)
        ensures
            r@ == "credential is not a valid header value"@,
    {
        match self {
            TransportError::CredentialNotAscii => "credential is not a valid header value",
        }
    }
}

/// Any fault of the whole startup sequence: either resolution or
/// installation failed with a `ConfigError`, or exporter construction
/// failed with a `TransportError`. All of them abort startup.
#[derive(Clone, Copy, Debug, PartialEq, Eq, Structural)]
pub enum StartupError {
    Config(ConfigError),
    Transport(TransportError),
}

impl StartupError {
    /// A human-readable description of the startup fault.
    pub fn message(&self) -> (r: &'static str)
        ensures
            self matches StartupError::Config(e) ==> ({
                &&& e is EndpointMissing ==> r@ == "endpoint missing"@
                &&& e is CredentialMissing ==> r@ == "credential missing"@
                &&& e is EndpointInvalid ==> r@ == "endpoint is not a valid url"@
                &&& e is EndpointHostMissing ==> r@ == "endpoint has no host"@
                &&& e is AlreadyInstalled ==> r@ == "tracer already installed"@
            }),
            self matches StartupError::Transport(e) ==> r@
                == "credential is not a valid header value"@,
    {
        match self {
            StartupError::Config(e) => e.message(),
            StartupError::Transport(e) => e.message(),
        }
    }
}

} // verus!
