//! The startup sequence of the whole pipeline, composed.
//!
//! One call resolves the configuration, builds the exporter plan and
//! installs the batch-backed recorder behind the bridge guard. Whatever
//! fails, fails fast: the caller gets the precise startup fault and must
//! not begin serving traffic.

use vstd::prelude::*;

use crate::batch::Processor;
use crate::bridge::{Bridge, TracerHandle};
use crate::config::{resolve, resolve_outcome};
use crate::errors::{ConfigError, StartupError, TransportError};
use crate::exporter::{build, header_value_ok, ExporterPlan};

verus! {

/// Stands up the pipeline from the raw startup inputs: resolve, build,
/// install. Succeeds exactly when the endpoint resolves to a URL with a
/// non-empty host, the credential is present and encodes as a header value,
/// and nothing was installed yet; the plan then binds the endpoint, its
/// host as the TLS identity, the credential verbatim under the fixed header
/// name, and the service name, while the handle owns a fresh processor with
/// the requested batch threshold. On any fault the guard is untouched.
pub fn init_pipeline(
    endpoint: Option<String>,
    credential: Option<String>,
    service_name: String,
    threshold: usize,
    bridge: &mut Bridge,
) -> (r: Result<(ExporterPlan, TracerHandle), StartupError>)
    requires
        1 <= threshold,
    ensures
        ({
            match resolve_outcome(endpoint, credential) {
                Err(er) => r == Err::<(ExporterPlan, TracerHandle), StartupError>(
                    StartupError::Config(er),
                ) && *final(bridge) == *old(bridge),
                Ok((e, h, c)) => if !header_value_ok(c@) {
                    &&& r == Err::<(ExporterPlan, TracerHandle), StartupError>(
                        StartupError::Transport(TransportError::CredentialNotAscii),
                    )
                    &&& *final(bridge) == *old(bridge)
                } else if old(bridge).installed {
                    &&& r == Err::<(ExporterPlan, TracerHandle), StartupError>(
                        StartupError::Config(ConfigError::AlreadyInstalled),
                    )
                    &&& *final(bridge) == *old(bridge)
                } else {
                    &&& r matches Ok((plan, handle))
                    &&& plan.endpoint == e
                    &&& plan.tls_server_name@ == h
                    &&& plan.header_key@ == "x-honeycomb-team"@
                    &&& plan.header_value == c
                    &&& plan.resource@.len() == 1
                    &&& plan.resource@[0].0@ == "service.name"@
                    &&& plan.resource@[0].1 == service_name
                    &&& handle.processor.wf()
                    &&& handle.processor.buffer@.len() == 0
                    &&& handle.processor.threshold == threshold
                    &&& !handle.processor.exporting
                    &&& !handle.processor.stopping
                    &&& final(bridge).installed
                },
            }
        }),
{
    let config = match resolve(endpoint, credential) {
        Err(er) => {
            return Err(StartupError::Config(er));
        },
        Ok(c) => c,
    };
    let plan = match build(config, service_name) {
        Err(er) => {
            return Err(StartupError::Transport(er));
        },
        Ok(p) => p,
    };
    let handle = match bridge.install(Processor::new(threshold)) {
        Err(er) => {
            return Err(StartupError::Config(er));
        },
        Ok(h) => h,
    };
    Ok((plan, handle))
}

} // verus!
