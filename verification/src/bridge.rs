//! The recorder bridge and shutdown coordination.
//!
//! The pipeline is registered once as the process-wide span recorder. A
//! second installation would silently split the span stream between two
//! recorders, so the bridge guards registration: the first install hands
//! back the tracer handle, every later one is a fatal `ConfigError`. The
//! handle owns the batch processor for the rest of the process lifetime and
//! is what the shutdown sequence drains.

use vstd::prelude::*;

use crate::batch::Processor;
use crate::errors::ConfigError;

verus! {

/// The registration guard for the process-wide recorder.
#[derive(Debug)]
pub struct Bridge {
    pub installed: bool,
}

/// The handle to the installed pipeline: it owns the batch processor from
/// installation until shutdown.
#[derive(Debug)]
pub struct TracerHandle {
    pub processor: Processor,
}

impl Bridge {
    /// A fresh guard: nothing installed yet.
    pub fn new() -> (b: Bridge)
        ensures
            !b.installed,
    {
        Bridge { installed: false }
    }

    /// Registers the batch-backed pipeline as the process-wide recorder.
    /// The first call succeeds and hands the processor over to the returned
    /// handle unchanged; any further call is a fatal `ConfigError` and
    /// leaves the guard as it was.
    pub fn install(&mut self, processor: Processor) -> (r: Result<TracerHandle, ConfigError>)
        ensures
            !old(self).installed ==> ({
                &&& final(self).installed
                &&& r matches Ok(h) && h.processor == processor
            }),
            old(self).installed ==> ({
                &&& *final(self) == *old(self)
                &&& r == Err::<TracerHandle, ConfigError>(ConfigError::AlreadyInstalled)
            }),
    {
        if self.installed {
            return Err(ConfigError::AlreadyInstalled);
        }
        self.installed = true;
        Ok(TracerHandle { processor })
    }
}

impl TracerHandle {
    /// Begins the shutdown sequence on the owned processor: no further
    /// spans will be accepted; the buffer and any in-flight export are
    /// untouched until the caller drains.
    pub fn begin_shutdown(&mut self)
        requires
            old(self).processor.wf(),
        ensures
            final(self).processor.wf(),
            final(self).processor.stopping,
            final(self).processor.buffer@ == old(self).processor.buffer@,
            final(self).processor.exporting == old(self).processor.exporting,
            final(self).processor.threshold == old(self).processor.threshold,
    {
        self.processor.begin_shutdown();
    }
}

} // verus!
