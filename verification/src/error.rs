//! What can go wrong while one attachment is processed.

use vstd::prelude::*;

verus! {

/// The failures of a pipeline run. Each is confined to the attachment it
/// occurred on and ends up as a line in the log.
#[derive(Clone, Copy, Debug, PartialEq, Eq, Structural)]
pub enum PipelineError {
    /// The remote fetch failed at the transport or protocol level.
    Network,
    /// A local file could not be written, made durable, waited on or removed.
    Io,
    /// The encoder could not be started.
    ProcessSpawn,
    /// The encoder ran and reported a status other than success.
    ProcessExecution,
    /// The reply could not be published.
    Delivery,
}

} // verus!
