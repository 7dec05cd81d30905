//! The error taxonomy of the conversion pipeline.
//!
//! Every staged failure of a conversion attempt is reported as one of these
//! variants. `CleanupError` is special: teardown failures are logged by the
//! host program and never surfaced, so no function of this crate returns it
//! as the primary outcome of a stage.

use vstd::prelude::*;

verus! {

/// One error per failure class of the pipeline.
#[derive(Clone, Copy, Debug, PartialEq, Eq, Structural)]
pub enum ConversionError {
    /// A sharded store specification whose range token is malformed.
    InvalidRangeFormat,
    /// The store factory could not build a handle for a backend URL.
    StoreInitError,
    /// No registered range contains the routed byte.
    RouteNotFound,
    /// Pulling the image from the registry failed.
    PullError,
    /// The runtime rejected creation of the temporary container.
    ContainerCreateError,
    /// Exporting the container's root filesystem failed.
    ExportError,
    /// Inspecting the image or container configuration failed, or the
    /// inspected configuration declares no startup command at all.
    InspectError,
    /// Writing the startup descriptor into the snapshot failed.
    MetadataWriteError,
    /// The packer could not produce the archive.
    PackError,
    /// The bounded work queue is full; submission must fail fast.
    QueueFullError,
    /// Best-effort teardown failed; recorded, never propagated.
    CleanupError,
}

} // verus!
