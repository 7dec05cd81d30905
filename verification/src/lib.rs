//! Coordination logic for converting a container image into a packed,
//! content-addressed filesystem archive ("flist").
//!
//! The crate covers the conversion pipeline's decision logic:
//! - [`router`]: partitioning the content-hash byte space across backing stores,
//! - [`descriptor`]: deriving the runtime-startup descriptor from an inspected
//!   container configuration, and encoding it as a structured document,
//! - [`orchestrator`]: sequencing one conversion attempt with guaranteed cleanup,
//! - [`ledger`]: the asynchronous job ledger behind the network-facing service,
//! - [`service`]: configuration and request-shaping helpers for the service.
//!
//! Registry, container-runtime and filesystem I/O, and the packer that turns a
//! directory tree into the archive, are external collaborators: a host program
//! performs them and feeds the outcomes back into the state machines here.

pub mod descriptor;
pub mod encode;
pub mod error;
pub mod ledger;
pub mod orchestrator;
pub mod router;
pub mod service;

pub use error::ConversionError;
