//! A typed, lazy, record-oriented read interface over the frame-structured
//! scan streams produced by a laser scanner's vendor runtime.
//!
//! The vendor engine itself (the component that parses the proprietary binary
//! format) is an external collaborator: it is driven through a thin unverified
//! shell that opens a named source, requests bounded batches of raw records,
//! and releases the handle.  Everything this crate holds is the logic around
//! those calls: serializing source locators, validating configuration,
//! interpreting the engine's status codes and end-of-stream signals, decoding
//! the raw attribute bitfield into typed records, and running the buffered
//! pull protocol that hands records out one at a time in arrival order.
//!
//! Floating-point payloads (coordinates, amplitudes, angles) pass through the
//! core untouched; they are carried as IEEE-754 bit patterns and only turned
//! back into floats by the callers that consume them.

pub mod error;
pub mod inclination;
pub mod point;
pub mod point3d;
pub mod reader;
pub mod version;

pub use error::Error;
pub use inclination::{Inclination, Inclinations, Pointcloud};
pub use point::{EchoType, Facet, Point};
pub use reader::Reader;
pub use version::{library_build_tag, library_build_version, library_version, LibraryInfo, Version};
