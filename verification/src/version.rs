//! Engine version and build metadata, as plain values.
//!
//! The engine reports its version as three numbers and its build metadata
//! as two strings.  The unverified shell performs the queries; this module
//! holds the typed results and the projections consumers ask for.

use vstd::prelude::*;

use crate::error::Error;

verus! {

/// The version of the engine library.
#[derive(Clone, Copy, Debug, PartialEq, Eq, Structural)]
pub struct Version {
    /// The major version number.
    pub major: u16,
    /// The minor version number.
    pub minor: u16,
    /// The build version.
    pub build: u16,
}

impl Version {
    /// Packs the three components the engine reports.
    pub fn new(major: u16, minor: u16, build: u16) -> (version: Version)
        ensures
            version == (Version { major, minor, build }),
    {
        Version { major, minor, build }
    }
}

/// Interprets the outcome of the engine's version query: the three numbers
/// it filled in, or the engine error when the query's status is nonzero.
pub fn library_version(
    status: i32,
    message: Option<String>,
    major: u16,
    minor: u16,
    build: u16,
) -> (result: Result<Version, Error>)
    ensures
        result is Ok <==> status == 0,
        match result {
            Ok(version) => version == (Version { major, minor, build }),
            Err(error) => {
                &&& error matches Error::Scanifc { code, message: text }
                &&& code == status
                &&& text.deep_view() == message.deep_view()
            },
        },
{
    if status != 0 {
        Err(Error::Scanifc { code: status, message })
    } else {
        Ok(Version { major, minor, build })
    }
}

/// The engine's extended build metadata, as the build-info query reports
/// it: a version string for source-control traceability and a build tag.
#[derive(Debug)]
pub struct LibraryInfo {
    /// The extended version information.
    pub build_version: String,
    /// Additional information about the build.
    pub build_tag: String,
}

/// The extended version information from the engine's build metadata.
pub fn library_build_version(info: &LibraryInfo) -> (version: String)
    ensures
        version@ == info.build_version@,
{
    info.build_version.clone()
}

/// The build tag from the engine's build metadata.
pub fn library_build_tag(info: &LibraryInfo) -> (tag: String)
    ensures
        tag@ == info.build_tag@,
{
    info.build_tag.clone()
}

} // verus!
