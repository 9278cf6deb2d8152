//! The high-level reader: a declarative configuration for pulling points
//! and inclination readings out of one scan file.
//!
//! A `Reader` is pure configuration — path, PPS synchronization, batch
//! size — and performs no engine work itself.  It lowers into the stream
//! builder of [`crate::point3d`] for points, and into an open request of
//! [`crate::inclination`] for inclination readings; the unverified shell
//! then opens and drives the engine.

use vstd::prelude::*;
use vstd::string::StringExecFns;

use crate::error::Error;
use crate::inclination::{Pointcloud, PointcloudRequest};
use crate::point3d::{Stream, DEFAULT_WANT};

verus! {

/// Reads points and other information from scan files.
#[derive(Debug)]
pub struct Reader {
    path: String,
    sync_to_pps: bool,
    want: u32,
}

impl Reader {
    /// The source file path.
    pub closed spec fn spec_path(&self) -> Seq<char> {
        self.path@
    }

    /// Whether timestamps are synchronized to the PPS signal.
    pub closed spec fn spec_sync_to_pps(&self) -> bool {
        self.sync_to_pps
    }

    /// The number of records requested from the engine per read.
    pub closed spec fn spec_want(&self) -> u32 {
        self.want
    }

    /// The configured batch size is positive.
    pub closed spec fn wf(&self) -> bool {
        self.want >= 1
    }

    /// Creates a new reader for the provided path, with PPS
    /// synchronization off and the default batch size.
    pub fn from_path(path: &str) -> (reader: Reader)
        ensures
            reader.wf(),
            reader.spec_path() == path@,
            reader.spec_sync_to_pps() == false,
            reader.spec_want() == DEFAULT_WANT,
    {
        Reader { path: String::from_str(path), sync_to_pps: false, want: DEFAULT_WANT }
    }

    /// Sets whether timestamps are synchronized to the PPS signal.
    pub fn sync_to_pps(self, sync_to_pps: bool) -> (reader: Reader)
        ensures
            reader.wf() == self.wf(),
            reader.spec_path() == self.spec_path(),
            reader.spec_sync_to_pps() == sync_to_pps,
            reader.spec_want() == self.spec_want(),
    {
        Reader { sync_to_pps, ..self }
    }

    /// Sets the number of records wanted for each read of the underlying
    /// stream.
    pub fn want(self, want: u32) -> (reader: Reader)
        requires
            want >= 1,
        ensures
            reader.wf(),
            reader.spec_path() == self.spec_path(),
            reader.spec_sync_to_pps() == self.spec_sync_to_pps(),
            reader.spec_want() == want,
    {
        Reader { want, ..self }
    }

    /// Lowers this reader into a point-stream builder for its path and
    /// settings, ready for the open step.
    pub fn points_stream(&self) -> (stream: Stream)
        requires
            self.wf(),
        ensures
            stream.spec_uri() == "file:"@ + self.spec_path(),
            stream.spec_sync_to_pps() == self.spec_sync_to_pps(),
            stream.spec_want() == self.spec_want(),
            stream.spec_log() is None,
    {
        Stream::from_path(self.path.as_str()).sync_to_pps(self.sync_to_pps).want(self.want)
    }

    /// Produces the open request for this reader's inclination stream.
    /// Fails, before any engine work, exactly when the path holds an
    /// embedded NUL character.
    pub fn inclinations_request(&self) -> (result: Result<PointcloudRequest, Error>)
        ensures
            match result {
                Ok(request) => {
                    &&& !self.spec_path().contains('\0')
                    &&& request.path@ == self.spec_path()
                    &&& request.sync_to_pps == self.spec_sync_to_pps()
                },
                Err(error) => {
                    &&& self.spec_path().contains('\0')
                    &&& error is Nul
                },
            },
    {
        Pointcloud::open_request(self.path.as_str(), self.sync_to_pps)
    }
}

} // verus!
