//! Inclination streams: the pointcloud handle and the buffered pull
//! protocol over the engine's inclination-read primitive.
//!
//! Inclination records follow the same streaming discipline as points but
//! come from a separate engine entry point with a different raw layout and
//! a different termination signal: the read primitive reports end of input
//! through a dedicated flag rather than through an empty, unsignalled
//! batch.  The record fields are floating-point readings that the core
//! never computes with; they are carried as IEEE-754 bit patterns.

use vstd::prelude::*;
use std::collections::VecDeque;
use vstd::string::StringExecFns;

use crate::error::Error;

verus! {

/// An inclination reading.
#[derive(Clone, Copy, Debug, PartialEq, Eq, Structural)]
pub struct Inclination {
    /// The time the inclination was recorded, in seconds (IEEE-754
    /// double-precision bit pattern).
    pub time: u64,
    /// The rotation around the x-axis in degrees (IEEE-754
    /// single-precision bit pattern).
    pub roll: u32,
    /// The rotation around the y-axis in degrees (IEEE-754
    /// single-precision bit pattern).
    pub pitch: u32,
}

/// Everything the engine's inclination-stream open primitive needs:
/// produced by [`Pointcloud::open_request`] once the path is known to be
/// clean.
#[derive(Debug)]
pub struct PointcloudRequest {
    /// The source path, free of embedded NUL characters.
    pub path: String,
    /// Whether the engine should synchronize timestamps to the PPS signal.
    pub sync_to_pps: bool,
}

/// An open pointcloud: ownership of one inclination-stream engine handle.
pub struct Pointcloud {
    handle: u64,
}

impl Pointcloud {
    /// The engine handle this pointcloud owns.
    pub closed spec fn spec_handle(&self) -> u64 {
        self.handle
    }

    /// Validates the configuration and produces the request the engine's
    /// open primitive is to be called with.  Fails, before any engine
    /// work, exactly when the path holds an embedded NUL character.
    pub fn open_request(path: &str, sync_to_pps: bool) -> (result: Result<PointcloudRequest, Error>)
        ensures
            match result {
                Ok(request) => {
                    &&& !path@.contains('\0')
                    &&& request.path@ == path@
                    &&& request.sync_to_pps == sync_to_pps
                },
                Err(error) => {
                    &&& path@.contains('\0')
                    &&& error is Nul
                },
            },
    {
        if crate::point3d::str_contains_nul(path) {
            Err(Error::Nul)
        } else {
            Ok(PointcloudRequest { path: String::from_str(path), sync_to_pps })
        }
    }

    /// Interprets the outcome of the engine's open primitive.  A zero
    /// status yields a pointcloud owning `handle`; any other status yields
    /// the engine error and no pointcloud, so a failed open never exposes
    /// a handle.
    pub fn finish_open(status: i32, handle: u64) -> (result: Result<Pointcloud, Error>)
        ensures
            result is Ok <==> status == 0,
            match result {
                Ok(pointcloud) => pointcloud.spec_handle() == handle,
                Err(error) => error matches Error::Scanlib { code } && code == status,
            },
    {
        if status != 0 {
            Err(Error::Scanlib { code: status })
        } else {
            Ok(Pointcloud { handle })
        }
    }

    /// The engine handle, for the shell to read with.
    pub fn handle(&self) -> (handle: u64)
        ensures
            handle == self.spec_handle(),
    {
        self.handle
    }

    /// Interprets one engine read outcome.  A nonzero status is the engine
    /// error; a set end-of-input flag is the end of the stream; otherwise
    /// the batch is handed through unchanged and in order — possibly
    /// empty, which means "nothing new yet", not exhaustion.
    pub fn interpret_read(
        &self,
        status: i32,
        records: Vec<Inclination>,
        end_of_input: i32,
    ) -> (result: Result<Option<Vec<Inclination>>, Error>)
        ensures
            result is Ok <==> status == 0,
            match result {
                Ok(batch) => {
                    match batch {
                        Some(kept) => end_of_input != 1 && kept@ == records@,
                        None => end_of_input == 1,
                    }
                },
                Err(error) => error matches Error::Scanlib { code } && code == status,
            },
    {
        if status != 0 {
            Err(Error::Scanlib { code: status })
        } else if end_of_input == 1 {
            Ok(None)
        } else {
            Ok(Some(records))
        }
    }

    /// Gives the engine handle up so the shell can release it.  Consuming
    /// the pointcloud is what makes a double release unrepresentable.
    pub fn close(self) -> (handle: u64)
        ensures
            handle == self.spec_handle(),
    {
        self.handle
    }
}

/// An iterator-shaped state machine over inclination readings: a pointcloud
/// plus the buffered pull protocol, mirroring the point stream's discipline.
pub struct Inclinations {
    buffer: VecDeque<Inclination>,
    pointcloud: Pointcloud,
    exhausted: bool,
    fed: Ghost<Seq<Inclination>>,
    delivered: Ghost<Seq<Inclination>>,
}

impl Inclinations {
    /// The pull protocol's accounting invariant: what has been delivered,
    /// followed by what is still buffered, is exactly what the engine has
    /// fed in, in arrival order.
    pub closed spec fn wf(&self) -> bool {
        self.delivered@ + self.buffer@ == self.fed@
    }

    /// The readings accepted from the engine so far, in arrival order.
    pub closed spec fn spec_fed(&self) -> Seq<Inclination> {
        self.fed@
    }

    /// The readings already handed to the consumer, in order.
    pub closed spec fn spec_delivered(&self) -> Seq<Inclination> {
        self.delivered@
    }

    /// The readings buffered and not yet handed out, in order.
    pub closed spec fn spec_buffer(&self) -> Seq<Inclination> {
        self.buffer@
    }

    /// The engine handle the underlying pointcloud owns.
    pub closed spec fn spec_handle(&self) -> u64 {
        self.pointcloud.spec_handle()
    }

    /// Whether the engine has signalled that the stream is exhausted.
    pub closed spec fn spec_exhausted(&self) -> bool {
        self.exhausted
    }

    /// Starts the pull protocol over an open pointcloud, with an empty
    /// buffer.
    pub fn new(pointcloud: Pointcloud) -> (inclinations: Inclinations)
        ensures
            inclinations.wf(),
            inclinations.spec_buffer() == Seq::<Inclination>::empty(),
            inclinations.spec_delivered() == Seq::<Inclination>::empty(),
            inclinations.spec_fed() == Seq::<Inclination>::empty(),
            !inclinations.spec_exhausted(),
            inclinations.spec_handle() == pointcloud.spec_handle(),
    {
        let inclinations = Inclinations {
            buffer: VecDeque::new(),
            pointcloud,
            exhausted: false,
            fed: Ghost(Seq::empty()),
            delivered: Ghost(Seq::empty()),
        };
        proof {
            assert(inclinations.spec_delivered() + inclinations.spec_buffer()
                =~= inclinations.spec_fed());
        }
        inclinations
    }

    /// The engine handle, for the shell to read with.
    pub fn handle(&self) -> (handle: u64)
        ensures
            handle == self.spec_handle(),
    {
        self.pointcloud.handle()
    }

    /// Whether the engine has signalled that the stream is exhausted;
    /// once true, no further readings will come and the shell must stop
    /// issuing engine reads.
    pub fn is_exhausted(&self) -> (exhausted: bool)
        ensures
            exhausted == self.spec_exhausted(),
    {
        self.exhausted
    }

    /// Interprets one engine read outcome, refilling the buffer: mirrors
    /// the point stream, with the end-of-input flag as the sole
    /// termination signal.
    pub fn apply_read(
        &mut self,
        status: i32,
        records: Vec<Inclination>,
        end_of_input: i32,
    ) -> (result: Result<(), Error>)
        requires
            old(self).wf(),
            old(self).spec_buffer().len() == 0,
            !old(self).spec_exhausted(),
        ensures
            final(self).wf(),
            final(self).spec_handle() == old(self).spec_handle(),
            final(self).spec_delivered() == old(self).spec_delivered(),
            result is Ok <==> status == 0,
            match result {
                Ok(()) => {
                    if end_of_input == 1 {
                        &&& final(self).spec_exhausted()
                        &&& final(self).spec_buffer().len() == 0
                        &&& final(self).spec_fed() == old(self).spec_fed()
                    } else {
                        &&& !final(self).spec_exhausted()
                        &&& final(self).spec_buffer() == records@
                        &&& final(self).spec_fed() == old(self).spec_fed() + records@
                    }
                },
                Err(error) => {
                    &&& *final(self) == *old(self)
                    &&& error matches Error::Scanlib { code }
                    &&& code == status
                },
            },
    {
        if status != 0 {
            return Err(Error::Scanlib { code: status });
        }
        if end_of_input == 1 {
            self.exhausted = true;
            return Ok(());
        }
        let ghost incoming = records@;
        let mut queued: VecDeque<Inclination> = VecDeque::new();
        let mut i: usize = 0;
        let total = records.len();
        while i < total
            invariant
                i <= total,
                total == incoming.len(),
                records@ == incoming,
                queued@ == incoming.take(i as int),
            decreases total - i,
        {
            let reading = records[i];
            proof {
                assert(incoming.take(i + 1) =~= incoming.take(i as int).push(reading));
            }
            queued.push_back(reading);
            i += 1;
        }
        proof {
            assert(queued@ =~= incoming);
        }
        self.buffer = queued;
        proof {
            self.fed@ = self.fed@ + incoming;
            assert(self.delivered@ + self.buffer@ =~= self.fed@);
        }
        Ok(())
    }

    /// Yields the front buffered reading, if any.
    pub fn pop(&mut self) -> (reading: Option<Inclination>)
        requires
            old(self).wf(),
        ensures
            final(self).wf(),
            final(self).spec_handle() == old(self).spec_handle(),
            final(self).spec_fed() == old(self).spec_fed(),
            final(self).spec_exhausted() == old(self).spec_exhausted(),
            match reading {
                Some(front) => {
                    &&& old(self).spec_buffer().len() > 0
                    &&& front == old(self).spec_buffer()[0]
                    &&& final(self).spec_buffer() == old(self).spec_buffer().drop_first()
                    &&& final(self).spec_delivered() == old(self).spec_delivered().push(front)
                },
                None => {
                    &&& old(self).spec_buffer().len() == 0
                    &&& *final(self) == *old(self)
                },
            },
    {
        if self.buffer.len() > 0 {
            let reading = self.buffer.pop_front().unwrap();
            proof {
                self.delivered@ = self.delivered@.push(reading);
                assert(self.delivered@ + self.buffer@ =~= self.fed@);
            }
            Some(reading)
        } else {
            None
        }
    }

    /// Tears the protocol down, giving the engine handle up for release.
    pub fn close(self) -> (handle: u64)
        ensures
            handle == self.spec_handle(),
    {
        self.pointcloud.close()
    }
}

/// An inclination stream accounts for every reading the engine fed it:
/// what it has delivered, followed by what it still buffers, is exactly
/// the fed sequence, in arrival order.
pub proof fn lemma_inclinations_account_for_fed(inclinations: &Inclinations)
    requires
        inclinations.wf(),
    ensures
        inclinations.spec_delivered() + inclinations.spec_buffer() == inclinations.spec_fed(),
{
}

} // verus!
