//! Point streams: source locators, the stream builder, and the buffered
//! pull protocol over the engine's batch-read primitive.
//!
//! The engine itself is driven by an unverified shell.  The split is a
//! simple session: the builder produces an [`OpenRequest`] naming what to
//! open; the shell performs the engine call and hands the outcome back to
//! [`Stream::finish_open`]; thereafter [`OpenStream::advance`] tells the
//! shell when a record is ready, when the engine must be read again, and
//! when the stream is exhausted, and [`OpenStream::apply_read`] interprets
//! each engine read outcome.  Every decision — locator syntax, status
//! interpretation, the end-of-stream rule, decode, ordering — is made and
//! verified here.

use vstd::prelude::*;
use std::collections::VecDeque;
use vstd::string::StrSliceExecFns;
use vstd::string::StringExecFns;

use crate::error::Error;
use crate::point::{Attributes, Point, Xyz32};

verus! {

/// The number of points requested from the engine per read when the caller
/// does not choose a batch size.
pub const DEFAULT_WANT: u32 = 1024;

/// True when the string holds an embedded NUL character, which the engine's
/// C interface cannot carry.
pub(crate) fn str_contains_nul(text: &str) -> (found: bool)
    ensures
        found == text@.contains('\0'),
{
    let length = text.unicode_len();
    let mut found = false;
    let mut i: usize = 0;
    while i < length
        invariant
            i <= length,
            length == text@.len(),
            found == exists|j: int| 0 <= j < i && text@[j] == '\0',
        decreases length - i,
    {
        if text.get_char(i) == '\0' {
            found = true;
        }
        i += 1;
    }
    found
}

/// A source locator, serialized the way the engine expects it: file sources
/// as `file:<path>`, network sources as `rdtp://<address>`.
#[derive(Debug)]
pub enum Uri {
    /// A file source.
    File(String),
    /// A network (rdtp) source.
    Rdtp(String),
}

impl Uri {
    /// The serialized locator string.
    pub open spec fn spec_str(&self) -> Seq<char> {
        match self {
            Uri::File(text) => text@,
            Uri::Rdtp(text) => text@,
        }
    }

    /// Builds the locator for a file path: `file:` followed by the path.
    pub fn from_path(path: &str) -> (uri: Uri)
        ensures
            uri matches Uri::File(text) && text@ == "file:"@ + path@,
            uri.spec_str() == "file:"@ + path@,
    {
        Uri::File(String::from_str("file:").concat(path))
    }

    /// Builds the locator for a network address: `rdtp://` followed by the
    /// address.
    pub fn from_rdtp(rdtp: &str) -> (uri: Uri)
        ensures
            uri matches Uri::Rdtp(text) && text@ == "rdtp://"@ + rdtp@,
            uri.spec_str() == "rdtp://"@ + rdtp@,
    {
        Uri::Rdtp(String::from_str("rdtp://").concat(rdtp))
    }

    /// The serialized locator string.
    pub fn as_str(&self) -> (text: &str)
        ensures
            text@ == self.spec_str(),
    {
        match self {
            Uri::File(text) => text.as_str(),
            Uri::Rdtp(text) => text.as_str(),
        }
    }
}

impl PartialEq for Uri {
    fn eq(&self, other: &Uri) -> (same: bool) {
        match (self, other) {
            (Uri::File(text), Uri::File(other_text)) => *text == *other_text,
            (Uri::Rdtp(text), Uri::Rdtp(other_text)) => *text == *other_text,
            _ => false,
        }
    }
}

impl vstd::std_specs::cmp::PartialEqSpecImpl for Uri {
    open spec fn obeys_eq_spec() -> bool {
        true
    }

    open spec fn eq_spec(&self, other: &Uri) -> bool {
        match (self, other) {
            (Uri::File(text), Uri::File(other_text)) => text@ == other_text@,
            (Uri::Rdtp(text), Uri::Rdtp(other_text)) => text@ == other_text@,
            _ => false,
        }
    }
}

/// A stream of 3D points, before it is opened.
///
/// Follows the builder pattern: each setter returns the updated value, no
/// setter performs any engine work, and the configuration is consumed by the
/// open step.
#[derive(Debug)]
pub struct Stream {
    log: Option<String>,
    sync_to_pps: bool,
    uri: Uri,
    want: u32,
}

/// Everything the engine's open primitive needs: produced by
/// [`Stream::open_request`] once the locator is known to be clean.
#[derive(Debug)]
pub struct OpenRequest {
    /// The serialized locator, free of embedded NUL characters.
    pub uri: String,
    /// Whether the engine should synchronize timestamps to the PPS signal.
    pub sync_to_pps: bool,
    /// An optional log file path for the engine's side-channel logging.
    pub log: Option<String>,
}

impl Stream {
    /// The serialized locator this stream will open.
    pub closed spec fn spec_uri(&self) -> Seq<char> {
        self.uri.spec_str()
    }

    /// Whether timestamps are synchronized to the PPS signal.
    pub closed spec fn spec_sync_to_pps(&self) -> bool {
        self.sync_to_pps
    }

    /// The number of points requested from the engine per read.
    pub closed spec fn spec_want(&self) -> u32 {
        self.want
    }

    /// The configured log path, if any.
    pub closed spec fn spec_log(&self) -> Option<Seq<char>> {
        match &self.log {
            Some(path) => Some(path@),
            None => None,
        }
    }

    /// Creates a new stream for the provided file path, with PPS
    /// synchronization on, the default batch size, and no logging.
    pub fn from_path(path: &str) -> (stream: Stream)
        ensures
            stream.spec_uri() == "file:"@ + path@,
            stream.spec_sync_to_pps() == true,
            stream.spec_want() == DEFAULT_WANT,
            stream.spec_log() is None,
    {
        Stream { log: None, sync_to_pps: true, uri: Uri::from_path(path), want: DEFAULT_WANT }
    }

    /// Creates a new stream for the provided rdtp address, with PPS
    /// synchronization on, the default batch size, and no logging.
    pub fn from_rdtp(rdtp: &str) -> (stream: Stream)
        ensures
            stream.spec_uri() == "rdtp://"@ + rdtp@,
            stream.spec_sync_to_pps() == true,
            stream.spec_want() == DEFAULT_WANT,
            stream.spec_log() is None,
    {
        Stream { log: None, sync_to_pps: true, uri: Uri::from_rdtp(rdtp), want: DEFAULT_WANT }
    }

    /// Sets whether timestamps are synchronized to the PPS signal.
    pub fn sync_to_pps(self, sync_to_pps: bool) -> (stream: Stream)
        ensures
            stream.spec_uri() == self.spec_uri(),
            stream.spec_sync_to_pps() == sync_to_pps,
            stream.spec_want() == self.spec_want(),
            stream.spec_log() == self.spec_log(),
    {
        Stream { sync_to_pps, ..self }
    }

    /// Sets the number of points requested from the engine on each read.
    pub fn want(self, want: u32) -> (stream: Stream)
        requires
            want >= 1,
        ensures
            stream.spec_uri() == self.spec_uri(),
            stream.spec_sync_to_pps() == self.spec_sync_to_pps(),
            stream.spec_want() == want,
            stream.spec_log() == self.spec_log(),
    {
        Stream { want, ..self }
    }

    /// Sets the log file path for this stream; `None` opens the stream
    /// without logging.
    pub fn log(self, log: Option<String>) -> (stream: Stream)
        ensures
            stream.spec_uri() == self.spec_uri(),
            stream.spec_sync_to_pps() == self.spec_sync_to_pps(),
            stream.spec_want() == self.spec_want(),
            stream.spec_log() == log.deep_view(),
    {
        Stream { log, ..self }
    }

    /// Validates the configuration and produces the request the engine's
    /// open primitive is to be called with.  Fails, before any engine work,
    /// exactly when the locator holds an embedded NUL character.
    pub fn open_request(&self) -> (result: Result<OpenRequest, Error>)
        ensures
            match result {
                Ok(request) => {
                    &&& !self.spec_uri().contains('\0')
                    &&& request.uri@ == self.spec_uri()
                    &&& request.sync_to_pps == self.spec_sync_to_pps()
                    &&& request.log.deep_view() == self.spec_log()
                },
                Err(error) => {
                    &&& self.spec_uri().contains('\0')
                    &&& error is Nul
                },
            },
    {
        if str_contains_nul(self.uri.as_str()) {
            Err(Error::Nul)
        } else {
            let log = match &self.log {
                Some(path) => Some(path.clone()),
                None => None,
            };
            Ok(
                OpenRequest {
                    uri: String::from_str(self.uri.as_str()),
                    sync_to_pps: self.sync_to_pps,
                    log,
                },
            )
        }
    }

    /// Interprets the outcome of the engine's open primitive.  A zero
    /// status yields an open stream owning `handle`, with an empty buffer;
    /// any other status yields the engine error and no stream, so a failed
    /// open never exposes a handle.
    pub fn finish_open(&self, status: i32, message: Option<String>, handle: u64) -> (result: Result<
        OpenStream,
        Error,
    >)
        ensures
            result is Ok <==> status == 0,
            match result {
                Ok(stream) => {
                    &&& stream.wf()
                    &&& stream.spec_buffer() == Seq::<Point>::empty()
                    &&& stream.spec_delivered() == Seq::<Point>::empty()
                    &&& stream.spec_fed() == Seq::<Point>::empty()
                    &&& !stream.spec_exhausted()
                    &&& stream.spec_want() == if self.spec_want() >= 1 {
                        self.spec_want()
                    } else {
                        DEFAULT_WANT
                    }
                    &&& stream.spec_handle() == handle
                },
                Err(error) => {
                    &&& error matches Error::Scanifc { code, message: text }
                    &&& code == status
                    &&& text.deep_view() == message.deep_view()
                },
            },
    {
        if status != 0 {
            Err(Error::Scanifc { code: status, message })
        } else {
            let want = if self.want >= 1 {
                self.want
            } else {
                DEFAULT_WANT
            };
            let stream = OpenStream {
                buffer: VecDeque::new(),
                handle,
                want,
                exhausted: false,
                fed: Ghost(Seq::empty()),
                delivered: Ghost(Seq::empty()),
            };
            proof {
                assert(stream.spec_delivered() + stream.spec_buffer() =~= stream.spec_fed());
            }
            Ok(stream)
        }
    }
}

/// An open stream of points: the state of the buffered pull protocol.
///
/// The stream owns the engine handle it was opened with.  Records leave in
/// arrival order; the buffer never holds more than one engine batch.  The
/// handle leaves the stream only through [`OpenStream::close`], which
/// consumes it, so it cannot be released twice.
pub struct OpenStream {
    buffer: VecDeque<Point>,
    handle: u64,
    want: u32,
    exhausted: bool,
    fed: Ghost<Seq<Point>>,
    delivered: Ghost<Seq<Point>>,
}

/// What the pull protocol asks of the shell next.
#[derive(Clone, Copy, Debug, PartialEq, Eq, Structural)]
pub enum Step {
    /// A record is ready; hand it to the consumer.
    Yield(Point),
    /// The buffer is drained and the engine has not signalled the end:
    /// read the next batch and pass the outcome to `apply_read`.
    NeedRead,
    /// The stream is exhausted; no further records will come.
    Done,
}

/// The outcome of one engine batch read, as the unverified shell hands it
/// over: the primitive's status code, the (possibly over-allocated) raw
/// field arrays, the count of entries actually filled, and the end-of-frame
/// signal.  `message` carries the engine's last-error text when the status
/// is nonzero.
#[derive(Debug)]
pub struct ReadResponse {
    /// The status code the read primitive returned.
    pub status: i32,
    /// The engine's last-error text, when `status` is nonzero and the
    /// last-error query succeeded.
    pub message: Option<String>,
    /// The coordinate array, filled in its first `got` entries.
    pub xyz: Vec<Xyz32>,
    /// The attribute array, filled in its first `got` entries.
    pub attributes: Vec<Attributes>,
    /// The timestamp array, filled in its first `got` entries.
    pub times: Vec<u64>,
    /// How many entries the engine filled.
    pub got: u32,
    /// The engine's end-of-frame signal.
    pub end_of_frame: i32,
}

impl ReadResponse {
    /// The engine filled no more entries than the arrays hold.
    pub open spec fn wf(&self) -> bool {
        &&& self.got as int <= self.xyz@.len()
        &&& self.got as int <= self.attributes@.len()
        &&& self.got as int <= self.times@.len()
    }

    /// The decoded records of this batch: the first `got` raw entries,
    /// decoded in order.  Trailing unfilled entries are never surfaced.
    pub open spec fn spec_points(&self) -> Seq<Point> {
        Seq::new(
            self.got as nat,
            |i: int| Point::spec_decode(self.xyz@[i], self.attributes@[i], self.times@[i]),
        )
    }
}

impl OpenStream {
    /// The pull protocol's accounting invariant: what has been delivered,
    /// followed by what is still buffered, is exactly what the engine has
    /// fed in, in arrival order; and the configured batch size is positive.
    pub closed spec fn wf(&self) -> bool {
        &&& self.delivered@ + self.buffer@ == self.fed@
        &&& self.want >= 1
    }

    /// The records decoded from the engine so far, in arrival order.
    pub closed spec fn spec_fed(&self) -> Seq<Point> {
        self.fed@
    }

    /// The records already handed to the consumer, in order.
    pub closed spec fn spec_delivered(&self) -> Seq<Point> {
        self.delivered@
    }

    /// The records buffered and not yet handed out, in order.
    pub closed spec fn spec_buffer(&self) -> Seq<Point> {
        self.buffer@
    }

    /// The engine handle this stream owns.
    pub closed spec fn spec_handle(&self) -> u64 {
        self.handle
    }

    /// The number of points requested from the engine per read.
    pub closed spec fn spec_want(&self) -> u32 {
        self.want
    }

    /// Whether the engine has signalled that the stream is exhausted.
    pub closed spec fn spec_exhausted(&self) -> bool {
        self.exhausted
    }

    /// The engine handle, for the shell to read with.
    pub fn handle(&self) -> (handle: u64)
        ensures
            handle == self.spec_handle(),
    {
        self.handle
    }

    /// The number of points to request from the engine per read.
    pub fn want(&self) -> (want: u32)
        ensures
            want == self.spec_want(),
    {
        self.want
    }

    /// One step of the pull protocol: drain the buffer first; once it is
    /// empty, either report exhaustion or ask for the next engine read.
    /// Yielding pops the front record — arrival order, never reordered.
    pub fn advance(&mut self) -> (step: Step)
        requires
            old(self).wf(),
        ensures
            final(self).wf(),
            final(self).spec_handle() == old(self).spec_handle(),
            final(self).spec_want() == old(self).spec_want(),
            final(self).spec_fed() == old(self).spec_fed(),
            final(self).spec_exhausted() == old(self).spec_exhausted(),
            match step {
                Step::Yield(point) => {
                    &&& old(self).spec_buffer().len() > 0
                    &&& point == old(self).spec_buffer()[0]
                    &&& final(self).spec_buffer() == old(self).spec_buffer().drop_first()
                    &&& final(self).spec_delivered() == old(self).spec_delivered().push(point)
                },
                Step::NeedRead => {
                    &&& old(self).spec_buffer().len() == 0
                    &&& !old(self).spec_exhausted()
                    &&& *final(self) == *old(self)
                },
                Step::Done => {
                    &&& old(self).spec_buffer().len() == 0
                    &&& old(self).spec_exhausted()
                    &&& *final(self) == *old(self)
                },
            },
    {
        if self.buffer.len() > 0 {
            let point = self.buffer.pop_front().unwrap();
            proof {
                self.delivered@ = self.delivered@.push(point);
                assert(self.delivered@ + self.buffer@ =~= self.fed@);
            }
            Step::Yield(point)
        } else if self.exhausted {
            Step::Done
        } else {
            Step::NeedRead
        }
    }

    /// Interprets one engine read outcome, refilling the buffer.
    ///
    /// - Nonzero status: the engine error is returned and the stream is
    ///   left exactly as it was, so a later read may retry.
    /// - Zero status with no records and no end-of-frame signal: genuine
    ///   end of stream; the stream is exhausted for good.
    /// - Zero status otherwise: the first `got` raw entries are decoded
    ///   into the buffer in order.  With `got == 0` and the end-of-frame
    ///   signal set this is an empty heartbeat batch: the buffer stays
    ///   empty and the stream stays open.
    pub fn apply_read(&mut self, response: ReadResponse) -> (result: Result<(), Error>)
        requires
            old(self).wf(),
            old(self).spec_buffer().len() == 0,
            !old(self).spec_exhausted(),
            response.wf(),
        ensures
            final(self).wf(),
            final(self).spec_handle() == old(self).spec_handle(),
            final(self).spec_want() == old(self).spec_want(),
            final(self).spec_delivered() == old(self).spec_delivered(),
            result is Ok <==> response.status == 0,
            match result {
                Ok(()) => {
                    if response.got == 0 && response.end_of_frame == 0 {
                        &&& final(self).spec_exhausted()
                        &&& final(self).spec_buffer().len() == 0
                        &&& final(self).spec_fed() == old(self).spec_fed()
                    } else {
                        &&& !final(self).spec_exhausted()
                        &&& final(self).spec_buffer() == response.spec_points()
                        &&& final(self).spec_fed() == old(self).spec_fed()
                            + response.spec_points()
                    }
                },
                Err(error) => {
                    &&& *final(self) == *old(self)
                    &&& error matches Error::Scanifc { code, message }
                    &&& code == response.status
                    &&& message.deep_view() == response.message.deep_view()
                },
            },
    {
        if response.status != 0 {
            return Err(Error::Scanifc { code: response.status, message: response.message });
        }
        if response.got == 0 && response.end_of_frame == 0 {
            self.exhausted = true;
            return Ok(());
        }
        let got = response.got as usize;
        let mut i: usize = 0;
        while i < got
            invariant
                i <= got,
                got == response.got as int,
                response.wf(),
                self.buffer@ == response.spec_points().take(i as int),
                self.handle == old(self).spec_handle(),
                self.want == old(self).spec_want(),
                self.want >= 1,
                self.exhausted == old(self).spec_exhausted(),
                self.fed@ == old(self).spec_fed(),
                self.delivered@ == old(self).spec_delivered(),
            decreases got - i,
        {
            let point = Point::from_raw(response.xyz[i], response.attributes[i], response.times[i]);
            proof {
                assert(response.spec_points().take(i + 1) =~= response.spec_points().take(
                    i as int,
                ).push(point));
            }
            self.buffer.push_back(point);
            i += 1;
        }
        proof {
            assert(self.buffer@ =~= response.spec_points());
            self.fed@ = self.fed@ + response.spec_points();
            assert(self.delivered@ + self.buffer@ =~= self.fed@);
        }
        Ok(())
    }

    /// Validates the strings a demultiplexer is to be attached with and
    /// produces the request for the engine's demultiplexer primitive,
    /// which writes selected packets of the stream to a file.  Fails,
    /// before any engine work, exactly when one of the strings holds an
    /// embedded NUL character.
    pub fn demultiplexer_request(
        &self,
        filename: &str,
        selections: &str,
        classes: &str,
    ) -> (result: Result<DemuxRequest, Error>)
        ensures
            match result {
                Ok(request) => {
                    &&& !filename@.contains('\0')
                    &&& !selections@.contains('\0')
                    &&& !classes@.contains('\0')
                    &&& request.handle == self.spec_handle()
                    &&& request.filename@ == filename@
                    &&& request.selections@ == selections@
                    &&& request.classes@ == classes@
                },
                Err(error) => {
                    &&& (filename@.contains('\0') || selections@.contains('\0')
                        || classes@.contains('\0'))
                    &&& error is Nul
                },
            },
    {
        if str_contains_nul(filename) || str_contains_nul(selections) || str_contains_nul(
            classes,
        ) {
            Err(Error::Nul)
        } else {
            Ok(
                DemuxRequest {
                    handle: self.handle,
                    filename: String::from_str(filename),
                    selections: String::from_str(selections),
                    classes: String::from_str(classes),
                },
            )
        }
    }

    /// Gives the engine handle up so the shell can release it.  Consuming
    /// the stream is what makes a double release unrepresentable: once
    /// closed, the stream is gone and the handle cannot be read again.
    pub fn close(self) -> (handle: u64)
        ensures
            handle == self.spec_handle(),
    {
        self.handle
    }
}

/// Everything the engine's demultiplexer primitive needs: the handle of
/// the stream to attach to and three clean C-string arguments.
#[derive(Debug)]
pub struct DemuxRequest {
    /// The handle of the stream the demultiplexer attaches to.
    pub handle: u64,
    /// The file the selected packets are written to.
    pub filename: String,
    /// Which packets to select.
    pub selections: String,
    /// Which packet classes to include.
    pub classes: String,
}

/// What a raw record stream decodes to, record by record, in order.
pub open spec fn spec_decode_records(records: Seq<(Xyz32, Attributes, u64)>) -> Seq<Point> {
    records.map_values(|record: (Xyz32, Attributes, u64)| Point::spec_decode(record.0, record.1, record.2))
}

/// Decoding ignores batching: however the engine cuts one raw record
/// stream into batches, decoding the whole stream equals concatenating the
/// decodes of the batches.  So iterating with any batch size yields the
/// same records, in the same order, as iterating with batch size one.
pub proof fn lemma_decode_ignores_batching(batches: Seq<Seq<(Xyz32, Attributes, u64)>>)
    ensures
        spec_decode_records(batches.flatten()) == batches.map_values(
            |batch: Seq<(Xyz32, Attributes, u64)>| spec_decode_records(batch),
        ).flatten(),
    decreases batches.len(),
{
    let decode_batch = |batch: Seq<(Xyz32, Attributes, u64)>| spec_decode_records(batch);
    if batches.len() == 0 {
        assert(batches.flatten() =~= Seq::<(Xyz32, Attributes, u64)>::empty());
        assert(spec_decode_records(batches.flatten()) =~= Seq::<Point>::empty());
        assert(batches.map_values(decode_batch).flatten() =~= Seq::<Point>::empty());
    } else {
        let rest = batches.drop_first();
        lemma_decode_ignores_batching(rest);
        assert(batches.map_values(decode_batch).drop_first() =~= rest.map_values(decode_batch));
        assert(spec_decode_records(batches.first() + rest.flatten()) =~= spec_decode_records(
            batches.first(),
        ) + spec_decode_records(rest.flatten()));
        assert(batches.map_values(decode_batch).first() == spec_decode_records(batches.first()));
        assert(spec_decode_records(batches.flatten()) =~= batches.map_values(
            decode_batch,
        ).flatten());
    }
}

/// A stream accounts for every record the engine fed it: what it has
/// delivered, followed by what it still buffers, is exactly the decode of
/// the fed records, in arrival order — nothing lost, nothing duplicated,
/// nothing reordered.
pub proof fn lemma_stream_accounts_for_fed(stream: &OpenStream)
    requires
        stream.wf(),
    ensures
        stream.spec_delivered() + stream.spec_buffer() == stream.spec_fed(),
{
}

/// Reading to exhaustion is deterministic in the source: two streams that
/// were fed the same records and are both drained (buffer empty, engine
/// exhausted) have delivered exactly the same sequence — in particular,
/// the same count.
pub proof fn lemma_exhausted_streams_agree(first: &OpenStream, second: &OpenStream)
    requires
        first.wf(),
        second.wf(),
        first.spec_buffer().len() == 0,
        first.spec_exhausted(),
        second.spec_buffer().len() == 0,
        second.spec_exhausted(),
        first.spec_fed() == second.spec_fed(),
    ensures
        first.spec_delivered() == second.spec_delivered(),
{
    assert(first.spec_delivered() =~= first.spec_delivered() + first.spec_buffer());
    assert(second.spec_delivered() =~= second.spec_delivered() + second.spec_buffer());
}

} // verus!
