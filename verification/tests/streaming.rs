//! Scenario tests for the buffered point-stream protocol, driven by a
//! scripted stand-in for the engine's read primitive.

use rivlib::point::{Attributes, Point, Xyz32};
use rivlib::point3d::{OpenStream, ReadResponse, Step, Stream};
use rivlib::Error;

/// One scripted raw record with a recognizable timestamp.
fn raw(i: u64) -> (Xyz32, Attributes, u64) {
    (
        Xyz32 { x: i as u32, y: 2 * i as u32, z: 3 * i as u32 },
        Attributes {
            amplitude: 0,
            reflectance: 0,
            deviation: (i % 7) as u16,
            flags: (i % 1024) as u16,
        },
        i,
    )
}

/// A successful read outcome carrying the given raw records.
fn batch(records: &[(Xyz32, Attributes, u64)], end_of_frame: i32) -> ReadResponse {
    ReadResponse {
        status: 0,
        message: None,
        xyz: records.iter().map(|r| r.0).collect(),
        attributes: records.iter().map(|r| r.1).collect(),
        times: records.iter().map(|r| r.2).collect(),
        got: records.len() as u32,
        end_of_frame,
    }
}

/// The end-of-stream outcome: nothing filled, no end-of-frame signal.
fn end_of_stream() -> ReadResponse {
    ReadResponse {
        status: 0,
        message: None,
        xyz: Vec::new(),
        attributes: Vec::new(),
        times: Vec::new(),
        got: 0,
        end_of_frame: 0,
    }
}

/// Runs the pull protocol to exhaustion against a script of read
/// outcomes, returning every yielded point and the number of engine
/// reads issued.
fn drain(mut stream: OpenStream, script: Vec<ReadResponse>) -> (Vec<Point>, usize) {
    let mut yielded = Vec::new();
    let mut responses = script.into_iter();
    let mut reads = 0;
    loop {
        match stream.advance() {
            Step::Yield(point) => yielded.push(point),
            Step::Done => return (yielded, reads),
            Step::NeedRead => {
                let response = responses.next().expect("read past the scripted stream");
                reads += 1;
                stream.apply_read(response).expect("scripted read failed");
            }
        }
    }
}

fn open(stream: Stream) -> OpenStream {
    stream.finish_open(0, None, 7).unwrap()
}

#[test]
fn stream() {
    // A stream of exactly 24390 records, read with the default batch size.
    let records: Vec<_> = (0..24390).map(raw).collect();
    let mut script: Vec<ReadResponse> = records.chunks(1024).map(|c| batch(c, 0)).collect();
    script.push(end_of_stream());
    let (points, _) = drain(open(Stream::from_path("data/scan.rxp")), script);
    assert_eq!(24390, points.len());
}

#[test]
fn stream_sync_to_pps() {
    // The same full consumption with PPS synchronization off.
    let records: Vec<_> = (0..24390).map(raw).collect();
    let mut script: Vec<ReadResponse> = records.chunks(1024).map(|c| batch(c, 0)).collect();
    script.push(end_of_stream());
    let (points, _) = drain(
        open(Stream::from_path("data/scan.rxp").sync_to_pps(false)),
        script,
    );
    assert_eq!(24390, points.len());
}

#[test]
fn stream_want() {
    // With a batch size of one, each engine read yields exactly one
    // record: three records take four reads (the last read reports the
    // end), and the records come back one per read, in order.
    let records: Vec<_> = (0..3).map(raw).collect();
    let mut script: Vec<ReadResponse> = records.chunks(1).map(|c| batch(c, 0)).collect();
    script.push(end_of_stream());
    let opened = open(Stream::from_path("data/scan.rxp").want(1));
    assert_eq!(1, opened.want());
    let (points, reads) = drain(opened, script);
    assert_eq!(3, points.len());
    assert_eq!(4, reads);
}

#[test]
fn read_to_eof() {
    // One read large enough for the whole stream returns every record;
    // the next read reports the end.
    let records: Vec<_> = (0..177208).map(raw).collect();
    let script = vec![batch(&records, 0), end_of_stream()];
    let opened = open(Stream::from_path("data/130501_232206_cut.rxp").want(177208));
    let (points, reads) = drain(opened, script);
    assert_eq!(177208, points.len());
    assert_eq!(2, reads);
}

#[test]
fn batch_size_does_not_change_the_records() {
    // The same underlying records, cut as one batch of ten and as ten
    // batches of one, decode to the same sequence.
    let records: Vec<_> = (0..10).map(raw).collect();
    let mut whole: Vec<ReadResponse> = vec![batch(&records, 0)];
    whole.push(end_of_stream());
    let mut single: Vec<ReadResponse> = records.chunks(1).map(|c| batch(c, 0)).collect();
    single.push(end_of_stream());

    let (points_whole, _) = drain(open(Stream::from_path("data/scan.rxp")), whole);
    let (points_single, _) = drain(open(Stream::from_path("data/scan.rxp").want(1)), single);
    assert_eq!(points_whole, points_single);
    assert_eq!(10, points_whole.len());
}

#[test]
fn records_keep_arrival_order() {
    let records: Vec<_> = (0..5).map(raw).collect();
    let mut script = vec![batch(&records, 0)];
    script.push(end_of_stream());
    let (points, _) = drain(open(Stream::from_path("data/scan.rxp")), script);
    let times: Vec<u64> = points.iter().map(|p| p.time).collect();
    assert_eq!(vec![0, 1, 2, 3, 4], times);
}

#[test]
fn trailing_unfilled_slots_are_discarded() {
    // The engine may fill fewer entries than the arrays hold; only the
    // first `got` are surfaced.
    let records: Vec<_> = (0..4).map(raw).collect();
    let mut response = batch(&records, 0);
    response.got = 2;
    let script = vec![response, end_of_stream()];
    let (points, _) = drain(open(Stream::from_path("data/scan.rxp")), script);
    assert_eq!(2, points.len());
}

#[test]
fn empty_batch_with_end_of_frame_is_not_the_end() {
    // An end-of-frame heartbeat with zero new records must not terminate
    // the stream: reading continues and later records still arrive.
    let records: Vec<_> = (0..2).map(raw).collect();
    let script = vec![
        batch(&[], 1),
        batch(&records, 0),
        end_of_stream(),
    ];
    let (points, reads) = drain(open(Stream::from_path("data/scan.rxp")), script);
    assert_eq!(2, points.len());
    assert_eq!(3, reads);
}

#[test]
fn read_error_reports_and_allows_retry() {
    let mut stream = open(Stream::from_path("data/scan.rxp"));
    assert_eq!(Step::NeedRead, stream.advance());

    let failed = ReadResponse {
        status: -7,
        message: Some("transient".to_string()),
        xyz: Vec::new(),
        attributes: Vec::new(),
        times: Vec::new(),
        got: 0,
        end_of_frame: 0,
    };
    match stream.apply_read(failed) {
        Err(Error::Scanifc { code, message }) => {
            assert_eq!(-7, code);
            assert_eq!(Some("transient".to_string()), message);
        }
        other => panic!("expected an engine error, got {:?}", other),
    }

    // The stream did not latch the failure: a retry succeeds and the
    // record comes through.
    assert_eq!(Step::NeedRead, stream.advance());
    let records: Vec<_> = (0..1).map(raw).collect();
    stream.apply_read(batch(&records, 0)).unwrap();
    match stream.advance() {
        Step::Yield(point) => assert_eq!(0, point.time),
        other => panic!("expected a record, got {:?}", other),
    }
}

#[test]
fn failed_open_never_exposes_a_stream() {
    let stream = Stream::from_path("no/such/file.rxp");
    let result = stream.finish_open(-1, Some("not found".to_string()), 0);
    match result {
        Err(Error::Scanifc { code, message }) => {
            assert_eq!(-1, code);
            assert_eq!(Some("not found".to_string()), message);
        }
        Ok(_) => panic!("a failed open must not yield a stream"),
        Err(other) => panic!("unexpected error {:?}", other),
    }
}

#[test]
fn close_returns_the_owned_handle() {
    let stream = Stream::from_path("data/scan.rxp");
    let opened = stream.finish_open(0, None, 42).unwrap();
    assert_eq!(42, opened.handle());
    // `close` consumes the stream, so the handle can be released exactly
    // once; afterwards the stream is gone.
    assert_eq!(42, opened.close());
}

#[test]
fn demultiplexer_request_validates_strings() {
    let opened = open(Stream::from_path("data/scan.rxp"));
    let request = opened
        .demultiplexer_request("/dev/null", "beam_geometry", "all")
        .unwrap();
    assert_eq!(opened.handle(), request.handle);
    assert_eq!("/dev/null", request.filename);
    assert_eq!("beam_geometry", request.selections);
    assert_eq!("all", request.classes);

    let bad = opened.demultiplexer_request("a\0b", "beam_geometry", "all");
    assert!(matches!(bad, Err(Error::Nul)));
}
