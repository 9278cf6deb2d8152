//! Scenario tests for the inclination-stream protocol, driven by a
//! scripted stand-in for the engine's inclination primitives.

use rivlib::inclination::PointcloudRequest;
use rivlib::{Error, Inclination, Inclinations, Pointcloud};

fn reading(time: f64, roll: f32, pitch: f32) -> Inclination {
    Inclination {
        time: time.to_bits(),
        roll: roll.to_bits(),
        pitch: pitch.to_bits(),
    }
}

fn open_pointcloud() -> Pointcloud {
    Pointcloud::finish_open(0, 11).unwrap()
}

/// Runs the pull protocol to exhaustion against a script of read
/// outcomes, each a `(status, records, end_of_input)` triple.
fn drain(
    mut inclinations: Inclinations,
    script: Vec<(i32, Vec<Inclination>, i32)>,
) -> Vec<Inclination> {
    let mut yielded = Vec::new();
    let mut outcomes = script.into_iter();
    loop {
        if let Some(front) = inclinations.pop() {
            yielded.push(front);
        } else if inclinations.is_exhausted() {
            return yielded;
        } else {
            let (status, records, end_of_input) =
                outcomes.next().expect("read past the scripted stream");
            inclinations
                .apply_read(status, records, end_of_input)
                .expect("scripted read failed");
        }
    }
}

#[test]
fn pointcloud_open_request_checks_path() {
    let request: PointcloudRequest = Pointcloud::open_request("../data/scan.rxp", false).unwrap();
    assert_eq!("../data/scan.rxp", request.path);
    assert!(!request.sync_to_pps);

    let bad = Pointcloud::open_request("bad\0path", true);
    assert!(matches!(bad, Err(Error::Nul)));
}

#[test]
fn pointcloud_failed_open_never_exposes_a_handle() {
    let result = Pointcloud::finish_open(3, 99);
    assert!(matches!(result, Err(Error::Scanlib { code: 3 })));
}

#[test]
fn pointcloud_interpret_read() {
    let pointcloud = open_pointcloud();
    let records = vec![reading(1.0, 0.5, -0.5)];

    let failed = pointcloud.interpret_read(-2, records.clone(), 0);
    assert!(matches!(failed, Err(Error::Scanlib { code: -2 })));

    let ended = pointcloud.interpret_read(0, records.clone(), 1).unwrap();
    assert!(ended.is_none());

    let delivered = pointcloud.interpret_read(0, records.clone(), 0).unwrap();
    assert_eq!(Some(records), delivered);
}

#[test]
fn inclination_fixture_replay() {
    // A fixture of exactly 36 samples with the recognizable first and
    // last readings, fed in uneven batches.
    let mut samples = Vec::new();
    for i in 0..36u32 {
        let t = 0.5 + 1.9214 * f64::from(i);
        samples.push(reading(t, -8.44 - 0.0003 * i as f32, -0.98 - 0.0007 * i as f32));
    }
    samples[0] = reading(0.5, -8.442, -0.981);
    samples[35] = reading(67.7494, -8.451, -1.004);

    let script = vec![
        (0, samples[0..10].to_vec(), 0),
        (0, Vec::new(), 0),
        (0, samples[10..36].to_vec(), 0),
        (0, Vec::new(), 1),
    ];
    let yielded = drain(Inclinations::new(open_pointcloud()), script);
    assert_eq!(36, yielded.len());

    let first = yielded[0];
    assert!((f32::from_bits(first.roll) - (-8.442)).abs() < 1e-3);
    assert!((f32::from_bits(first.pitch) - (-0.981)).abs() < 1e-3);

    let last = yielded[35];
    assert!((f64::from_bits(last.time) - 67.7494).abs() < 1e-4);
    assert!((f32::from_bits(last.roll) - (-8.451)).abs() < 1e-3);
    assert!((f32::from_bits(last.pitch) - (-1.004)).abs() < 1e-3);
}

#[test]
fn inclination_read_error_allows_retry() {
    let mut inclinations = Inclinations::new(open_pointcloud());
    let outcome = inclinations.apply_read(5, Vec::new(), 0);
    assert!(matches!(outcome, Err(Error::Scanlib { code: 5 })));
    assert!(!inclinations.is_exhausted());

    let records = vec![reading(2.0, 1.0, -1.0)];
    inclinations.apply_read(0, records.clone(), 0).unwrap();
    assert_eq!(Some(records[0]), inclinations.pop());
    assert_eq!(None, inclinations.pop());
}

#[test]
fn inclination_close_returns_the_owned_handle() {
    let inclinations = Inclinations::new(open_pointcloud());
    assert_eq!(11, inclinations.handle());
    assert_eq!(11, inclinations.close());
    let pointcloud = open_pointcloud();
    assert_eq!(11, pointcloud.close());
}
