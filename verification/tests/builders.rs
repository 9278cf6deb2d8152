//! Tests for the source locators and the builder types.

use rivlib::point3d::{Stream, Uri};
use rivlib::reader::Reader;
use rivlib::Error;

#[test]
fn uri_from_path() {
    let uri = Uri::from_path("a/path/to/a/file.rxp");
    assert_eq!(Uri::File("file:a/path/to/a/file.rxp".to_string()), uri);
}

#[test]
fn uri_from_rdtp() {
    let uri = Uri::from_rdtp("192.168.0.33/current?type=mon");
    assert_eq!(
        Uri::Rdtp("rdtp://192.168.0.33/current?type=mon".to_string()),
        uri
    );
}

#[test]
fn uri_as_str() {
    assert_eq!("file:scan.rxp", Uri::from_path("scan.rxp").as_str());
    assert_eq!("rdtp://host/live", Uri::from_rdtp("host/live").as_str());
}

#[test]
fn uri_variants_differ() {
    assert_ne!(Uri::from_path("x"), Uri::from_rdtp("x"));
    assert_ne!(Uri::from_path("x"), Uri::from_path("y"));
}

#[test]
fn reader_from_path() {
    Reader::from_path("data/scan.rxp");
}

#[test]
fn sync_to_pps() {
    Reader::from_path("data/scan.rxp").sync_to_pps(true);
}

#[test]
fn stream_open_request_carries_configuration() {
    let stream = Stream::from_path("data/scan.rxp")
        .sync_to_pps(false)
        .want(1)
        .log(Some("side.log".to_string()));
    let request = stream.open_request().unwrap();
    assert_eq!("file:data/scan.rxp", request.uri);
    assert!(!request.sync_to_pps);
    assert_eq!(Some("side.log".to_string()), request.log);
}

#[test]
fn stream_open_request_defaults() {
    let request = Stream::from_rdtp("192.168.0.33/current").open_request().unwrap();
    assert_eq!("rdtp://192.168.0.33/current", request.uri);
    assert!(request.sync_to_pps);
    assert_eq!(None, request.log);
}

#[test]
fn stream_open_request_rejects_embedded_nul() {
    let result = Stream::from_path("bad\0path.rxp").open_request();
    assert!(matches!(result, Err(Error::Nul)));
}

#[test]
fn reader_lowers_into_point_stream() {
    let reader = Reader::from_path("data/scan.rxp").sync_to_pps(true).want(10);
    let request = reader.points_stream().open_request().unwrap();
    assert_eq!("file:data/scan.rxp", request.uri);
    assert!(request.sync_to_pps);
    assert_eq!(None, request.log);
}

#[test]
fn reader_inclinations_request() {
    let reader = Reader::from_path("data/scan.rxp");
    let request = reader.inclinations_request().unwrap();
    assert_eq!("data/scan.rxp", request.path);
    assert!(!request.sync_to_pps);

    let bad = Reader::from_path("bad\0path.rxp").inclinations_request();
    assert!(matches!(bad, Err(Error::Nul)));
}
