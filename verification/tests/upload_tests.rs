use cloud_profiler_rust::control::GcpCloudProfilingError;
use cloud_profiler_rust::control::ProfileSession;
use cloud_profiler_rust::upload::prepare_upload;
use std::io::Read;

#[test]
fn missing_identity_is_rejected() {
    let data = vec![1u8, 2, 3];
    let session = ProfileSession { duration_ms: Some(1_000), name: None };
    match prepare_upload(&data, &session) {
        Err(GcpCloudProfilingError::MissingSessionIdentity) => {}
        other => panic!("expected MissingSessionIdentity, got {:?}", other),
    }
}

#[test]
fn payload_carries_the_session_identity() {
    let data = vec![5u8; 64];
    let session = ProfileSession {
        duration_ms: Some(1_000),
        name: Some("projects/p/profiles/abc".to_string()),
    };
    let payload = prepare_upload(&data, &session).expect("compression should succeed");
    assert_eq!(payload.name, "projects/p/profiles/abc");
}

#[test]
fn compressed_bytes_decompress_back_to_the_report() {
    let data: Vec<u8> = (0..200u16).map(|i| (i % 251) as u8).collect();
    let session = ProfileSession {
        duration_ms: Some(1_000),
        name: Some("projects/p/profiles/abc".to_string()),
    };
    let payload = prepare_upload(&data, &session).expect("compression should succeed");
    // The payload is a real gzip stream, not the input handed back.
    assert_ne!(payload.compressed_bytes, data);
    assert_eq!(&payload.compressed_bytes[0..2], &[0x1f, 0x8b]);
    let mut decoder = flate2::read::GzDecoder::new(payload.compressed_bytes.as_slice());
    let mut round_trip = Vec::new();
    decoder.read_to_end(&mut round_trip).expect("valid gzip stream");
    assert_eq!(round_trip, data);
}

#[test]
fn empty_report_compresses_and_round_trips() {
    let data: Vec<u8> = Vec::new();
    let session = ProfileSession { duration_ms: Some(0), name: Some("n".to_string()) };
    let payload = prepare_upload(&data, &session).expect("compression should succeed");
    let mut decoder = flate2::read::GzDecoder::new(payload.compressed_bytes.as_slice());
    let mut round_trip = Vec::new();
    decoder.read_to_end(&mut round_trip).expect("valid gzip stream");
    assert!(round_trip.is_empty());
}
