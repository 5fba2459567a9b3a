use electrobun::selfextract::{
    embedded_payload, find_bytes_from, locate_payload, EmbeddedPayload, ARCHIVE_MARKER, MAX_METADATA_LEN,
    METADATA_MARKER,
};

#[test]
fn finds_second_marker_and_archive() {
    // Simulate: [code-copy of marker][padding][payload marker][json][archive marker][data]
    let mut buf = Vec::new();
    buf.extend_from_slice(b"some code referencing ");
    buf.extend_from_slice(METADATA_MARKER.as_bytes()); // first (code) occurrence
    buf.extend_from_slice(b" ... more code ...");
    let payload_marker_pos = buf.len();
    buf.extend_from_slice(METADATA_MARKER.as_bytes()); // second (payload) occurrence
    let json = br#"{"identifier":"a","name":"b","channel":"stable","hash":"h"}"#;
    buf.extend_from_slice(json);
    let archive_pos = buf.len();
    buf.extend_from_slice(ARCHIVE_MARKER.as_bytes());
    buf.extend_from_slice(b"ZSTDDATA");

    let (metadata_start, archive_marker_pos) = locate_payload(&buf).unwrap();
    assert_eq!(metadata_start, payload_marker_pos + METADATA_MARKER.len());
    assert_eq!(archive_marker_pos, archive_pos);
    assert_eq!(&buf[metadata_start..archive_marker_pos], json);
}

#[test]
fn no_second_marker_returns_none() {
    let mut buf = Vec::new();
    buf.extend_from_slice(b"only one ");
    buf.extend_from_slice(METADATA_MARKER.as_bytes());
    buf.extend_from_slice(b" occurrence");
    assert!(locate_payload(&buf).is_none());
}

#[test]
fn no_marker_returns_none() {
    assert!(locate_payload(b"no markers here").is_none());
}

#[test]
fn missing_archive_marker_returns_none() {
    let mut buf = Vec::new();
    buf.extend_from_slice(METADATA_MARKER.as_bytes());
    buf.extend_from_slice(METADATA_MARKER.as_bytes());
    buf.extend_from_slice(b"{}");
    assert!(locate_payload(&buf).is_none());
}

#[test]
fn adjacent_markers_do_not_overlap() {
    // Two markers back to back: the second starts right after the first.
    let mut buf = Vec::new();
    buf.extend_from_slice(METADATA_MARKER.as_bytes());
    buf.extend_from_slice(METADATA_MARKER.as_bytes());
    buf.extend_from_slice(ARCHIVE_MARKER.as_bytes());
    let (start, archive) = locate_payload(&buf).unwrap();
    assert_eq!(start, 2 * METADATA_MARKER.len());
    assert_eq!(archive, start);
}

#[test]
fn find_bytes_from_finds_first_occurrence_at_or_after() {
    let hay = b"abcabcabc";
    assert_eq!(find_bytes_from(hay, b"abc", 0), Some(0));
    assert_eq!(find_bytes_from(hay, b"abc", 1), Some(3));
    assert_eq!(find_bytes_from(hay, b"abc", 7), None);
    assert_eq!(find_bytes_from(hay, b"", 4), Some(4));
    assert_eq!(find_bytes_from(hay, b"zz", 0), None);
}

fn installer_bytes(json: &[u8]) -> Vec<u8> {
    let mut buf = Vec::new();
    buf.extend_from_slice(b"code ");
    buf.extend_from_slice(METADATA_MARKER.as_bytes());
    buf.extend_from_slice(b" more code ");
    buf.extend_from_slice(METADATA_MARKER.as_bytes());
    buf.extend_from_slice(json);
    buf.extend_from_slice(ARCHIVE_MARKER.as_bytes());
    buf.extend_from_slice(b"ZSTD");
    buf
}

#[test]
fn embedded_payload_found() {
    let json = br#"{"identifier":"a","name":"b","channel":"stable"}"#;
    let buf = installer_bytes(json);
    match embedded_payload(&buf) {
        EmbeddedPayload::Found { metadata_start, metadata_end, archive_start } => {
            assert_eq!(&buf[metadata_start..metadata_end], json);
            assert_eq!(&buf[archive_start..], b"ZSTD");
        }
        _ => panic!("payload expected"),
    }
}

#[test]
fn embedded_payload_absent() {
    assert!(matches!(embedded_payload(b"no markers here"), EmbeddedPayload::Absent));
}

#[test]
fn embedded_payload_metadata_too_large() {
    let json = vec![b' '; MAX_METADATA_LEN + 1];
    assert!(matches!(embedded_payload(&installer_bytes(&json)), EmbeddedPayload::MetadataTooLarge));
    let json = vec![b' '; MAX_METADATA_LEN];
    assert!(matches!(embedded_payload(&installer_bytes(&json)), EmbeddedPayload::Found { .. }));
}
