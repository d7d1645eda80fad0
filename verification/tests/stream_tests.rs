use extractous::tika::wrappers::interpret_read_report;

#[test]
fn end_of_stream_report_maps_to_zero_not_an_error() {
    assert_eq!(interpret_read_report(-1, 100), 0);
    assert_eq!(interpret_read_report(-1, 0), 0);
}

#[test]
fn any_negative_report_maps_to_zero() {
    assert_eq!(interpret_read_report(-2, 100), 0);
    assert_eq!(interpret_read_report(i32::MIN, 8), 0);
}

#[test]
fn a_report_within_the_request_passes_through() {
    assert_eq!(interpret_read_report(0, 100), 0);
    assert_eq!(interpret_read_report(1, 100), 1);
    assert_eq!(interpret_read_report(100, 100), 100);
}

#[test]
fn a_report_beyond_the_request_is_clamped() {
    assert_eq!(interpret_read_report(101, 100), 100);
    assert_eq!(interpret_read_report(i32::MAX, 3), 3);
}

#[test]
fn concatenated_reads_reassemble_the_stream() {
    // A callee that honors the read contract: each call writes a chunk
    // no longer than the request and reports exactly its length.
    let chunks: Vec<Vec<u8>> = vec![b"Hello, ".to_vec(), b"world".to_vec(), b"!".to_vec()];
    let requested = 16;
    let mut delivered: Vec<u8> = Vec::new();
    for chunk in &chunks {
        let count = interpret_read_report(chunk.len() as i32, requested);
        delivered.extend_from_slice(&chunk[..count]);
    }
    // End of stream: the next read delivers nothing.
    assert_eq!(interpret_read_report(-1, requested), 0);
    assert_eq!(delivered, chunks.concat());
}
