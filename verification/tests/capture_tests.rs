use pssh_rs::capture::{capture_stream, CaptureBuffer, CAPTURE_CEILING};

#[test]
fn captures_everything_under_the_ceiling() {
    let chunks = vec![b"hello".to_vec(), b" ".to_vec(), b"world".to_vec()];
    let out = capture_stream(&chunks, 100);
    assert_eq!(out, b"hello world".to_vec());
}

#[test]
fn truncates_exactly_at_the_ceiling() {
    let chunks = vec![b"aaaa".to_vec(), b"bbbb".to_vec(), b"cccc".to_vec()];
    let out = capture_stream(&chunks, 10);
    assert_eq!(out, b"aaaabbbbcc".to_vec());
}

#[test]
fn a_total_equal_to_the_ceiling_is_kept_in_full() {
    let chunks = vec![b"12345".to_vec(), b"67890".to_vec()];
    let out = capture_stream(&chunks, 10);
    assert_eq!(out, b"1234567890".to_vec());
}

#[test]
fn streams_are_captured_independently() {
    // A remote that floods one stream cannot displace the other's bytes:
    // each stream has its own buffer and its own ceiling.
    let heavy: Vec<Vec<u8>> = (0..10).map(|_| vec![b'a'; 4]).collect();
    let light = vec![b"err".to_vec()];
    let out = capture_stream(&heavy, 8);
    let err = capture_stream(&light, 8);
    assert_eq!(out, vec![b'a'; 8]);
    assert_eq!(err, b"err".to_vec());
}

#[test]
fn push_chunk_reports_how_much_was_kept() {
    let mut buf = CaptureBuffer::new(5);
    assert_eq!(buf.remaining(), 5);
    assert_eq!(buf.push_chunk(&[1, 2, 3]), 3);
    assert_eq!(buf.remaining(), 2);
    assert_eq!(buf.push_chunk(&[4, 5, 6]), 2);
    assert_eq!(buf.remaining(), 0);
    assert_eq!(buf.push_chunk(&[7]), 0);
    assert_eq!(buf.into_bytes(), vec![1, 2, 3, 4, 5]);
}

#[test]
fn empty_stream_captures_nothing() {
    let out = capture_stream(&Vec::new(), 10);
    assert!(out.is_empty());
    let mut buf = CaptureBuffer::new(10);
    assert_eq!(buf.push_chunk(&[]), 0);
    assert!(buf.into_bytes().is_empty());
}

#[test]
fn default_ceiling_is_one_mebibyte() {
    assert_eq!(CAPTURE_CEILING, 1024 * 1024);
}
