//! Framing behaviour: delimited requests, multi-read accumulation, peer
//! close, and zero-strip edge cases.

use tcplane::framing::RequestFramer;
use tcplane::framing::frame_reads;
use tcplane::remove_trailing_zeros;

fn padded(data: &[u8], size: usize) -> Vec<u8> {
    let mut chunk = data.to_vec();
    chunk.resize(size, 0u8);
    chunk
}

#[test]
fn remove_trailing_zeros_strips_tail() {
    let mut data = vec![1u8, 2, 3, 0, 0];
    let out = remove_trailing_zeros(&mut data);
    assert_eq!(out, vec![1u8, 2, 3]);
    assert_eq!(data, vec![1u8, 2, 3]);
}

#[test]
fn remove_trailing_zeros_clears_all_zero_input() {
    let mut data = vec![0u8, 0, 0];
    let out = remove_trailing_zeros(&mut data);
    assert!(out.is_empty());
    assert!(data.is_empty());
}

#[test]
fn remove_trailing_zeros_keeps_interior_zeros() {
    let mut data = vec![0u8, 7, 0, 9, 0];
    let out = remove_trailing_zeros(&mut data);
    assert_eq!(out, vec![0u8, 7, 0, 9]);
}

#[test]
fn delimited_request_framed_to_preceding_bytes() {
    let mut framer = RequestFramer::new();
    let chunk = padded(b"hello\r\n\r\n", 64);
    let done = framer.feed(&chunk, 9);
    assert!(done);
    assert_eq!(framer.request().as_slice(), b"hello");
}

#[test]
fn partial_request_kept_when_peer_closes() {
    // A short read without a delimiter already ends framing, keeping the
    // bytes read so far.
    let reads = vec![b"hello".to_vec()];
    let request = frame_reads(&reads, 64);
    assert_eq!(request.as_slice(), b"hello");
}

#[test]
fn zero_length_read_returns_accumulated() {
    let mut framer = RequestFramer::new();
    // A full chunk (no zero fill, no delimiter) accumulates...
    let done = framer.feed(&b"abcd".to_vec(), 4);
    assert!(!done);
    // ...and the peer closing (a zero-length read) ends framing with it.
    let done = framer.feed(&vec![0u8; 4], 0);
    assert!(done);
    assert_eq!(framer.request().as_slice(), b"abcd");
}

#[test]
fn full_chunks_accumulate_across_reads() {
    let reads = vec![b"abcd".to_vec(), b"efgh".to_vec(), Vec::new()];
    let request = frame_reads(&reads, 4);
    assert_eq!(request.as_slice(), b"abcdefgh");
}

#[test]
fn delimiter_in_second_chunk_ends_request() {
    let reads = vec![b"abcdefgh".to_vec(), b"ij\r\n\r\n".to_vec()];
    let request = frame_reads(&reads, 8);
    assert_eq!(request.as_slice(), b"abcdefghij");
}

#[test]
fn all_zero_chunk_is_discarded() {
    let mut framer = RequestFramer::new();
    let done = framer.feed(&vec![0u8; 8], 8);
    assert!(done);
    assert!(framer.request().is_empty());
}

#[test]
fn delimiter_filling_whole_buffer_gives_empty_request() {
    let reads = vec![b"\r\n\r\n".to_vec()];
    let request = frame_reads(&reads, 4);
    assert!(request.is_empty());
}

#[test]
fn small_buffer_size_is_raised_to_delimiter_length() {
    // A configured buffer size below the delimiter length is raised to the
    // delimiter length, so reads arrive in chunks of four.  A delimiter
    // split across chunk boundaries is not recognized; only a chunk that
    // itself ends with the delimiter ends the request.
    let reads = vec![b"ab\r\n".to_vec(), b"\r\n\r\n".to_vec()];
    let request = frame_reads(&reads, 1);
    assert_eq!(request.as_slice(), b"ab\r\n");
}

#[test]
fn into_request_hands_buffer_over() {
    let mut framer = RequestFramer::new();
    framer.feed(&padded(b"ping\r\n\r\n", 16), 8);
    let request = framer.into_request();
    assert_eq!(request.as_slice(), b"ping");
}

#[test]
fn no_reads_give_an_empty_request() {
    let request = frame_reads(&Vec::new(), 16);
    assert!(request.is_empty());
}

#[test]
fn remove_trailing_zeros_on_empty_input() {
    let mut data: Vec<u8> = Vec::new();
    let out = remove_trailing_zeros(&mut data);
    assert!(out.is_empty());
    assert!(data.is_empty());
}
