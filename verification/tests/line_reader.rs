//! Tests of the byte-wise line reader: normalization, echo, termination
//! and overrun detection.

use hotp::line::{readline, LineReader};

#[test]
fn plain_line_stops_at_line_feed() {
    let r = readline(b"help\nrest", 130);
    assert_eq!(r.line, b"help\n".to_vec());
    assert_eq!(r.bytes_read, 5);
    assert!(!r.overrun);
    assert_eq!(r.echo, b"help\r\n".to_vec());
}

#[test]
fn trailing_carriage_return_becomes_line_feed() {
    let r = readline(b"gen 0\r", 130);
    assert_eq!(r.line, b"gen 0\n".to_vec());
    assert_eq!(r.bytes_read, 6);
    assert!(!r.overrun);
    // The replaced terminator is not echoed; the closing pair always is.
    assert_eq!(r.echo, b"gen 0\r\n".to_vec());
}

#[test]
fn long_line_without_line_feed_overruns() {
    let input = [b'a'; 20];
    let r = readline(&input[..], 10);
    assert_eq!(r.bytes_read, 10);
    assert!(r.overrun);
    assert_eq!(r.line, vec![b'a'; 10]);
}

#[test]
fn line_feed_on_last_byte_is_not_an_overrun() {
    let r = readline(b"abc\n", 4);
    assert_eq!(r.bytes_read, 4);
    assert!(!r.overrun);
}

#[test]
fn zero_capacity_reads_nothing_and_overruns() {
    let r = readline(b"anything", 0);
    assert_eq!(r.bytes_read, 0);
    assert!(r.overrun);
    assert_eq!(r.line, Vec::<u8>::new());
    assert_eq!(r.echo, b"\r\n".to_vec());
}

#[test]
fn reader_echoes_every_byte_but_the_terminator() {
    let mut reader = LineReader::new(8);
    assert_eq!(reader.push(b'h'), Some(b'h'));
    assert_eq!(reader.push(b'i'), Some(b'i'));
    assert_eq!(reader.push(b'\r'), None);
    assert!(reader.done());
    assert!(!reader.overrun());
    assert_eq!(reader.buf, b"hi\n".to_vec());
}

#[test]
fn lone_carriage_return_reads_as_empty_line() {
    let r = readline(b"\r", 5);
    assert_eq!(r.line, b"\n".to_vec());
    assert_eq!(r.bytes_read, 1);
    assert!(!r.overrun);
    assert_eq!(r.echo, b"\r\n".to_vec());
}

#[test]
fn carriage_return_in_the_middle_terminates() {
    // Every carriage return is normalized as it is read, so one in the
    // middle ends the line exactly as a line feed would.
    let r = readline(b"ab\rcd", 130);
    assert_eq!(r.line, b"ab\n".to_vec());
    assert_eq!(r.bytes_read, 3);
    assert!(!r.overrun);
}

#[test]
fn reader_fills_to_capacity() {
    let mut reader = LineReader::new(2);
    assert!(!reader.done());
    reader.push(b'x');
    assert!(!reader.done());
    reader.push(b'y');
    assert!(reader.done());
    assert!(reader.overrun());
}
