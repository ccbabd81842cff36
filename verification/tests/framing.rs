use vexide_simulator_protocol::framing::{
    is_single_line, text_of_line, write_line, LineBuffer, TransportError, LINE_FEED,
};

#[test]
fn complete_lines_are_handed_out() {
    let mut buffer = LineBuffer::new();
    assert_eq!(buffer.feed(b"\"Ready\"\n\"Exited\"\n"), vec![b"\"Ready\"".to_vec(), b"\"Exited\"".to_vec()]);
    assert_eq!(buffer.pending_len(), 0);
    assert_eq!(buffer.finish(), Ok(()));
}

#[test]
fn a_partial_line_waits_for_its_line_feed() {
    let mut buffer = LineBuffer::new();
    assert_eq!(buffer.feed(b"\"Rea"), Vec::<Vec<u8>>::new());
    assert_eq!(buffer.pending_len(), 4);
    assert_eq!(buffer.feed(b"dy\""), Vec::<Vec<u8>>::new());
    assert_eq!(buffer.feed(b"\n\"Ex"), vec![b"\"Ready\"".to_vec()]);
    assert_eq!(buffer.pending_len(), 3);
    assert_eq!(buffer.feed(b"ited\"\n"), vec![b"\"Exited\"".to_vec()]);
    assert_eq!(buffer.pending_len(), 0);
}

#[test]
fn chunking_gives_the_same_lines() {
    let stream = b"one\ntwo\n\nthree\nrest";
    let mut whole = LineBuffer::new();
    let expected = whole.feed(stream);
    assert_eq!(expected, vec![b"one".to_vec(), b"two".to_vec(), b"".to_vec(), b"three".to_vec()]);
    for cut in 0..=stream.len() {
        let mut buffer = LineBuffer::new();
        let mut lines = buffer.feed(&stream[..cut]);
        lines.extend(buffer.feed(&stream[cut..]));
        assert_eq!(lines, expected);
        assert_eq!(buffer.pending_len(), 4);
    }
    let mut bytewise = LineBuffer::new();
    let mut lines = Vec::new();
    for b in stream.iter() {
        lines.extend(bytewise.feed(&[*b]));
    }
    assert_eq!(lines, expected);
}

#[test]
fn a_stream_that_ends_in_a_line_is_a_transport_error() {
    let mut buffer = LineBuffer::new();
    buffer.feed(b"\"Ready\"\n\"Exi");
    assert_eq!(buffer.finish(), Err(TransportError::UnterminatedLine));
    assert_eq!(LineBuffer::new().finish(), Ok(()));
}

#[test]
fn written_lines_are_read_back() {
    let mut stream = Vec::new();
    assert_eq!(write_line(&mut stream, b"{\"a\":1}"), Ok(()));
    assert_eq!(write_line(&mut stream, b""), Ok(()));
    assert_eq!(write_line(&mut stream, b"\"Ready\""), Ok(()));
    assert_eq!(stream, b"{\"a\":1}\n\n\"Ready\"\n".to_vec());
    let mut buffer = LineBuffer::new();
    assert_eq!(buffer.feed(&stream), vec![b"{\"a\":1}".to_vec(), b"".to_vec(), b"\"Ready\"".to_vec()]);
    assert_eq!(buffer.finish(), Ok(()));
}

#[test]
fn a_message_with_a_line_feed_is_not_written() {
    let mut stream = b"kept\n".to_vec();
    assert_eq!(write_line(&mut stream, b"two\nlines"), Err(TransportError::EmbeddedLineFeed));
    assert_eq!(stream, b"kept\n".to_vec());
    assert!(is_single_line(b"one line"));
    assert!(is_single_line(b""));
    assert!(!is_single_line(b"\n"));
    assert_eq!(LINE_FEED, b'\n');
}

#[test]
fn lines_are_read_as_utf8() {
    assert_eq!(text_of_line(b"\"Ready\"".to_vec()), Ok("\"Ready\"".to_string()));
    assert_eq!(text_of_line("héllo ✓".as_bytes().to_vec()), Ok("héllo ✓".to_string()));
    assert_eq!(text_of_line(Vec::new()), Ok(String::new()));
}

#[test]
fn a_line_that_is_not_utf8_is_a_transport_error() {
    assert_eq!(text_of_line(vec![0xff, 0xfe]), Err(TransportError::InvalidUtf8));
    assert_eq!(text_of_line(vec![b'a', 0xc3]), Err(TransportError::InvalidUtf8));
    assert_eq!(text_of_line(vec![0xed, 0xa0, 0x80]), Err(TransportError::InvalidUtf8));
}
