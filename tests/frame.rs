use bridge_relay::frame::{decode_body, decode_length, encode_frame, read_frame, FrameError};

#[test]
fn encode_frame_prefixes_little_endian_length() {
    assert_eq!(encode_frame("hi"), vec![2, 0, 0, 0, b'h', b'i']);
    assert_eq!(encode_frame(""), vec![0, 0, 0, 0]);
    let long = "x".repeat(300);
    let bytes = encode_frame(&long);
    assert_eq!(&bytes[..4], &[44, 1, 0, 0]);
    assert_eq!(bytes.len(), 304);
}

#[test]
fn frame_round_trip_gives_same_text() {
    let msg = r#"{"v":1,"type":"ping","payload":{"connectionId":"c1","note":"héllo ✓"}}"#;
    let bytes = encode_frame(msg);
    let (text, used) = read_frame(&bytes).unwrap().unwrap();
    assert_eq!(text, msg);
    assert_eq!(used, bytes.len());
}

#[test]
fn clean_end_after_complete_frame_is_no_message() {
    let bytes = encode_frame("{}");
    let (_, used) = read_frame(&bytes).unwrap().unwrap();
    assert_eq!(read_frame(&bytes[used..]), Ok(None));
    assert_eq!(read_frame(&[]), Ok(None));
}

#[test]
fn end_inside_header_is_framing_error() {
    assert_eq!(read_frame(&[5, 0]), Err(FrameError::TruncatedHeader));
    assert_eq!(decode_length(&[1, 2, 3]), Err(FrameError::TruncatedHeader));
    assert_eq!(decode_length(&[]), Ok(None));
    assert_eq!(decode_length(&[1, 1, 0, 0]), Ok(Some(257)));
}

#[test]
fn end_inside_body_is_framing_error() {
    assert_eq!(read_frame(&[5, 0, 0, 0, b'a', b'b']), Err(FrameError::TruncatedBody));
    assert_eq!(decode_body(vec![b'a'], 2), Err(FrameError::TruncatedBody));
}

#[test]
fn invalid_utf8_body_is_framing_error() {
    assert_eq!(read_frame(&[2, 0, 0, 0, 0xff, 0xfe]), Err(FrameError::InvalidUtf8));
    assert_eq!(decode_body(vec![0xc3], 1), Err(FrameError::InvalidUtf8));
    assert_eq!(decode_body(vec![b'o', b'k'], 2), Ok("ok".to_string()));
}

#[test]
fn second_frame_follows_first() {
    let mut bytes = encode_frame("one");
    bytes.extend(encode_frame("two"));
    let (first, used) = read_frame(&bytes).unwrap().unwrap();
    assert_eq!(first, "one");
    let (second, used2) = read_frame(&bytes[used..]).unwrap().unwrap();
    assert_eq!(second, "two");
    assert_eq!(used + used2, bytes.len());
}
