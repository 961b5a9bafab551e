use volumize::frame::{encode_frame, FrameReader, MAX_PAYLOAD};

#[test]
fn frame_has_little_endian_length_prefix() {
    assert_eq!(encode_frame(&[0xAA, 0xBB, 0xCC]), Some(vec![3, 0, 0xAA, 0xBB, 0xCC]));
    assert_eq!(encode_frame(&[]), Some(vec![0, 0]));
    let long = vec![7u8; 300];
    let f = encode_frame(&long).unwrap();
    assert_eq!(&f[..2], &[44, 1]);
    assert_eq!(f.len(), 302);
}

#[test]
fn oversized_payload_is_refused() {
    let big = vec![0u8; MAX_PAYLOAD + 1];
    assert_eq!(encode_frame(&big), None);
    let max = vec![0u8; MAX_PAYLOAD];
    assert_eq!(encode_frame(&max).map(|f| f.len()), Some(MAX_PAYLOAD + 2));
}

#[test]
fn reader_gives_back_what_was_framed() {
    let mut r = FrameReader::new();
    r.feed(&encode_frame(b"hello").unwrap());
    assert_eq!(r.next_frame(), Some(b"hello".to_vec()));
    assert_eq!(r.next_frame(), None);
}

#[test]
fn reader_waits_for_the_whole_frame() {
    let frame = encode_frame(&[1, 2, 3, 4]).unwrap();
    let mut r = FrameReader::new();
    r.feed(&frame[..1]);
    assert_eq!(r.next_frame(), None);
    r.feed(&frame[1..4]);
    assert_eq!(r.next_frame(), None);
    r.feed(&frame[4..]);
    assert_eq!(r.next_frame(), Some(vec![1, 2, 3, 4]));
}

#[test]
fn reader_splits_frames_in_one_packet() {
    let mut bytes = encode_frame(&[9]).unwrap();
    bytes.extend(encode_frame(&[]).unwrap());
    bytes.extend(encode_frame(&[5, 6]).unwrap());
    bytes.push(2);
    let mut r = FrameReader::new();
    r.feed(&bytes);
    assert_eq!(r.next_frame(), Some(vec![9]));
    assert_eq!(r.next_frame(), Some(vec![]));
    assert_eq!(r.next_frame(), Some(vec![5, 6]));
    assert_eq!(r.next_frame(), None);
    r.feed(&[0, 42, 43]);
    assert_eq!(r.next_frame(), Some(vec![42, 43]));
}
