use tokio_util::bytes::{Bytes, BytesMut};
use tokio_util::codec::{Decoder, Encoder, LengthDelimitedCodec};
use trainlappcomms::frame::{frame, take_frame, FrameError, HEADER_LEN, MAX_FRAME_LEN};

fn framed_by_the_codec(payload: &[u8]) -> Vec<u8> {
    let mut codec = LengthDelimitedCodec::new();
    let mut bytes = BytesMut::new();
    codec.encode(Bytes::copy_from_slice(payload), &mut bytes).unwrap();
    bytes.to_vec()
}

fn samples() -> Vec<Vec<u8>> {
    vec![
        vec![],
        vec![0],
        b"hello world".to_vec(),
        vec![0xff; 255],
        vec![7; 256],
        vec![1; 65_535],
        vec![2; 65_536],
        (0..70_000u32).map(|i| (i % 251) as u8).collect(),
    ]
}

#[test]
fn a_frame_is_a_big_endian_length_and_the_payload() {
    assert_eq!(frame(&b"hello world".to_vec()), Ok(b"\x00\x00\x00\x0bhello world".to_vec()));
    assert_eq!(frame(&vec![]), Ok(vec![0, 0, 0, 0]));
    let long = frame(&vec![9; 0x01_02_03]).unwrap();
    assert_eq!(&long[..HEADER_LEN], &[0, 1, 2, 3]);
    assert_eq!(long.len(), HEADER_LEN + 0x01_02_03);
}

#[test]
fn frames_are_those_of_the_length_delimited_codec() {
    for payload in samples() {
        assert_eq!(frame(&payload).unwrap(), framed_by_the_codec(&payload));
    }
}

#[test]
fn the_codec_reads_what_was_framed() {
    for payload in samples() {
        let mut bytes = BytesMut::from(&frame(&payload).unwrap()[..]);
        let read = LengthDelimitedCodec::new().decode(&mut bytes).unwrap().unwrap();
        assert_eq!(read.to_vec(), payload);
        assert!(bytes.is_empty());
    }
}

#[test]
fn what_the_codec_framed_is_taken_as_it_was_sent() {
    for payload in samples() {
        let mut buffer = framed_by_the_codec(&payload);
        assert_eq!(take_frame(&mut buffer), Ok(Some(payload)));
        assert!(buffer.is_empty());
    }
}

#[test]
fn framing_and_taking_gives_the_payload_back() {
    for payload in samples() {
        let mut buffer = frame(&payload).unwrap();
        assert_eq!(take_frame(&mut buffer), Ok(Some(payload)));
        assert!(buffer.is_empty());
    }
}

#[test]
fn frames_are_taken_one_by_one_in_order() {
    let mut buffer = Vec::new();
    buffer.extend(frame(&b"first".to_vec()).unwrap());
    buffer.extend(frame(&vec![]).unwrap());
    buffer.extend(frame(&b"third".to_vec()).unwrap());
    buffer.extend([0, 0]);
    assert_eq!(take_frame(&mut buffer), Ok(Some(b"first".to_vec())));
    assert_eq!(take_frame(&mut buffer), Ok(Some(vec![])));
    assert_eq!(take_frame(&mut buffer), Ok(Some(b"third".to_vec())));
    assert_eq!(take_frame(&mut buffer), Ok(None));
    assert_eq!(buffer, vec![0, 0]);
}

#[test]
fn a_frame_that_has_not_arrived_whole_is_left_in_the_buffer() {
    let whole = frame(&b"hello world".to_vec()).unwrap();
    for arrived in 0..whole.len() {
        let mut buffer = whole[..arrived].to_vec();
        assert_eq!(take_frame(&mut buffer), Ok(None));
        assert_eq!(buffer, whole[..arrived].to_vec());
    }
}

#[test]
fn the_longest_payload_is_framed_and_one_byte_more_is_not() {
    let longest = vec![5u8; MAX_FRAME_LEN];
    let mut buffer = frame(&longest).unwrap();
    assert_eq!(&buffer[..HEADER_LEN], &[0, 0x80, 0, 0]);
    assert_eq!(take_frame(&mut buffer), Ok(Some(longest)));
    assert_eq!(frame(&vec![5u8; MAX_FRAME_LEN + 1]), Err(FrameError::TooLong));
}

#[test]
fn a_header_that_announces_too_much_is_refused() {
    let mut just_over = vec![0, 0x80, 0, 1, 1, 2, 3];
    assert_eq!(take_frame(&mut just_over), Err(FrameError::TooLong));
    assert_eq!(just_over, vec![0, 0x80, 0, 1, 1, 2, 3]);
    let mut far_over = vec![0xff, 0xff, 0xff, 0xff];
    assert_eq!(take_frame(&mut far_over), Err(FrameError::TooLong));
    let mut sixteen_mebibytes = vec![1, 0, 0, 0];
    assert_eq!(take_frame(&mut sixteen_mebibytes), Err(FrameError::TooLong));
}

#[test]
fn the_codec_refuses_what_the_library_refuses() {
    let mut codec = LengthDelimitedCodec::new();
    let mut bytes = BytesMut::new();
    assert!(codec.encode(Bytes::from(vec![5u8; MAX_FRAME_LEN + 1]), &mut bytes).is_err());
    assert!(codec.encode(Bytes::from(vec![5u8; MAX_FRAME_LEN]), &mut bytes).is_ok());
    let mut announced = BytesMut::from(&[0u8, 0x80, 0, 1, 1, 2, 3][..]);
    assert!(LengthDelimitedCodec::new().decode(&mut announced).is_err());
}
