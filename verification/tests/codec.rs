use bytes::{BufMut, Bytes, BytesMut};
use smux::frame::HEADER_SIZE;
use smux::{Codec, Command, Config, Frame, SmuxError};

fn test_config() -> Config {
    Config::default()
}

#[test]
fn test_codec_round_trip_syn() {
    let mut codec = Codec::new(test_config());
    let frame = Frame::new_syn(1, 123);

    let mut buf = BytesMut::new();
    codec.encode(frame.clone(), &mut buf).unwrap();

    let decoded = codec.decode(&mut buf).unwrap().unwrap();
    assert_eq!(frame, decoded);
}

#[test]
fn test_codec_round_trip_fin() {
    let mut codec = Codec::new(test_config());
    let frame = Frame::new_fin(1, 123);

    let mut buf = BytesMut::new();
    codec.encode(frame.clone(), &mut buf).unwrap();

    let decoded = codec.decode(&mut buf).unwrap().unwrap();
    assert_eq!(frame, decoded);
}

#[test]
fn test_codec_round_trip_psh() {
    let mut codec = Codec::new(test_config());
    let data = Bytes::from("hello world");
    let frame = Frame::new_psh(1, 123, data);

    let mut buf = BytesMut::new();
    codec.encode(frame.clone(), &mut buf).unwrap();

    let decoded = codec.decode(&mut buf).unwrap().unwrap();
    assert_eq!(frame, decoded);
}

#[test]
fn test_codec_round_trip_nop() {
    let mut codec = Codec::new(test_config());
    let frame = Frame::new_nop(1);

    let mut buf = BytesMut::new();
    codec.encode(frame.clone(), &mut buf).unwrap();

    let decoded = codec.decode(&mut buf).unwrap().unwrap();
    assert_eq!(frame, decoded);
}

#[test]
fn test_codec_round_trip_upd() {
    let mut codec = Codec::new(test_config());
    let frame = Frame::new_upd(2, 123, 100, 200);

    let mut buf = BytesMut::new();
    codec.encode(frame.clone(), &mut buf).unwrap();

    let decoded = codec.decode(&mut buf).unwrap().unwrap();
    assert_eq!(frame, decoded);
}

#[test]
fn test_decode_partial_header() {
    let mut codec = Codec::new(test_config());
    let frame = Frame::new_syn(1, 123);

    let mut buf = BytesMut::new();
    codec.encode(frame, &mut buf).unwrap();

    let mut partial = BytesMut::from(&buf[..4]);
    let result = codec.decode(&mut partial).unwrap();
    assert!(result.is_none());
}

#[test]
fn test_decode_partial_data() {
    let mut codec = Codec::new(test_config());
    let data = Bytes::from("hello world");
    let frame = Frame::new_psh(1, 123, data);

    let mut buf = BytesMut::new();
    codec.encode(frame, &mut buf).unwrap();

    let mut partial = BytesMut::from(&buf[..HEADER_SIZE + 5]);
    let result = codec.decode(&mut partial).unwrap();
    assert!(result.is_none());
}

#[test]
fn test_decode_multiple_frames() {
    let mut codec = Codec::new(test_config());
    let frame1 = Frame::new_syn(1, 123);
    let frame2 = Frame::new_fin(1, 456);

    let mut buf = BytesMut::new();
    codec.encode(frame1.clone(), &mut buf).unwrap();
    codec.encode(frame2.clone(), &mut buf).unwrap();

    let decoded1 = codec.decode(&mut buf).unwrap().unwrap();
    assert_eq!(frame1, decoded1);

    let decoded2 = codec.decode(&mut buf).unwrap().unwrap();
    assert_eq!(frame2, decoded2);

    assert!(codec.decode(&mut buf).unwrap().is_none());
}

#[test]
fn test_decode_oversized_frame() {
    let config = Config {
        max_frame_size: 100,
        ..Default::default()
    };
    let mut codec = Codec::new(config);

    let large_data = Bytes::from(vec![0u8; 200]);
    let frame = Frame::new_psh(1, 123, large_data);

    let mut buf = BytesMut::new();
    assert!(codec.encode(frame, &mut buf).is_err());
}

#[test]
fn test_decode_invalid_protocol_version() {
    let mut codec = Codec::new(test_config());

    let mut buf = BytesMut::new();
    buf.put_u8(0);
    buf.put_u8(Command::SYN);
    buf.put_u16_le(0);
    buf.put_u32_le(123);

    let result = codec.decode(&mut buf);
    assert!(result.is_err());
}

#[test]
fn test_decode_invalid_command() {
    let mut codec = Codec::new(test_config());

    let mut buf = BytesMut::new();
    buf.put_u8(1);
    buf.put_u8(255);
    buf.put_u16_le(0);
    buf.put_u32_le(123);

    let result = codec.decode(&mut buf);
    assert!(result.is_err());
}

#[test]
fn test_upd_frame_encoding() {
    let mut codec = Codec::new(test_config());
    let frame = Frame::new_upd(2, 123, 100, 200);

    let mut buf = BytesMut::new();
    codec.encode(frame, &mut buf).unwrap();

    assert_eq!(buf.len(), HEADER_SIZE + 8);

    assert_eq!(buf[0], 2);
    assert_eq!(buf[1], Command::UPD);
    assert_eq!(u16::from_le_bytes([buf[2], buf[3]]), 8);
    assert_eq!(u32::from_le_bytes([buf[4], buf[5], buf[6], buf[7]]), 123);

    let consumed = u32::from_le_bytes([buf[8], buf[9], buf[10], buf[11]]);
    let window = u32::from_le_bytes([buf[12], buf[13], buf[14], buf[15]]);
    assert_eq!(consumed, 100);
    assert_eq!(window, 200);
}

#[test]
fn test_invalid_upd_data_length() {
    let mut codec = Codec::new(test_config());

    let mut buf = BytesMut::new();
    buf.put_u8(2);
    buf.put_u8(Command::UPD);
    buf.put_u16_le(4);
    buf.put_u32_le(123);
    buf.put_u32_le(100);

    let result = codec.decode(&mut buf);
    assert!(result.is_err());
}

#[test]
fn codec_exact_wire_bytes_of_a_data_frame() {
    let mut codec = Codec::new(test_config());
    let mut buf = BytesMut::new();
    codec
        .encode(Frame::new_psh(1, 0x01020304, Bytes::from("ab")), &mut buf)
        .unwrap();
    assert_eq!(&buf[..], &[1, 2, 2, 0, 4, 3, 2, 1, b'a', b'b']);
}

#[test]
fn codec_refusals_leave_or_consume_as_stated() {
    let mut codec = Codec::new(Config { max_frame_size: 20, ..Default::default() });

    // Unknown command: refused, nothing consumed.
    let mut buf = BytesMut::from(&[1u8, 9, 0, 0, 1, 0, 0, 0][..]);
    assert!(matches!(codec.decode(&mut buf), Err(SmuxError::InvalidFrame)));
    assert_eq!(buf.len(), 8);

    // Oversized announced length: refused, nothing consumed.
    let mut buf = BytesMut::from(&[1u8, 2, 13, 0, 1, 0, 0, 0][..]);
    assert!(matches!(
        codec.decode(&mut buf),
        Err(SmuxError::FrameTooLarge { size: 21, max: 20 })
    ));
    assert_eq!(buf.len(), 8);

    // A frame that breaks a rule (FIN with data) is consumed and refused.
    let mut buf = BytesMut::from(&[1u8, 1, 1, 0, 5, 0, 0, 0, 7, 1, 3, 0, 0, 5, 0, 0, 0][..]);
    match codec.decode(&mut buf) {
        Err(SmuxError::ProtocolViolation(m)) => assert_eq!(m, "Control frames cannot carry data"),
        _ => panic!("expected a protocol violation"),
    }
    assert_eq!(&buf[..], &[1u8, 3, 0, 0, 5, 0, 0, 0][..]);
    // What follows is read on: a keep-alive with a non-zero id is refused.
    assert!(matches!(codec.decode(&mut buf), Err(SmuxError::InvalidStreamId(5))));
    assert!(buf.is_empty());

    // An update payload that is not 8 bytes long.
    let mut buf = BytesMut::from(&[2u8, 4, 2, 0, 5, 0, 0, 0, 1, 2][..]);
    match codec.decode(&mut buf) {
        Err(SmuxError::ProtocolViolation(m)) => {
            assert_eq!(m, "UPD frame must have exactly 8 bytes of data")
        }
        _ => panic!("expected a protocol violation"),
    }
    assert!(buf.is_empty());
}

#[test]
fn codec_encode_refuses_update_over_a_tiny_limit() {
    // The update frame itself is valid (no data), but its 8-byte payload
    // does not fit a 10-byte frame.
    let mut codec = Codec::new(Config { max_frame_size: 10, ..Default::default() });
    let mut buf = BytesMut::new();
    assert!(matches!(
        codec.encode(Frame::new_upd(2, 1, 1, 1), &mut buf),
        Err(SmuxError::FrameTooLarge { size: 16, max: 10 })
    ));
    assert!(buf.is_empty());
}

#[test]
fn codec_update_in_version_one_is_refused_on_decode() {
    let mut codec = Codec::new(test_config());
    let mut buf = BytesMut::from(&[1u8, 4, 0, 0, 5, 0, 0, 0][..]);
    assert!(matches!(codec.decode(&mut buf), Err(SmuxError::ProtocolViolation(_))));
    assert!(buf.is_empty());
}

#[test]
fn codec_refuses_payloads_over_the_length_field() {
    // A payload longer than 65535 bytes cannot be announced by the 16-bit
    // length field: it is refused and nothing is written.
    let mut codec = Codec::new(Config {
        max_frame_size: 16 * 1024 * 1024,
        max_receive_buffer: 16 * 1024 * 1024,
        ..Default::default()
    });
    let mut buf = BytesMut::new();
    assert!(matches!(
        codec.encode(Frame::new_psh(1, 1, Bytes::from(vec![0u8; 70000])), &mut buf),
        Err(SmuxError::FrameTooLarge { size: 70008, max: 65543 })
    ));
    assert!(buf.is_empty());
    // The largest payload is accepted and read back.
    let frame = Frame::new_psh(1, 1, Bytes::from(vec![7u8; 65535]));
    codec.encode(frame.clone(), &mut buf).unwrap();
    assert_eq!(u16::from_le_bytes([buf[2], buf[3]]), 65535);
    assert_eq!(codec.decode(&mut buf).unwrap().unwrap(), frame);
    // A copy of the codec behaves the same.
    let mut copy = codec.clone();
    assert!(copy.encode(Frame::new_psh(1, 1, Bytes::from(vec![0u8; 70000])), &mut buf).is_err());
}
