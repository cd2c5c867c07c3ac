use bytes::Bytes;
use smux::frame::HEADER_SIZE;
use smux::{Command, Config, Frame, SmuxError};

#[test]
fn test_frame_creation() {
    let data = Bytes::from("hello");
    let frame = Frame::new(1, Command::Psh, 123, data.clone());

    assert_eq!(frame.version, 1);
    assert_eq!(frame.cmd, Command::Psh);
    assert_eq!(frame.stream_id, 123);
    assert_eq!(frame.data, data);
}

#[test]
fn test_frame_constructors() {
    let syn_frame = Frame::new_syn(1, 123);
    assert_eq!(syn_frame.cmd, Command::Syn);
    assert_eq!(syn_frame.stream_id, 123);
    assert!(syn_frame.data.is_empty());

    let fin_frame = Frame::new_fin(1, 123);
    assert_eq!(fin_frame.cmd, Command::Fin);
    assert_eq!(fin_frame.stream_id, 123);
    assert!(fin_frame.data.is_empty());

    let data = Bytes::from("test");
    let psh_frame = Frame::new_psh(1, 123, data.clone());
    assert_eq!(psh_frame.cmd, Command::Psh);
    assert_eq!(psh_frame.stream_id, 123);
    assert_eq!(psh_frame.data, data);

    let nop_frame = Frame::new_nop(1);
    assert_eq!(nop_frame.cmd, Command::Nop);
    assert_eq!(nop_frame.stream_id, 0);
    assert!(nop_frame.data.is_empty());

    let upd_frame = Frame::new_upd(2, 123, 100, 200);
    assert_eq!(
        upd_frame.cmd,
        Command::Upd {
            consumed: 100,
            window: 200
        }
    );
    assert_eq!(upd_frame.stream_id, 123);
    assert!(upd_frame.data.is_empty());
}

#[test]
fn test_frame_size_calculation() {
    let empty_frame = Frame::new_syn(1, 123);
    assert_eq!(empty_frame.total_size(), HEADER_SIZE);
    assert_eq!(empty_frame.data_len(), 0);
    assert!(empty_frame.is_empty());

    let data = Bytes::from("hello");
    let data_frame = Frame::new_psh(1, 123, data);
    assert_eq!(data_frame.total_size(), HEADER_SIZE + 5);
    assert_eq!(data_frame.data_len(), 5);
    assert!(!data_frame.is_empty());
}

#[test]
fn test_frame_validation() {
    let config = Config::default();

    let syn_frame = Frame::new_syn(1, 123);
    assert!(syn_frame.validate(&config).is_ok());

    let psh_frame = Frame::new_psh(1, 123, Bytes::from("data"));
    assert!(psh_frame.validate(&config).is_ok());

    let nop_frame = Frame::new_nop(1);
    assert!(nop_frame.validate(&config).is_ok());

    let invalid_version = Frame::new(0, Command::Syn, 123, Bytes::new());
    assert!(invalid_version.validate(&config).is_err());

    let upd_v1 = Frame::new_upd(1, 123, 100, 200);
    assert!(upd_v1.validate(&config).is_err());

    let upd_v2 = Frame::new_upd(2, 123, 100, 200);
    assert!(upd_v2.validate(&config).is_ok());
}

#[test]
fn test_frame_size_validation() {
    let config = Config {
        max_frame_size: 100,
        ..Default::default()
    };

    let large_data = Bytes::from(vec![0u8; 200]);
    let large_frame = Frame::new_psh(1, 123, large_data);
    assert!(large_frame.validate(&config).is_err());

    let small_data = Bytes::from(vec![0u8; 50]);
    let small_frame = Frame::new_psh(1, 123, small_data);
    assert!(small_frame.validate(&config).is_ok());
}

#[test]
fn test_control_frames_with_data() {
    let config = Config::default();
    let data = Bytes::from("invalid");

    let syn_with_data = Frame::new(1, Command::Syn, 123, data.clone());
    assert!(syn_with_data.validate(&config).is_err());

    let fin_with_data = Frame::new(1, Command::Fin, 123, data.clone());
    assert!(fin_with_data.validate(&config).is_err());

    let nop_with_data = Frame::new(1, Command::Nop, 0, data.clone());
    assert!(nop_with_data.validate(&config).is_err());

    let upd_with_data = Frame::new(
        2,
        Command::Upd {
            consumed: 0,
            window: 0,
        },
        123,
        data,
    );
    assert!(upd_with_data.validate(&config).is_err());
}

#[test]
fn test_stream_id_validation() {
    let config = Config::default();

    let invalid_nop = Frame::new(1, Command::Nop, 123, Bytes::new());
    assert!(invalid_nop.validate(&config).is_err());

    let invalid_syn = Frame::new(1, Command::Syn, 0, Bytes::new());
    assert!(invalid_syn.validate(&config).is_err());

    let invalid_psh = Frame::new(1, Command::Psh, 0, Bytes::from("data"));
    assert!(invalid_psh.validate(&config).is_err());
}

#[test]
fn test_upd_frame_values() {
    let upd_frame = Frame::new_upd(2, 123, 100, 200);
    assert_eq!(upd_frame.consumed(), Some(100));
    assert_eq!(upd_frame.window(), Some(200));

    let syn_frame = Frame::new_syn(1, 123);
    assert_eq!(syn_frame.consumed(), None);
    assert_eq!(syn_frame.window(), None);
}

#[test]
fn frame_errors_in_check_order() {
    let config = Config { max_frame_size: 10, ..Default::default() };
    // Version 0 is reported before everything else.
    let f = Frame::new(0, Command::Nop, 5, Bytes::from(vec![1u8; 100]));
    assert!(matches!(f.validate(&config), Err(SmuxError::InvalidProtocol(0))));
    let f = Frame::new_upd(1, 0, 1, 2);
    match f.validate(&config) {
        Err(SmuxError::ProtocolViolation(m)) => assert_eq!(m, "UPD command requires protocol version 2"),
        _ => panic!("expected a protocol violation"),
    }
    let f = Frame::new(1, Command::Psh, 0, Bytes::from(vec![1u8; 3]));
    assert!(matches!(f.validate(&config), Err(SmuxError::FrameTooLarge { size: 11, max: 10 })));
    let f = Frame::new(1, Command::Fin, 0, Bytes::from(vec![1u8; 2]));
    match f.validate(&config) {
        Err(SmuxError::ProtocolViolation(m)) => assert_eq!(m, "Control frames cannot carry data"),
        _ => panic!("expected a protocol violation"),
    }
    let f = Frame::new(1, Command::Psh, 0, Bytes::from(vec![1u8; 2]));
    assert!(matches!(f.validate(&config), Err(SmuxError::InvalidStreamId(0))));
    let f = Frame::new(1, Command::Nop, 9, Bytes::new());
    assert!(matches!(f.validate(&config), Err(SmuxError::InvalidStreamId(9))));
    // A frame exactly at the limit is accepted.
    let f = Frame::new(1, Command::Psh, 3, Bytes::from(vec![1u8; 2]));
    assert!(f.validate(&config).is_ok());
}
