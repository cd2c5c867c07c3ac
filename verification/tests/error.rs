use smux::SmuxError;
use std::io::{Error as IoError, ErrorKind};

#[test]
fn test_error_display() {
    let err = SmuxError::InvalidProtocol(2);
    assert_eq!(err.to_string(), "Invalid protocol version: 2");

    let err = SmuxError::FrameTooLarge {
        size: 1024,
        max: 512,
    };
    assert_eq!(err.to_string(), "Frame too large: 1024 bytes (max: 512)");

    let err = SmuxError::Config("Invalid setting".to_string());
    assert_eq!(err.to_string(), "Configuration error: Invalid setting");
}

#[test]
fn test_io_error_conversion() {
    let io_err = IoError::new(ErrorKind::UnexpectedEof, "Connection lost");
    let smux_err: SmuxError = io_err.into();

    match smux_err {
        SmuxError::Io(_) => (),
        _ => panic!("Expected SmuxError::Io"),
    }
}

#[test]
fn test_is_recoverable() {
    let would_block = SmuxError::Io(IoError::new(ErrorKind::WouldBlock, ""));
    assert!(would_block.is_recoverable());

    let interrupted = SmuxError::Io(IoError::new(ErrorKind::Interrupted, ""));
    assert!(interrupted.is_recoverable());

    let timeout = SmuxError::Timeout;
    assert!(timeout.is_recoverable());

    let buffer_overflow = SmuxError::BufferOverflow;
    assert!(buffer_overflow.is_recoverable());

    let session_closed = SmuxError::SessionClosed;
    assert!(!session_closed.is_recoverable());

    let invalid_protocol = SmuxError::InvalidProtocol(2);
    assert!(!invalid_protocol.is_recoverable());

    let config_err = SmuxError::Config("Invalid".to_string());
    assert!(!config_err.is_recoverable());

    let frame_too_large = SmuxError::FrameTooLarge {
        size: 1024,
        max: 512,
    };
    assert!(!frame_too_large.is_recoverable());

    let other_io_err = SmuxError::Io(IoError::new(ErrorKind::UnexpectedEof, ""));
    assert!(!other_io_err.is_recoverable());
}

#[test]
fn error_messages_of_every_variant() {
    assert_eq!(SmuxError::SessionClosed.to_string(), "Session closed");
    assert_eq!(SmuxError::StreamNotFound(7).to_string(), "Stream not found: 7");
    assert_eq!(SmuxError::StreamAlreadyExists(0).to_string(), "Stream already exists: 0");
    assert_eq!(
        SmuxError::InvalidStreamId(4294967295).to_string(),
        "Invalid stream ID: 4294967295"
    );
    assert_eq!(SmuxError::InvalidFrame.to_string(), "Invalid frame format");
    assert_eq!(SmuxError::Timeout.to_string(), "Connection timeout");
    assert_eq!(SmuxError::BufferOverflow.to_string(), "Buffer overflow");
    assert_eq!(
        SmuxError::ProtocolViolation("x".to_string()).to_string(),
        "Protocol violation: x"
    );
    assert_eq!(
        SmuxError::InsufficientData.to_string(),
        "Insufficient data for frame parsing"
    );
    assert_eq!(SmuxError::InvalidProtocol(255).to_string(), "Invalid protocol version: 255");
    let io = SmuxError::Io(IoError::new(ErrorKind::Other, "boom"));
    assert_eq!(io.to_string(), "I/O error: boom");
    assert!(!SmuxError::Io(IoError::new(ErrorKind::BrokenPipe, "")).is_recoverable());
    assert!(!SmuxError::InvalidFrame.is_recoverable());
}

#[test]
fn decimal_rendering() {
    assert_eq!(smux::error::decimal_chars(0), vec!['0']);
    assert_eq!(smux::error::decimal_chars(1203), vec!['1', '2', '0', '3']);
    let max: String = smux::error::decimal_chars(u64::MAX).into_iter().collect();
    assert_eq!(max, u64::MAX.to_string());
}
