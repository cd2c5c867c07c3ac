use vstd::prelude::*;

verus! {

/// The standard I/O error, carried opaquely inside `SmuxError::Io`.
#[verifier::external_type_specification]
#[verifier::external_body]
pub struct ExIoError(std::io::Error);

/// The kinds of I/O error that the library tells apart; every other kind
/// is `Other`.
#[derive(Debug, Clone, Copy, PartialEq, Eq, Structural)]
pub enum IoErrorKind {
    WouldBlock,
    Interrupted,
    UnexpectedEof,
    BrokenPipe,
    Other,
}

/// What `std::io::Error::kind` gives for an error, sorted into `IoErrorKind`.
pub uninterp spec fn io_error_kind_of(e: std::io::Error) -> IoErrorKind;

/// Calls `std::io::Error::kind` and sorts the standard kind into
/// `IoErrorKind`, one arm per kind the library tells apart.
/// Trusted: the result is `io_error_kind_of` of the error.
#[verifier::external_body]
fn io_error_kind(e: &std::io::Error) -> (k: IoErrorKind)
    ensures
        k == io_error_kind_of(*e),
{
    match e.kind() {
        std::io::ErrorKind::WouldBlock => IoErrorKind::WouldBlock,
        std::io::ErrorKind::Interrupted => IoErrorKind::Interrupted,
        std::io::ErrorKind::UnexpectedEof => IoErrorKind::UnexpectedEof,
        std::io::ErrorKind::BrokenPipe => IoErrorKind::BrokenPipe,
        _ => IoErrorKind::Other,
    }
}

/// Every error condition of the library.
#[derive(Debug)]
pub enum SmuxError {
    Io(std::io::Error),
    InvalidProtocol(u8),
    FrameTooLarge { size: usize, max: usize },
    SessionClosed,
    StreamNotFound(u32),
    StreamAlreadyExists(u32),
    InvalidStreamId(u32),
    Config(String),
    InvalidFrame,
    Timeout,
    BufferOverflow,
    ProtocolViolation(String),
    InsufficientData,
}

/// An I/O error is worth retrying only when the operation would block or
/// was interrupted.
pub open spec fn io_kind_recoverable(k: IoErrorKind) -> bool {
    k is WouldBlock || k is Interrupted
}

/// Which errors a caller may retry after.
pub open spec fn spec_is_recoverable(e: SmuxError) -> bool {
    match e {
        SmuxError::Io(io) => io_kind_recoverable(io_error_kind_of(io)),
        SmuxError::Timeout => true,
        SmuxError::BufferOverflow => true,
        _ => false,
    }
}

/// The ASCII digit of a value below ten.
pub open spec fn digit_char(d: nat) -> char {
    if d == 0 { '0' }
    else if d == 1 { '1' }
    else if d == 2 { '2' }
    else if d == 3 { '3' }
    else if d == 4 { '4' }
    else if d == 5 { '5' }
    else if d == 6 { '6' }
    else if d == 7 { '7' }
    else if d == 8 { '8' }
    else { '9' }
}

/// The decimal rendering of a natural number, without leading zeros.
pub open spec fn spec_decimal(n: nat) -> Seq<char>
    decreases n,
{
    if n < 10 {
        seq![digit_char(n)]
    } else {
        spec_decimal(n / 10).push(digit_char(n % 10))
    }
}

fn digit(d: u64) -> (c: char)
    requires
        d < 10,
    ensures
        c == digit_char(d as nat),
{
    if d == 0 { '0' }
    else if d == 1 { '1' }
    else if d == 2 { '2' }
    else if d == 3 { '3' }
    else if d == 4 { '4' }
    else if d == 5 { '5' }
    else if d == 6 { '6' }
    else if d == 7 { '7' }
    else if d == 8 { '8' }
    else { '9' }
}

/// The decimal digits of `n`.
pub fn decimal_chars(n: u64) -> (v: Vec<char>)
    ensures
        v@ == spec_decimal(n as nat),
    decreases n,
{
    if n < 10 {
        let mut v: Vec<char> = Vec::new();
        v.push(digit(n));
        v
    } else {
        let mut v = decimal_chars(n / 10);
        v.push(digit(n % 10));
        v
    }
}

/// Calls `String::from_iter` on a vector of characters.
/// Trusted: the string holds exactly those characters, in order.
#[verifier::external_body]
fn string_from_chars(v: Vec<char>) -> (s: String)
    ensures
        s@ == v@,
{
    String::from_iter(v)
}

/// The text of `n` in decimal.
fn decimal_string(n: u64) -> (s: String)
    ensures
        s@ == spec_decimal(n as nat),
{
    string_from_chars(decimal_chars(n))
}

/// Appends `tail` to `head`.
fn joined(head: String, tail: &str) -> (s: String)
    ensures
        s@ == head@ + tail@,
{
    let mut s = head;
    s.append(tail);
    s
}

/// The message of an error, for every variant but `Io`, whose message
/// embeds the I/O error's own text.
pub open spec fn spec_message(e: SmuxError) -> Seq<char> {
    match e {
        SmuxError::Io(_) => "I/O error: "@,
        SmuxError::InvalidProtocol(v) => "Invalid protocol version: "@ + spec_decimal(v as nat),
        SmuxError::FrameTooLarge { size, max } =>
            "Frame too large: "@ + spec_decimal(size as nat) + " bytes (max: "@
                + spec_decimal(max as nat) + ")"@,
        SmuxError::SessionClosed => "Session closed"@,
        SmuxError::StreamNotFound(id) => "Stream not found: "@ + spec_decimal(id as nat),
        SmuxError::StreamAlreadyExists(id) => "Stream already exists: "@ + spec_decimal(id as nat),
        SmuxError::InvalidStreamId(id) => "Invalid stream ID: "@ + spec_decimal(id as nat),
        SmuxError::Config(s) => "Configuration error: "@ + s@,
        SmuxError::InvalidFrame => "Invalid frame format"@,
        SmuxError::Timeout => "Connection timeout"@,
        SmuxError::BufferOverflow => "Buffer overflow"@,
        SmuxError::ProtocolViolation(s) => "Protocol violation: "@ + s@,
        SmuxError::InsufficientData => "Insufficient data for frame parsing"@,
    }
}

impl SmuxError {
    /// Whether the operation that failed may be retried.
    pub fn is_recoverable(&self) -> (r: bool)
        ensures
            r == spec_is_recoverable(*self),
    {
        match self {
            SmuxError::Io(e) => {
                let k = io_error_kind(e);
                match k {
                    IoErrorKind::WouldBlock | IoErrorKind::Interrupted => true,
                    _ => false,
                }
            },
            SmuxError::Timeout => true,
            SmuxError::BufferOverflow => true,
            SmuxError::SessionClosed
            | SmuxError::InvalidProtocol(_)
            | SmuxError::Config(_)
            | SmuxError::ProtocolViolation(_)
            | SmuxError::InsufficientData => false,
            SmuxError::FrameTooLarge { .. }
            | SmuxError::StreamNotFound(_)
            | SmuxError::StreamAlreadyExists(_)
            | SmuxError::InvalidStreamId(_)
            | SmuxError::InvalidFrame => false,
        }
    }

    /// The human-readable message of the error. For `Io` it is the prefix
    /// followed by the I/O error's own text.
    pub fn to_string(&self) -> (s: String)
        ensures
            match *self {
                SmuxError::Io(e) => exists|t: String|
                    vstd::string::to_string_from_display_ensures::<std::io::Error>(&e, t)
                    && s@ == "I/O error: "@ + t@,
                _ => s@ == spec_message(*self),
            },
    {
        match self {
            SmuxError::Io(e) => {
                let t = e.to_string();
                joined("I/O error: ".to_owned(), t.as_str())
            },
            SmuxError::InvalidProtocol(v) => {
                let d = decimal_string(*v as u64);
                joined("Invalid protocol version: ".to_owned(), d.as_str())
            },
            SmuxError::FrameTooLarge { size, max } => {
                let a = decimal_string(*size as u64);
                let b = decimal_string(*max as u64);
                let s = joined("Frame too large: ".to_owned(), a.as_str());
                let s = joined(s, " bytes (max: ");
                let s = joined(s, b.as_str());
                joined(s, ")")
            },
            SmuxError::SessionClosed => "Session closed".to_owned(),
            SmuxError::StreamNotFound(id) => {
                let d = decimal_string(*id as u64);
                joined("Stream not found: ".to_owned(), d.as_str())
            },
            SmuxError::StreamAlreadyExists(id) => {
                let d = decimal_string(*id as u64);
                joined("Stream already exists: ".to_owned(), d.as_str())
            },
            SmuxError::InvalidStreamId(id) => {
                let d = decimal_string(*id as u64);
                joined("Invalid stream ID: ".to_owned(), d.as_str())
            },
            SmuxError::Config(m) => joined("Configuration error: ".to_owned(), m.as_str()),
            SmuxError::InvalidFrame => "Invalid frame format".to_owned(),
            SmuxError::Timeout => "Connection timeout".to_owned(),
            SmuxError::BufferOverflow => "Buffer overflow".to_owned(),
            SmuxError::ProtocolViolation(m) => joined("Protocol violation: ".to_owned(), m.as_str()),
            SmuxError::InsufficientData => "Insufficient data for frame parsing".to_owned(),
        }
    }
}

impl From<std::io::Error> for SmuxError {
    fn from(e: std::io::Error) -> (r: SmuxError) {
        SmuxError::Io(e)
    }
}

impl vstd::std_specs::convert::FromSpecImpl<std::io::Error> for SmuxError {
    open spec fn obeys_from_spec() -> bool {
        true
    }

    open spec fn from_spec(e: std::io::Error) -> SmuxError {
        SmuxError::Io(e)
    }
}

/// Only three kinds of failure may be retried: an I/O error whose operation
/// would block or was interrupted, a timeout, and a full buffer. Every other
/// I/O error (a reset or aborted connection, a denied permission, an
/// unexpected end, ...) and every other error is final.
pub proof fn lemma_recoverable_errors(e: SmuxError)
    ensures
        spec_is_recoverable(e) <==> (
            (match e {
                SmuxError::Io(io) => io_error_kind_of(io) == IoErrorKind::WouldBlock
                    || io_error_kind_of(io) == IoErrorKind::Interrupted,
                _ => false,
            })
            || e is Timeout
            || e is BufferOverflow),
{
}

} // verus!
