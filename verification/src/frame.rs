use vstd::prelude::*;
use bytes::Bytes;
use crate::buf::{bytes_view, bytes_empty, bytes_len, bytes_is_empty};
use crate::command::{Command, spec_is_control};
use crate::config::Config;
use crate::error::SmuxError;

verus! {

/// Bytes in a frame header: version, command, length, stream id.
pub const HEADER_SIZE: usize = 8;

/// One frame: a header and its payload.
#[derive(Debug, Clone, PartialEq, Eq)]
pub struct Frame {
    pub version: u8,
    pub cmd: Command,
    pub stream_id: u32,
    pub data: Bytes,
}

/// Why a frame is refused, in the order the checks are made.
#[derive(Debug, Clone, Copy, PartialEq, Eq, Structural)]
pub enum FrameFault {
    /// Version 0 is no protocol version.
    BadVersion(u8),
    /// An update command in a version-1 frame.
    NeedsVersion2,
    /// Header plus payload exceed the configured maximum.
    TooLarge { size: usize, max: usize },
    /// A control command with a non-empty payload.
    ControlWithData,
    /// A keep-alive with a non-zero stream id, or any other command with id 0.
    BadStreamId(u32),
}

/// The first rule a frame of these fields breaks under the frame-size
/// limit `max`, or `None`.
pub open spec fn frame_fault(version: u8, cmd: Command, stream_id: u32, data_len: nat, max: usize) -> Option<FrameFault> {
    if version == 0 {
        Some(FrameFault::BadVersion(version))
    } else if (cmd is Upd) && version < 2 {
        Some(FrameFault::NeedsVersion2)
    } else if HEADER_SIZE + data_len > max {
        Some(FrameFault::TooLarge { size: (HEADER_SIZE + data_len) as usize, max })
    } else if spec_is_control(cmd) && data_len != 0 {
        Some(FrameFault::ControlWithData)
    } else if (cmd is Nop) != (stream_id == 0) {
        Some(FrameFault::BadStreamId(stream_id))
    } else {
        None
    }
}

/// The error by which a fault is reported.
pub open spec fn fault_error(f: FrameFault, e: SmuxError) -> bool {
    match f {
        FrameFault::BadVersion(v) => e == SmuxError::InvalidProtocol(v),
        FrameFault::NeedsVersion2 => e matches SmuxError::ProtocolViolation(m)
            && m@ == "UPD command requires protocol version 2"@,
        FrameFault::TooLarge { size, max } => e == (SmuxError::FrameTooLarge { size, max }),
        FrameFault::ControlWithData => e matches SmuxError::ProtocolViolation(m)
            && m@ == "Control frames cannot carry data"@,
        FrameFault::BadStreamId(id) => e == SmuxError::InvalidStreamId(id),
    }
}

impl Frame {
    /// The payload bytes.
    pub open spec fn payload(&self) -> Seq<u8> {
        bytes_view(self.data)
    }

    /// The first rule the frame breaks under the frame-size limit `max`.
    pub open spec fn fault(&self, max: usize) -> Option<FrameFault> {
        frame_fault(self.version, self.cmd, self.stream_id, self.payload().len(), max)
    }

    pub fn new(version: u8, cmd: Command, stream_id: u32, data: Bytes) -> (f: Frame)
        ensures
            f == (Frame { version, cmd, stream_id, data }),
    {
        Frame { version, cmd, stream_id, data }
    }

    /// A stream-opening frame with no payload.
    pub fn new_syn(version: u8, stream_id: u32) -> (f: Frame)
        ensures
            f.version == version,
            f.cmd == Command::Syn,
            f.stream_id == stream_id,
            f.payload().len() == 0,
    {
        Self::new(version, Command::Syn, stream_id, bytes_empty())
    }

    /// A stream-closing frame with no payload.
    pub fn new_fin(version: u8, stream_id: u32) -> (f: Frame)
        ensures
            f.version == version,
            f.cmd == Command::Fin,
            f.stream_id == stream_id,
            f.payload().len() == 0,
    {
        Self::new(version, Command::Fin, stream_id, bytes_empty())
    }

    /// A data frame carrying `data`.
    pub fn new_psh(version: u8, stream_id: u32, data: Bytes) -> (f: Frame)
        ensures
            f == (Frame { version, cmd: Command::Psh, stream_id, data }),
    {
        Self::new(version, Command::Psh, stream_id, data)
    }

    /// A keep-alive frame: stream id 0, no payload.
    pub fn new_nop(version: u8) -> (f: Frame)
        ensures
            f.version == version,
            f.cmd == Command::Nop,
            f.stream_id == 0,
            f.payload().len() == 0,
    {
        Self::new(version, Command::Nop, 0, bytes_empty())
    }

    /// A window-update frame with no payload; the counters travel in the command.
    pub fn new_upd(version: u8, stream_id: u32, consumed: u32, window: u32) -> (f: Frame)
        ensures
            f.version == version,
            f.cmd == (Command::Upd { consumed, window }),
            f.stream_id == stream_id,
            f.payload().len() == 0,
    {
        Self::new(version, Command::Upd { consumed, window }, stream_id, bytes_empty())
    }

    /// Header plus payload length.
    pub fn total_size(&self) -> (n: usize)
        ensures
            n == HEADER_SIZE + self.payload().len(),
    {
        HEADER_SIZE + bytes_len(&self.data)
    }

    /// Payload length.
    pub fn data_len(&self) -> (n: usize)
        ensures
            n == self.payload().len(),
    {
        bytes_len(&self.data)
    }

    /// Whether the payload is empty.
    pub fn is_empty(&self) -> (r: bool)
        ensures
            r == (self.payload().len() == 0),
    {
        bytes_is_empty(&self.data)
    }

    /// Checks the frame against the protocol rules and the configured
    /// frame-size limit, reporting the first rule broken.
    pub fn validate(&self, config: &Config) -> (r: Result<(), SmuxError>)
        ensures
            self.fault(config.max_frame_size) is None ==> r is Ok,
            self.fault(config.max_frame_size) matches Some(f) ==> (r matches Err(e) && fault_error(f, e)),
    {
        if self.version == 0 {
            return Err(SmuxError::InvalidProtocol(self.version));
        }
        if self.cmd.requires_v2() && self.version < 2 {
            return Err(SmuxError::ProtocolViolation("UPD command requires protocol version 2".to_owned()));
        }
        if self.total_size() > config.max_frame_size {
            return Err(SmuxError::FrameTooLarge { size: self.total_size(), max: config.max_frame_size });
        }
        if self.cmd.is_control() && !bytes_is_empty(&self.data) {
            return Err(SmuxError::ProtocolViolation("Control frames cannot carry data".to_owned()));
        }
        self.validate_stream_id()
    }

    fn validate_stream_id(&self) -> (r: Result<(), SmuxError>)
        ensures
            ((self.cmd is Nop) != (self.stream_id == 0)) ==> r == Err::<(), SmuxError>(SmuxError::InvalidStreamId(self.stream_id)),
            ((self.cmd is Nop) == (self.stream_id == 0)) ==> r is Ok,
    {
        match self.cmd {
            Command::Nop => {
                if self.stream_id != 0 {
                    return Err(SmuxError::InvalidStreamId(self.stream_id));
                }
            },
            _ => {
                if self.stream_id == 0 {
                    return Err(SmuxError::InvalidStreamId(self.stream_id));
                }
            },
        }
        Ok(())
    }

    /// The consumed counter, for an update frame.
    pub fn consumed(&self) -> (r: Option<u32>)
        ensures
            r == (match self.cmd {
                Command::Upd { consumed, .. } => Some(consumed),
                _ => None::<u32>,
            }),
    {
        self.cmd.consumed()
    }

    /// The window, for an update frame.
    pub fn window(&self) -> (r: Option<u32>)
        ensures
            r == (match self.cmd {
                Command::Upd { window, .. } => Some(window),
                _ => None::<u32>,
            }),
    {
        self.cmd.window()
    }
}

/// The protocol rules, stated in full: a frame is accepted exactly when its
/// version is not 0, an update frame is of version 2 or later (every other
/// command is carried by any version, 1 and 2 alike), header plus payload
/// fit the limit, only a data frame carries a payload, and the stream id is
/// 0 exactly for a keep-alive. The version rule refuses an update frame of
/// version 1 and nothing else.
pub proof fn lemma_frame_rules(f: Frame, max: usize)
    ensures
        f.fault(max) is None <==> (
            f.version != 0
            && (f.cmd is Upd ==> f.version >= 2)
            && 8 + f.payload().len() <= max
            && (!(f.cmd is Psh) ==> f.payload().len() == 0)
            && ((f.cmd is Nop) <==> f.stream_id == 0)),
        f.fault(max) == Some(FrameFault::NeedsVersion2) <==> (f.cmd is Upd && f.version == 1),
        f.fault(max) == Some(FrameFault::BadVersion(0)) <==> f.version == 0,
{
}

} // verus!
