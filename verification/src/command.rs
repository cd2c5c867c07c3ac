use vstd::prelude::*;
use crate::error::SmuxError;

verus! {

/// The command carried in a frame header.
#[derive(Debug, Clone, Copy, PartialEq, Eq, Structural)]
pub enum Command {
    /// Opens a new stream.
    Syn,
    /// Closes one direction of a stream.
    Fin,
    /// Carries stream data.
    Psh,
    /// Keep-alive, carries nothing.
    Nop,
    /// Flow-control window update (protocol version 2 only).
    Upd { consumed: u32, window: u32 },
}

/// The wire byte of a command.
pub open spec fn spec_cmd_byte(c: Command) -> u8 {
    match c {
        Command::Syn => Command::SYN,
        Command::Fin => Command::FIN,
        Command::Psh => Command::PSH,
        Command::Nop => Command::NOP,
        Command::Upd { .. } => Command::UPD,
    }
}

/// The command a wire byte denotes, if any. An update command read from
/// its byte alone carries zero counters; the counters travel in the payload.
pub open spec fn spec_cmd_from_byte(b: u8) -> Option<Command> {
    if b == Command::SYN {
        Some(Command::Syn)
    } else if b == Command::FIN {
        Some(Command::Fin)
    } else if b == Command::PSH {
        Some(Command::Psh)
    } else if b == Command::NOP {
        Some(Command::Nop)
    } else if b == Command::UPD {
        Some(Command::Upd { consumed: 0, window: 0 })
    } else {
        None
    }
}

/// Commands that carry no user data.
pub open spec fn spec_is_control(c: Command) -> bool {
    !(c is Psh)
}

/// Two commands are of the same kind when they differ at most in the
/// counters of an update.
pub open spec fn same_kind(a: Command, b: Command) -> bool {
    spec_cmd_byte(a) == spec_cmd_byte(b)
}

impl Command {
    /// Wire value of `Syn`.
    pub const SYN: u8 = 0;
    /// Wire value of `Fin`.
    pub const FIN: u8 = 1;
    /// Wire value of `Psh`.
    pub const PSH: u8 = 2;
    /// Wire value of `Nop`.
    pub const NOP: u8 = 3;
    /// Wire value of `Upd`.
    pub const UPD: u8 = 4;

    /// Reads a command from its wire byte; any byte above 4 is an
    /// `InvalidFrame` error.
    pub fn from_byte(byte: u8) -> (res: Result<Command, SmuxError>)
        ensures
            match spec_cmd_from_byte(byte) {
                Some(c) => res matches Ok(r) && r == c,
                None => res matches Err(e) && e is InvalidFrame,
            },
    {
        match byte {
            0 => Ok(Command::Syn),
            1 => Ok(Command::Fin),
            2 => Ok(Command::Psh),
            3 => Ok(Command::Nop),
            4 => Ok(Command::Upd { consumed: 0, window: 0 }),
            _ => Err(SmuxError::InvalidFrame),
        }
    }

    /// The wire byte of the command.
    pub fn to_byte(self) -> (b: u8)
        ensures
            b == spec_cmd_byte(self),
    {
        match self {
            Command::Syn => Self::SYN,
            Command::Fin => Self::FIN,
            Command::Psh => Self::PSH,
            Command::Nop => Self::NOP,
            Command::Upd { .. } => Self::UPD,
        }
    }

    /// Whether the command is a control command (everything but `Psh`).
    pub fn is_control(self) -> (r: bool)
        ensures
            r == spec_is_control(self),
    {
        match self {
            Command::Syn | Command::Fin | Command::Nop | Command::Upd { .. } => true,
            Command::Psh => false,
        }
    }

    /// Whether frames of this command may carry user data (only `Psh`).
    pub fn can_carry_data(self) -> (r: bool)
        ensures
            r == (self is Psh),
    {
        match self {
            Command::Psh => true,
            _ => false,
        }
    }

    /// Whether the command exists only from protocol version 2 on (only `Upd`).
    pub fn requires_v2(self) -> (r: bool)
        ensures
            r == (self is Upd),
    {
        match self {
            Command::Upd { .. } => true,
            _ => false,
        }
    }

    /// The consumed counter of an update command.
    pub fn consumed(self) -> (r: Option<u32>)
        ensures
            r == (match self {
                Command::Upd { consumed, .. } => Some(consumed),
                _ => None::<u32>,
            }),
    {
        match self {
            Command::Upd { consumed, .. } => Some(consumed),
            _ => None,
        }
    }

    /// The window of an update command.
    pub fn window(self) -> (r: Option<u32>)
        ensures
            r == (match self {
                Command::Upd { window, .. } => Some(window),
                _ => None::<u32>,
            }),
    {
        match self {
            Command::Upd { window, .. } => Some(window),
            _ => None,
        }
    }
}

/// Reading back the byte of a command gives a command of the same kind;
/// for every command but an update it gives the command itself.
pub proof fn lemma_command_byte_roundtrip(c: Command)
    ensures
        spec_cmd_from_byte(spec_cmd_byte(c)) is Some,
        same_kind(spec_cmd_from_byte(spec_cmd_byte(c)).unwrap(), c),
        !(c is Upd) ==> spec_cmd_from_byte(spec_cmd_byte(c)) == Some(c),
{
}

/// A byte that names a command is the byte of the command it names, and
/// exactly the bytes 0 to 4 name a command.
pub proof fn lemma_byte_command_roundtrip(b: u8)
    ensures
        spec_cmd_from_byte(b) is Some <==> b <= 4,
        spec_cmd_from_byte(b) is Some ==> spec_cmd_byte(spec_cmd_from_byte(b).unwrap()) == b,
{
}

} // verus!
