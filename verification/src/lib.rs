//! Stream multiplexing over a single connection: the frame format, its
//! codec, configuration, stream-id allocation and the per-frame decisions of
//! a session, each with a contract proved by Verus.

pub mod buf;
pub mod channel;
pub mod codec;
pub mod command;
pub mod config;
pub mod error;
pub mod frame;
pub mod session;
pub mod stream;
pub mod stream_id;
pub mod table;

pub use codec::Codec;
pub use command::Command;
pub use config::{Config, ConfigBuilder};
pub use error::SmuxError;
pub use frame::Frame;
pub use stream_id::StreamIdGenerator;

use vstd::prelude::*;

verus! {

/// The result of the library's fallible operations.
pub type Result<T> = std::result::Result<T, SmuxError>;

} // verus!
