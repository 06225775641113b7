//! Support layer of a peer-to-peer QUIC connection manager.
//!
//! What the connection manager needs beside the protocol itself:
//!
//! - `terminator`: the signal that calls off a connection attempt;
//! - `dirs`: the application's default data directories;
//! - `format`: a short rendering of binary payloads for log lines;
//! - `persist`: what a caller is told when a record cannot be loaded or
//!   stored;
//! - `context`: the cleanup after a failed exchange with a peer, over the
//!   shared `registry` of connections and the channel of `event`s.
//!
//! Every function states what it returns or changes, and the statement is
//! proved. What rests on code of other crates is marked where it stands.

pub mod context;
pub mod dirs;
pub mod error;
pub mod event;
pub mod format;
pub mod peer;
pub mod persist;
pub mod registry;
pub mod terminator;

pub use context::{handle_communication_err, Context};
pub use dirs::{project_dir, Dirs, Platform};
pub use error::{CodecFailure, Error, IoErrorKind, R};
pub use event::{Event, EventChannel};
pub use format::bin_data_format;
pub use peer::PeerAddr;
pub use persist::{read_outcome, write_outcome};
pub use registry::Registry;
pub use terminator::{connect_terminator, ConnectTerminator};
