//! FlowType: live phone-to-PC text synchronisation.
//!
//! The library holds the protocol messages and their validation, the
//! sequence/session state machines of the phone link, the injector and the
//! text service, the grapheme diff that turns two full-text snapshots into
//! an edit, the pairing table, and the byte-level formats the processes
//! exchange.
use vstd::prelude::*;

pub mod auth;
pub mod broker;
pub mod composition;
pub mod crypto;
pub mod diff;
pub mod i18n;
pub mod injector;
pub mod pairing;
pub mod ipc;
pub mod keys;
pub mod limiter;
pub mod log;
pub mod media;
pub mod network;
pub mod presence;
pub mod protocol;
pub mod recovery;
pub mod server;
pub mod spike;
pub mod status;
pub mod settings;
pub mod shell;
pub mod session;
pub mod text;
pub mod tip;
pub mod update;
pub mod update_panel;

verus! {

/// Android <-> Windows WebSocket protocol.
pub const PROTOCOL_VERSION: u16 = 1;

/// Windows app <-> elevated injector protocol.
pub const INJECTOR_IPC_VERSION: u16 = 6;

/// Injector <-> in-process text service protocol.
pub const TIP_IPC_VERSION: u16 = 8;

/// Largest payload carried by one message.
pub const MAX_MESSAGE_BYTES: usize = 1048576;

} // verus!
