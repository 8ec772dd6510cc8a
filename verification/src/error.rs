//! Error types of the chat service.

use vstd::prelude::*;

verus! {

/// What can go wrong while serving a session.
///
/// The first four variants are faults of the transport, which end a
/// connection; the text they carry is the fault's own description. The
/// others are refusals of a request, reported to the session that made it.
#[derive(Debug, Clone, PartialEq, Eq)]
pub enum AppError {
    /// The WebSocket protocol failed.
    WebSocket(String),
    /// A payload could not be encoded or decoded.
    Json(String),
    /// An input or output operation failed.
    Io(String),
    /// The command queue of the coordinator is closed.
    ChannelSend,
    /// No room has the given code.
    RoomNotFound(String),
    /// The room already has two participants.
    RoomFull,
    /// The session has not chosen a name yet.
    UsernameRequired,
    /// The session is in no room.
    NotInRoom,
    /// The session is in a room already.
    AlreadyInRoom,
    /// No unused room code was found within the allowed number of draws.
    RoomCodeUnavailable,
}

/// Why a notification could not be handed to a session.
#[derive(Debug, Clone, Copy, PartialEq, Eq, Structural)]
pub enum SendError {
    /// The receiving end of the session's channel is gone.
    ChannelClosed,
}

} // verus!
