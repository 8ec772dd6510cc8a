//! The decisions of a connection: how what arrives from one client becomes
//! commands for the coordinator.
//!
//! Reading and writing the connection is the caller's part. For each frame
//! it reads, the caller asks [`on_frame`] what to do.

use vstd::prelude::*;
use crate::message::{ClientMessage, Notification, ServerMessage};
use crate::server::ServerCommand;
use crate::types::{hyphenated, ClientId};

verus! {

/// The command that the request `msg` of the session `client_id` stands for.
pub open spec fn command_of(client_id: ClientId, msg: ClientMessage) -> ServerCommand {
    match msg {
        ClientMessage::SetUsername { username } => ServerCommand::SetUsername {
            client_id,
            username,
        },
        ClientMessage::CreateRoom => ServerCommand::CreateRoom { client_id },
        ClientMessage::JoinRoom { room_code } => ServerCommand::JoinRoom { client_id, room_code },
        ClientMessage::Chat { content } => ServerCommand::Chat { client_id, content },
        ClientMessage::Typing => ServerCommand::Typing { client_id },
        ClientMessage::StopTyping => ServerCommand::StopTyping { client_id },
        ClientMessage::LeaveRoom => ServerCommand::LeaveRoom { client_id },
    }
}

/// Turns a client's request into a command, tagged with the session.
pub fn client_message_to_command(client_id: ClientId, msg: ClientMessage) -> (cmd: ServerCommand)
    ensures
        cmd == command_of(client_id, msg),
{
    match msg {
        ClientMessage::SetUsername { username } => ServerCommand::SetUsername {
            client_id,
            username,
        },
        ClientMessage::CreateRoom => ServerCommand::CreateRoom { client_id },
        ClientMessage::JoinRoom { room_code } => ServerCommand::JoinRoom { client_id, room_code },
        ClientMessage::Chat { content } => ServerCommand::Chat { client_id, content },
        ClientMessage::Typing => ServerCommand::Typing { client_id },
        ClientMessage::StopTyping => ServerCommand::StopTyping { client_id },
        ClientMessage::LeaveRoom => ServerCommand::LeaveRoom { client_id },
    }
}

/// The greeting of a new connection: it tells the client its identifier.
pub fn connected_message(client_id: ClientId) -> (msg: ServerMessage)
    ensures
        msg@ == (Notification::Connected { client_id: hyphenated(client_id.0) }),
{
    ServerMessage::Connected { client_id: client_id.to_string() }
}

/// What was read from a client's connection.
#[derive(Debug, Clone, PartialEq, Eq)]
pub enum Frame {
    /// A text frame that holds a request.
    Request(ClientMessage),
    /// A text frame that holds no valid request.
    Malformed,
    /// The client closes the connection.
    Close,
    /// A ping; the transport answers it.
    Ping,
    /// A pong.
    Pong,
    /// A frame of another kind, such as binary data.
    Other,
    /// The transport failed.
    Failed,
}

/// What to do after a frame was read.
#[derive(Debug, Clone, PartialEq, Eq)]
pub enum ReadAction {
    /// Hand the command to the coordinator and read on.
    Forward(ServerCommand),
    /// Read on.
    Skip,
    /// Stop reading; the session ends.
    Stop,
}

/// What the frame `frame` on the connection of `client_id` calls for.
pub open spec fn action_for(client_id: ClientId, frame: Frame) -> ReadAction {
    match frame {
        Frame::Request(msg) => ReadAction::Forward(command_of(client_id, msg)),
        Frame::Close | Frame::Failed => ReadAction::Stop,
        Frame::Malformed | Frame::Ping | Frame::Pong | Frame::Other => ReadAction::Skip,
    }
}

/// Decides what to do with a frame: a request is forwarded as a command, a
/// close frame or a failure ends the session, and anything else, a
/// malformed request too, is passed over.
pub fn on_frame(client_id: ClientId, frame: Frame) -> (action: ReadAction)
    ensures
        action == action_for(client_id, frame),
{
    match frame {
        Frame::Request(msg) => ReadAction::Forward(client_message_to_command(client_id, msg)),
        Frame::Close => ReadAction::Stop,
        Frame::Failed => ReadAction::Stop,
        _ => ReadAction::Skip,
    }
}

} // verus!
