//! The message protocol between a client and the service.

use vstd::prelude::*;
use vstd::string::*;
use crate::error::AppError;

verus! {

/// A request sent by a client.
#[derive(Debug, Clone, PartialEq, Eq)]
pub enum ClientMessage {
    /// Choose the display name; needed before any room operation.
    SetUsername { username: String },
    /// Open a new room.
    CreateRoom,
    /// Enter the room with this code.
    JoinRoom { room_code: String },
    /// Say something to the partner.
    Chat { content: String },
    /// The client started typing.
    Typing,
    /// The client stopped typing.
    StopTyping,
    /// Leave the current room.
    LeaveRoom,
}

/// Why a request was refused, as the client is told.
#[derive(Debug, Clone, Copy, PartialEq, Eq, Structural)]
pub enum ErrorCode {
    /// A room operation before a name was chosen.
    UsernameRequired,
    /// No room has that code.
    RoomNotFound,
    /// The room has two participants already.
    RoomFull,
    /// The request needs a room and the session is in none.
    NotInRoom,
    /// The session is in a room already.
    AlreadyInRoom,
    /// The message could not be understood or served.
    InvalidMessage,
}

/// A notification sent to a client.
#[derive(Debug, Clone, PartialEq, Eq)]
pub enum ServerMessage {
    /// The connection stands; this is the session's identifier.
    Connected { client_id: String },
    /// The display name was set.
    UsernameSet { username: String },
    /// A room was opened for the session.
    RoomCreated { room_code: String },
    /// The session entered a room; `partner` is the host's name.
    RoomJoined { room_code: String, partner: Option<String> },
    /// A guest entered the session's room.
    PartnerJoined { username: String },
    /// The partner said something.
    Chat { from: String, content: String },
    /// The partner is typing.
    PartnerTyping,
    /// The partner stopped typing.
    PartnerStopTyping,
    /// The partner left the room.
    PartnerLeft,
    /// A request was refused.
    Error { code: ErrorCode, message: String },
}

/// What a [`ServerMessage`] says, with every text as a sequence of
/// characters.
pub enum Notification {
    Connected { client_id: Seq<char> },
    UsernameSet { username: Seq<char> },
    RoomCreated { room_code: Seq<char> },
    RoomJoined { room_code: Seq<char>, partner: Option<Seq<char>> },
    PartnerJoined { username: Seq<char> },
    Chat { from: Seq<char>, content: Seq<char> },
    PartnerTyping,
    PartnerStopTyping,
    PartnerLeft,
    Error { code: ErrorCode, message: Seq<char> },
}

impl View for ServerMessage {
    type V = Notification;

    open spec fn view(&self) -> Notification {
        match *self {
            ServerMessage::Connected { client_id } => Notification::Connected {
                client_id: client_id@,
            },
            ServerMessage::UsernameSet { username } => Notification::UsernameSet {
                username: username@,
            },
            ServerMessage::RoomCreated { room_code } => Notification::RoomCreated {
                room_code: room_code@,
            },
            ServerMessage::RoomJoined { room_code, partner } => Notification::RoomJoined {
                room_code: room_code@,
                partner: match partner {
                    Some(name) => Some(name@),
                    None => None,
                },
            },
            ServerMessage::PartnerJoined { username } => Notification::PartnerJoined {
                username: username@,
            },
            ServerMessage::Chat { from, content } => Notification::Chat {
                from: from@,
                content: content@,
            },
            ServerMessage::PartnerTyping => Notification::PartnerTyping,
            ServerMessage::PartnerStopTyping => Notification::PartnerStopTyping,
            ServerMessage::PartnerLeft => Notification::PartnerLeft,
            ServerMessage::Error { code, message } => Notification::Error {
                code,
                message: message@,
            },
        }
    }
}

impl Notification {
    /// The refusal of a room operation for want of a name.
    pub open spec fn username_required() -> Notification {
        Notification::Error {
            code: ErrorCode::UsernameRequired,
            message: "Username is required"@,
        }
    }

    /// The refusal of a join because no room has the code `room_code`.
    pub open spec fn room_not_found(room_code: Seq<char>) -> Notification {
        Notification::Error {
            code: ErrorCode::RoomNotFound,
            message: "Room '"@ + room_code + "' not found"@,
        }
    }

    /// The refusal of a join because the room has two participants.
    pub open spec fn room_full() -> Notification {
        Notification::Error { code: ErrorCode::RoomFull, message: "Room is full"@ }
    }

    /// The refusal of a request that needs a room.
    pub open spec fn not_in_room() -> Notification {
        Notification::Error { code: ErrorCode::NotInRoom, message: "You are not in a room"@ }
    }

    /// The refusal of a second room.
    pub open spec fn already_in_room() -> Notification {
        Notification::Error {
            code: ErrorCode::AlreadyInRoom,
            message: "You are already in a room"@,
        }
    }

    /// The report of a payload that could not be decoded, with the decoder's
    /// own words.
    pub open spec fn invalid_message(detail: Seq<char>) -> Notification {
        Notification::Error {
            code: ErrorCode::InvalidMessage,
            message: "Invalid message format: "@ + detail,
        }
    }

    /// The report of a fault that is not the client's.
    pub open spec fn internal_error() -> Notification {
        Notification::Error { code: ErrorCode::InvalidMessage, message: "Internal error"@ }
    }
}

impl AppError {
    /// What a client is told of this error.
    pub open spec fn notice(self) -> Notification {
        match self {
            AppError::UsernameRequired => Notification::username_required(),
            AppError::RoomNotFound(room_code) => Notification::room_not_found(room_code@),
            AppError::RoomFull => Notification::room_full(),
            AppError::NotInRoom => Notification::not_in_room(),
            AppError::AlreadyInRoom => Notification::already_in_room(),
            AppError::Json(detail) => Notification::invalid_message(detail@),
            _ => Notification::internal_error(),
        }
    }
}

/// Two messages with the same characters are the same notification, so the
/// conversion is specified by the view of its result, in the `ensures` of
/// `from`, and not as one fixed value.
impl vstd::std_specs::convert::FromSpecImpl<AppError> for ServerMessage {
    open spec fn obeys_from_spec() -> bool {
        false
    }

    open spec fn from_spec(err: AppError) -> ServerMessage {
        choose|msg: ServerMessage| msg@ == err.notice()
    }
}

impl From<AppError> for ServerMessage {
    /// The notification that reports `err` to a client.
    fn from(err: AppError) -> (msg: ServerMessage)
        ensures
            msg@ == err.notice(),
    {
        let (code, message) = match err {
            AppError::UsernameRequired => (
                ErrorCode::UsernameRequired,
                String::from_str("Username is required"),
            ),
            AppError::RoomNotFound(room_code) => {
                let mut text = String::from_str("Room '");
                text.append(room_code.as_str());
                text.append("' not found");
                (ErrorCode::RoomNotFound, text)
            },
            AppError::RoomFull => (ErrorCode::RoomFull, String::from_str("Room is full")),
            AppError::NotInRoom => (
                ErrorCode::NotInRoom,
                String::from_str("You are not in a room"),
            ),
            AppError::AlreadyInRoom => (
                ErrorCode::AlreadyInRoom,
                String::from_str("You are already in a room"),
            ),
            AppError::Json(detail) => {
                let mut text = String::from_str("Invalid message format: ");
                text.append(detail.as_str());
                (ErrorCode::InvalidMessage, text)
            },
            _ => (ErrorCode::InvalidMessage, String::from_str("Internal error")),
        };
        ServerMessage::Error { code, message }
    }
}

} // verus!
