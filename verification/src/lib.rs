//! Coordination core of a 1:1 chat service.
//!
//! Two sessions are paired in a private room identified by a short code.
//! All state lives in one [`ChatServer`], which handles one command at a
//! time and answers with the notifications to deliver.

pub mod client;
pub mod error;
pub mod handler;
pub mod laws;
pub mod message;
pub mod model;
pub mod room;
pub mod server;
pub mod types;

pub use client::{Client, ClientState};
pub use error::{AppError, SendError};
pub use handler::{client_message_to_command, connected_message, on_frame, Frame, ReadAction};
pub use message::{ClientMessage, ErrorCode, Notification, ServerMessage};
pub use model::{Delivery, ServerState, Step};
pub use room::{Room, RoomState};
pub use server::{ChatServer, Outbound, ServerCommand};
pub use types::{ClientId, RoomCode};
