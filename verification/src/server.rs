//! The coordinator: the one owner of every session and room.
//!
//! A [`ChatServer`] takes one [`ServerCommand`] at a time, changes its
//! registries, and returns the notifications to deliver. Each handler is
//! specified by the request of the same name on [`ServerState`].

use vstd::prelude::*;
use vstd::hash_map::StringHashMap;
use vstd::string::*;
use std::collections::HashMap;
use crate::client::{Client, ClientState};
use crate::error::AppError;
use crate::message::ServerMessage;
use crate::model::{Delivery, ServerState, Step};
use std::time::Instant;
use crate::room::Room;
use crate::types::{uppercase_of, ClientId, RoomCode};

verus! {

broadcast use vstd::std_specs::hash::group_hash_axioms;

/// A request to the coordinator, with the session that makes it.
#[derive(Debug, Clone, PartialEq, Eq)]
pub enum ServerCommand {
    /// A new session connected.
    Connect { client_id: ClientId },
    /// The session's connection ended.
    Disconnect { client_id: ClientId },
    /// Set the session's display name.
    SetUsername { client_id: ClientId, username: String },
    /// Open a new room.
    CreateRoom { client_id: ClientId },
    /// Enter the room with this code, in any spelling.
    JoinRoom { client_id: ClientId, room_code: String },
    /// Say something to the partner.
    Chat { client_id: ClientId, content: String },
    /// The session started typing.
    Typing { client_id: ClientId },
    /// The session stopped typing.
    StopTyping { client_id: ClientId },
    /// Leave the current room.
    LeaveRoom { client_id: ClientId },
}

/// How many codes are drawn for a new room before the request fails.
pub const MAX_CODE_ATTEMPTS: usize = 64;

/// A notification together with the session that is to receive it.
#[derive(Debug, Clone, PartialEq, Eq)]
pub struct Outbound {
    /// The receiving session.
    pub to: ClientId,
    /// The notification.
    pub message: ServerMessage,
}

impl View for Outbound {
    type V = Delivery;

    open spec fn view(&self) -> Delivery {
        Delivery { to: self.to, notice: self.message@ }
    }
}

/// What a list of outbound notifications says, in order.
pub open spec fn deliveries(out: Seq<Outbound>) -> Seq<Delivery> {
    out.map_values(|o: Outbound| o@)
}

/// The outcome of a request as seen on a coordinator: its state after the
/// request, and what the returned notifications say.
pub open spec fn step_of(state: ServerState, out: Seq<Outbound>) -> Step {
    Step { state, out: deliveries(out) }
}

/// Adds `message` for `to` at the end of `out`.
fn notify(out: &mut Vec<Outbound>, to: ClientId, message: ServerMessage)
    ensures
        deliveries(final(out)@) == deliveries(old(out)@).push(
            Delivery { to, notice: message@ },
        ),
{
    out.push(Outbound { to, message });
    assert(deliveries(out@) =~= deliveries(old(out)@).push(Delivery { to, notice: message@ }));
}

impl ServerState {
    /// Whether `next` is a way for the command `cmd` to end in this state.
    /// All commands but `CreateRoom`, which draws a random code, have one
    /// outcome.
    pub open spec fn handles(self, cmd: ServerCommand, next: Step) -> bool {
        match cmd {
            ServerCommand::Connect { client_id } => next == self.connect(client_id),
            ServerCommand::Disconnect { client_id } => next == self.disconnect(client_id),
            ServerCommand::SetUsername { client_id, username } => next == self.set_username(
                client_id,
                username@,
            ),
            ServerCommand::CreateRoom { client_id } => self.creates_room(client_id, next),
            ServerCommand::JoinRoom { client_id, room_code } => next == self.join_room(
                client_id,
                uppercase_of(room_code@),
            ),
            ServerCommand::Chat { client_id, content } => next == self.chat(client_id, content@),
            ServerCommand::Typing { client_id } => next == self.typing(client_id),
            ServerCommand::StopTyping { client_id } => next == self.stop_typing(client_id),
            ServerCommand::LeaveRoom { client_id } => next == self.leave_room(client_id),
        }
    }
}

/// The coordinator's state.
pub struct ChatServer {
    /// The connected sessions, by the bits of their identifier.
    clients: HashMap<u128, Client>,
    /// The open rooms, by code.
    rooms: StringHashMap<Room>,
    /// The room of each session that is in one.
    client_rooms: HashMap<u128, RoomCode>,
}

impl View for ChatServer {
    type V = ServerState;

    closed spec fn view(&self) -> ServerState {
        ServerState {
            clients: Map::new(
                |id: ClientId| self.clients@.contains_key(id.0),
                |id: ClientId| self.clients@[id.0]@,
            ),
            rooms: Map::new(
                |code: Seq<char>| self.rooms@.contains_key(code),
                |code: Seq<char>| self.rooms@[code]@,
            ),
            client_rooms: Map::new(
                |id: ClientId| self.client_rooms@.contains_key(id.0),
                |id: ClientId| self.client_rooms@[id.0]@,
            ),
        }
    }
}

impl ChatServer {
    /// Whether the registries are in order: each record is filed under its
    /// own identifier or code, and the state is consistent.
    pub closed spec fn wf(&self) -> bool {
        &&& forall|k: u128| #[trigger]
            self.clients@.contains_key(k) ==> self.clients@[k].id == ClientId(k)
        &&& forall|code: Seq<char>| #[trigger]
            self.rooms@.contains_key(code) ==> self.rooms@[code].code@ == code
        &&& self@.consistent()
    }

    /// A well-formed coordinator is in a consistent state.
    pub proof fn lemma_wf_consistent(&self)
        requires
            self.wf(),
        ensures
            self@.consistent(),
    {
    }

    /// When the room with the code `code` was created.
    pub closed spec fn created_at(&self, code: Seq<char>) -> Instant {
        self.rooms@[code].created_at
    }

    /// Whether every room that was open in `before` and is open still has
    /// kept its time of creation.
    pub open spec fn keeps_creation_times(&self, before: &Self) -> bool {
        forall|code: Seq<char>|
            before@.rooms.contains_key(code) && self@.rooms.contains_key(code)
                ==> #[trigger] self.created_at(code) == before.created_at(code)
    }

    /// A coordinator without sessions or rooms.
    pub fn new() -> (server: Self)
        ensures
            server.wf(),
            server@ == ServerState::empty(),
    {
        let server = ChatServer {
            clients: HashMap::new(),
            rooms: StringHashMap::new(),
            client_rooms: HashMap::new(),
        };
        assert(server@.clients =~= Map::empty());
        assert(server@.rooms =~= Map::empty());
        assert(server@.client_rooms =~= Map::empty());
        server
    }

    /// The record of the session `client_id`, if it is connected.
    pub fn client(&self, client_id: ClientId) -> (found: Option<&Client>)
        requires
            self.wf(),
        ensures
            found is Some == self@.clients.contains_key(client_id),
            found matches Some(client) ==> client.id == client_id && client@
                == self@.clients[client_id],
    {
        self.clients.get(&client_id.0)
    }

    /// The room with the code `code`, if there is one.
    pub fn room(&self, code: &RoomCode) -> (found: Option<&Room>)
        requires
            self.wf(),
        ensures
            found is Some == self@.rooms.contains_key(code@),
            found matches Some(room) ==> room.code@ == code@ && room@ == self@.rooms[code@]
                && room.created_at == self.created_at(code@),
    {
        self.rooms.get(code.0.as_str())
    }

    /// The code of the room that the session `client_id` is in, if any.
    pub fn room_of(&self, client_id: ClientId) -> (found: Option<&RoomCode>)
        requires
            self.wf(),
        ensures
            found is Some == self@.client_rooms.contains_key(client_id),
            found matches Some(code) ==> code@ == self@.client_rooms[client_id],
    {
        self.client_rooms.get(&client_id.0)
    }

    /// Registers a session that has just connected.
    pub fn handle_connect(&mut self, client_id: ClientId) -> (out: Vec<Outbound>)
        requires
            old(self).wf(),
        ensures
            final(self).wf(),
            final(self).keeps_creation_times(old(self)),
            final(self)@ == old(self)@.connect(client_id).state,
            deliveries(out@) == old(self)@.connect(client_id).out,
    {
        self.clients.insert(client_id.0, Client::new(client_id));
        proof {
            let before = old(self)@;
            assert(self@.clients =~= before.connect(client_id).state.clients);
            assert(self@.rooms =~= before.rooms);
            assert(self@.client_rooms =~= before.client_rooms);
        }
        let out: Vec<Outbound> = Vec::new();
        assert(deliveries(out@) =~= Seq::empty());
        out
    }

    /// Serves one command and returns the notifications to deliver, in
    /// order.
    pub fn handle_command(&mut self, cmd: ServerCommand) -> (out: Vec<Outbound>)
        requires
            old(self).wf(),
        ensures
            final(self).wf(),
            final(self).keeps_creation_times(old(self)),
            old(self)@.handles(cmd, step_of(final(self)@, out@)),
    {
        match cmd {
            ServerCommand::Connect { client_id } => self.handle_connect(client_id),
            ServerCommand::Disconnect { client_id } => self.handle_disconnect(client_id),
            ServerCommand::SetUsername { client_id, username } => self.handle_set_username(
                client_id,
                username,
            ),
            ServerCommand::CreateRoom { client_id } => self.handle_create_room(client_id),
            ServerCommand::JoinRoom { client_id, room_code } => self.handle_join_room(
                client_id,
                room_code,
            ),
            ServerCommand::Chat { client_id, content } => self.handle_chat(client_id, content),
            ServerCommand::Typing { client_id } => self.handle_typing(client_id),
            ServerCommand::StopTyping { client_id } => self.handle_stop_typing(client_id),
            ServerCommand::LeaveRoom { client_id } => self.handle_leave_room(client_id),
        }
    }

    /// Opens a room for a session under a freshly drawn code. Unless the
    /// request is refused, codes are drawn until one is free, at most
    /// [`MAX_CODE_ATTEMPTS`] times; if none is, the session is told of an
    /// internal error.
    pub fn handle_create_room(&mut self, client_id: ClientId) -> (out: Vec<Outbound>)
        requires
            old(self).wf(),
        ensures
            final(self).wf(),
            final(self).keeps_creation_times(old(self)),
            old(self)@.creates_room(client_id, step_of(final(self)@, out@)),
    {
        if let Some(out) = self.refuse_entry(client_id) {
            return out;
        }
        let ghost before = self@;
        let mut attempts: usize = 0;
        while attempts < MAX_CODE_ATTEMPTS
            invariant
                self.wf(),
                self@ == before,
                self.keeps_creation_times(old(self)),
                before == old(self)@,
                before.entry_refusal(client_id) is None,
                attempts <= MAX_CODE_ATTEMPTS,
                attempts > 0 ==> exists|taken: Seq<char>| before.rooms.contains_key(taken),
            decreases MAX_CODE_ATTEMPTS - attempts,
        {
            let code = RoomCode::generate();
            let ghost drawn = code@;
            match self.create_room_with(client_id, code) {
                Some(out) => {
                    assert(step_of(self@, out@) == before.create_room(client_id, drawn));
                    return out;
                },
                None => {
                    assert(before.rooms.contains_key(drawn));
                },
            }
            attempts += 1;
        }
        let mut out: Vec<Outbound> = Vec::new();
        assert(deliveries(out@) =~= Seq::empty());
        notify(&mut out, client_id, ServerMessage::from(AppError::RoomCodeUnavailable));
        assert(deliveries(out@) =~= before.no_code_drawn(client_id).out);
        out
    }

    /// The answer to a request to create or join a room that ends before any
    /// room is looked at; `None` if the request passes.
    fn refuse_entry(&self, client_id: ClientId) -> (refusal: Option<Vec<Outbound>>)
        requires
            self.wf(),
        ensures
            refusal is Some == self@.entry_refusal(client_id) is Some,
            refusal matches Some(out) ==> step_of(self@, out@) == self@.entry_refusal(
                client_id,
            )->0,
    {
        let mut out: Vec<Outbound> = Vec::new();
        assert(deliveries(out@) =~= Seq::empty());
        let has_username = match self.clients.get(&client_id.0) {
            Some(client) => client.has_username(),
            None => {
                return Some(out);
            },
        };
        if !has_username {
            notify(&mut out, client_id, ServerMessage::from(AppError::UsernameRequired));
            assert(deliveries(out@) =~= self@.entry_refusal(client_id)->0.out);
            return Some(out);
        }
        if self.client_rooms.contains_key(&client_id.0) {
            notify(&mut out, client_id, ServerMessage::from(AppError::AlreadyInRoom));
            assert(deliveries(out@) =~= self@.entry_refusal(client_id)->0.out);
            return Some(out);
        }
        None
    }

    /// Opens a room for a session under the code `code`, if the code is
    /// free. Returns `None`, and changes nothing, if the request would be
    /// granted but the code is not free: another code has to be drawn.
    pub fn create_room_with(&mut self, client_id: ClientId, code: RoomCode) -> (served: Option<
        Vec<Outbound>,
    >)
        requires
            old(self).wf(),
        ensures
            final(self).wf(),
            final(self).keeps_creation_times(old(self)),
            served is Some <==> old(self)@.entry_refusal(client_id) is Some
                || old(self)@.code_is_free(code@),
            served matches Some(out) ==> step_of(final(self)@, out@) == old(self)@.create_room(
                client_id,
                code@,
            ),
            served is None ==> final(self)@ == old(self)@,
    {
        if let Some(out) = self.refuse_entry(client_id) {
            return Some(out);
        }
        let mut out: Vec<Outbound> = Vec::new();
        assert(deliveries(out@) =~= Seq::empty());
        if !code.is_canonical() || self.rooms.contains_key(code.0.as_str()) {
            return None;
        }
        let room_code = code.to_string();
        let room = Room::new(RoomCode(code.0.clone()), client_id);
        self.rooms.insert(code.0.clone(), room);
        self.client_rooms.insert(client_id.0, code);
        notify(&mut out, client_id, ServerMessage::RoomCreated { room_code });
        proof {
            let before = old(self)@;
            let step = before.create_room(client_id, code@);
            assert(self@.clients =~= step.state.clients);
            assert(self@.rooms =~= step.state.rooms);
            assert(self@.client_rooms =~= step.state.client_rooms);
            assert(deliveries(out@) =~= step.out);
            assert forall|code2: Seq<char>, id2: ClientId|
                self@.rooms.contains_key(code2) && #[trigger] self@.rooms[code2].contains(
                    id2,
                ) implies self@.client_rooms.contains_key(id2) && self@.client_rooms[id2]
                == code2 by {
                if code2 != code@ {
                    assert(before.rooms[code2].contains(id2));
                }
            }
        }
        Some(out)
    }

    /// Lets a session enter the room whose code it typed as `room_code`, in
    /// any spelling.
    pub fn handle_join_room(&mut self, client_id: ClientId, room_code: String) -> (out: Vec<
        Outbound,
    >)
        requires
            old(self).wf(),
        ensures
            final(self).wf(),
            final(self).keeps_creation_times(old(self)),
            step_of(final(self)@, out@) == old(self)@.join_room(
                client_id,
                uppercase_of(room_code@),
            ),
    {
        self.join_room(client_id, RoomCode::from_string(room_code))
    }

    /// Lets a session enter the room with the canonical code `code` as its
    /// guest, and tells both participants.
    pub fn join_room(&mut self, client_id: ClientId, code: RoomCode) -> (out: Vec<Outbound>)
        requires
            old(self).wf(),
        ensures
            final(self).wf(),
            final(self).keeps_creation_times(old(self)),
            step_of(final(self)@, out@) == old(self)@.join_room(client_id, code@),
    {
        let ghost before = self@;
        let ghost step = before.join_room(client_id, code@);
        let mut out: Vec<Outbound> = Vec::new();
        assert(deliveries(out@) =~= Seq::empty());
        let guest_name = match self.clients.get(&client_id.0) {
            Some(client) => match &client.username {
                Some(name) => name.clone(),
                None => {
                    notify(&mut out, client_id, ServerMessage::from(AppError::UsernameRequired));
                    assert(deliveries(out@) =~= step.out);
                    return out;
                },
            },
            None => {
                return out;
            },
        };
        if self.client_rooms.contains_key(&client_id.0) {
            notify(&mut out, client_id, ServerMessage::from(AppError::AlreadyInRoom));
            assert(deliveries(out@) =~= step.out);
            return out;
        }
        let joined = match self.rooms.get(code.0.as_str()) {
            Some(found) => {
                let mut room = Room {
                    code: RoomCode(found.code.0.clone()),
                    host: found.host,
                    guest: found.guest,
                    created_at: found.created_at,
                };
                if room.add_guest(client_id) {
                    Some(room)
                } else {
                    None
                }
            },
            None => {
                notify(
                    &mut out,
                    client_id,
                    ServerMessage::from(AppError::RoomNotFound(code.to_string())),
                );
                assert(deliveries(out@) =~= step.out);
                return out;
            },
        };
        let room = match joined {
            Some(room) => room,
            None => {
                notify(&mut out, client_id, ServerMessage::from(AppError::RoomFull));
                assert(deliveries(out@) =~= step.out);
                return out;
            },
        };
        let host_id = room.host;
        let room_code = code.to_string();
        self.rooms.insert(code.0.clone(), room);
        self.client_rooms.insert(client_id.0, code);
        proof {
            assert(before.rooms[code@].contains(host_id));
        }
        let host_name = match self.clients.get(&host_id.0) {
            Some(host) => match &host.username {
                Some(name) => Some(name.clone()),
                None => None,
            },
            None => None,
        };
        notify(&mut out, client_id, ServerMessage::RoomJoined { room_code, partner: host_name });
        if self.clients.contains_key(&host_id.0) {
            notify(&mut out, host_id, ServerMessage::PartnerJoined { username: guest_name });
        }
        proof {
            assert(self@.clients =~= step.state.clients);
            assert(self@.rooms =~= step.state.rooms);
            assert(self@.client_rooms =~= step.state.client_rooms);
            assert(deliveries(out@) =~= step.out);
            assert forall|code2: Seq<char>, id2: ClientId|
                self@.rooms.contains_key(code2) && #[trigger] self@.rooms[code2].contains(
                    id2,
                ) implies self@.client_rooms.contains_key(id2) && self@.client_rooms[id2]
                == code2 by {
                if id2 != client_id {
                    assert(before.rooms[code2].contains(id2));
                } else if code2 != code@ {
                    assert(before.rooms[code2].contains(id2));
                }
            }
        }
        out
    }

    /// Removes a session, and takes it out of its room if it is in one.
    pub fn handle_disconnect(&mut self, client_id: ClientId) -> (out: Vec<Outbound>)
        requires
            old(self).wf(),
        ensures
            final(self).wf(),
            final(self).keeps_creation_times(old(self)),
            step_of(final(self)@, out@) == old(self)@.disconnect(client_id),
    {
        let out = if self.client_rooms.contains_key(&client_id.0) {
            self.remove_client_from_room(client_id)
        } else {
            let out: Vec<Outbound> = Vec::new();
            assert(deliveries(out@) =~= Seq::empty());
            out
        };
        let ghost left = *self;
        self.clients.remove(&client_id.0);
        proof {
            assert(self@.clients =~= left@.clients.remove(client_id));
            assert(self@.rooms =~= left@.rooms);
            assert(self@.client_rooms =~= left@.client_rooms);
            assert(forall|code: Seq<char>| #[trigger]
                self.created_at(code) == left.created_at(code));
        }
        out
    }

    /// Sets the display name of a session and confirms it.
    pub fn handle_set_username(&mut self, client_id: ClientId, username: String) -> (out: Vec<
        Outbound,
    >)
        requires
            old(self).wf(),
        ensures
            final(self).wf(),
            final(self).keeps_creation_times(old(self)),
            step_of(final(self)@, out@) == old(self)@.set_username(client_id, username@),
    {
        let mut out: Vec<Outbound> = Vec::new();
        assert(deliveries(out@) =~= Seq::empty());
        match self.clients.remove(&client_id.0) {
            None => {
                proof {
                    self.lemma_same_as(old(self));
                }
            },
            Some(client) => {
                let mut client = client;
                client.set_username(username.clone());
                self.clients.insert(client_id.0, client);
                notify(&mut out, client_id, ServerMessage::UsernameSet { username });
                proof {
                    let step = old(self)@.set_username(client_id, username@);
                    assert(self@.clients =~= step.state.clients);
                    assert(self@.rooms =~= step.state.rooms);
                    assert(self@.client_rooms =~= step.state.client_rooms);
                    assert(deliveries(out@) =~= step.out);
                }
            },
        }
        out
    }

    /// Takes a session out of the room that it is recorded in, and tells the
    /// partner.
    fn remove_client_from_room(&mut self, client_id: ClientId) -> (out: Vec<Outbound>)
        requires
            old(self).wf(),
            old(self)@.client_rooms.contains_key(client_id),
        ensures
            final(self).wf(),
            final(self).keeps_creation_times(old(self)),
            step_of(final(self)@, out@) == old(self)@.depart(client_id),
    {
        let mut out: Vec<Outbound> = Vec::new();
        assert(deliveries(out@) =~= Seq::empty());
        let ghost before = self@;
        let code = match self.client_rooms.remove(&client_id.0) {
            Some(code) => code,
            None => {
                return out;
            },
        };
        let (partner, rest) = match self.rooms.get(code.0.as_str()) {
            Some(found) => {
                let mut room = Room {
                    code: RoomCode(found.code.0.clone()),
                    host: found.host,
                    guest: found.guest,
                    created_at: found.created_at,
                };
                let partner = room.get_partner(client_id);
                let should_delete = room.remove_client(client_id);
                (
                    partner,
                    if should_delete {
                        None
                    } else {
                        Some(room)
                    },
                )
            },
            None => {
                return out;
            },
        };
        match rest {
            Some(room) => {
                self.rooms.insert(code.0, room);
            },
            None => {
                self.rooms.remove(code.0.as_str());
            },
        }
        proof {
            before.lemma_partner(client_id);
        }
        self.tell_partner(partner, ServerMessage::PartnerLeft, &mut out);
        proof {
            let step = before.depart(client_id);
            assert(self@.clients =~= step.state.clients);
            assert(self@.rooms =~= step.state.rooms);
            assert(self@.client_rooms =~= step.state.client_rooms);
            assert(deliveries(out@) =~= step.out);
            assert forall|code2: Seq<char>, id2: ClientId|
                self@.rooms.contains_key(code2) && #[trigger] self@.rooms[code2].contains(
                    id2,
                ) implies self@.client_rooms.contains_key(id2) && self@.client_rooms[id2]
                == code2 by {
                assert(before.rooms[code2].contains(id2));
            }
        }
        out
    }

    /// Takes a session out of its room at its own request.
    pub fn handle_leave_room(&mut self, client_id: ClientId) -> (out: Vec<Outbound>)
        requires
            old(self).wf(),
        ensures
            final(self).wf(),
            final(self).keeps_creation_times(old(self)),
            step_of(final(self)@, out@) == old(self)@.leave_room(client_id),
    {
        if !self.clients.contains_key(&client_id.0) {
            let out: Vec<Outbound> = Vec::new();
            assert(deliveries(out@) =~= Seq::empty());
            out
        } else if !self.client_rooms.contains_key(&client_id.0) {
            let mut out: Vec<Outbound> = Vec::new();
            assert(deliveries(out@) =~= Seq::empty());
            notify(&mut out, client_id, ServerMessage::from(AppError::NotInRoom));
            assert(deliveries(out@) =~= old(self)@.leave_room(client_id).out);
            out
        } else {
            self.remove_client_from_room(client_id)
        }
    }

    /// The other participant of the room `room_code` as seen from
    /// `client_id`, if the room exists and `client_id` has a partner in it.
    pub fn get_partner(&self, client_id: ClientId, room_code: &RoomCode) -> (partner: Option<
        ClientId,
    >)
        requires
            self.wf(),
        ensures
            partner == if self@.rooms.contains_key(room_code@) {
                self@.rooms[room_code@].partner(client_id)
            } else {
                None
            },
    {
        match self.rooms.get(room_code.0.as_str()) {
            Some(room) => room.get_partner(client_id),
            None => None,
        }
    }

    /// Sets the typing flag of a connected session.
    fn mark_typing(&mut self, client_id: ClientId, is_typing: bool)
        requires
            old(self).wf(),
            old(self)@.clients.contains_key(client_id),
        ensures
            final(self).wf(),
            final(self).keeps_creation_times(old(self)),
            final(self)@ == (ServerState {
                clients: old(self)@.clients.insert(
                    client_id,
                    ClientState { is_typing, ..old(self)@.clients[client_id] },
                ),
                ..old(self)@
            }),
    {
        match self.clients.remove(&client_id.0) {
            Some(client) => {
                let mut client = client;
                client.set_typing(is_typing);
                self.clients.insert(client_id.0, client);
            },
            None => {},
        }
        proof {
            let before = old(self)@;
            assert(self@.clients =~= before.clients.insert(
                client_id,
                ClientState { is_typing, ..before.clients[client_id] },
            ));
            assert(self@.rooms =~= before.rooms);
            assert(self@.client_rooms =~= before.client_rooms);
        }
    }

    /// Records that a session started typing and tells the partner.
    pub fn handle_typing(&mut self, client_id: ClientId) -> (out: Vec<Outbound>)
        requires
            old(self).wf(),
        ensures
            final(self).wf(),
            final(self).keeps_creation_times(old(self)),
            step_of(final(self)@, out@) == old(self)@.typing(client_id),
    {
        let mut out: Vec<Outbound> = Vec::new();
        assert(deliveries(out@) =~= Seq::empty());
        let is_typing = match self.clients.get(&client_id.0) {
            Some(client) => client.is_typing,
            None => {
                return out;
            },
        };
        let partner = match self.client_rooms.get(&client_id.0) {
            Some(room_code) => self.get_partner(client_id, room_code),
            None => {
                notify(&mut out, client_id, ServerMessage::from(AppError::NotInRoom));
                assert(deliveries(out@) =~= old(self)@.typing(client_id).out);
                return out;
            },
        };
        if is_typing {
            return out;
        }
        proof {
            self@.lemma_partner(client_id);
        }
        self.mark_typing(client_id, true);
        self.tell_partner(partner, ServerMessage::PartnerTyping, &mut out);
        out
    }

    /// Records that a session stopped typing and tells the partner.
    pub fn handle_stop_typing(&mut self, client_id: ClientId) -> (out: Vec<Outbound>)
        requires
            old(self).wf(),
        ensures
            final(self).wf(),
            final(self).keeps_creation_times(old(self)),
            step_of(final(self)@, out@) == old(self)@.stop_typing(client_id),
    {
        let mut out: Vec<Outbound> = Vec::new();
        assert(deliveries(out@) =~= Seq::empty());
        let is_typing = match self.clients.get(&client_id.0) {
            Some(client) => client.is_typing,
            None => {
                return out;
            },
        };
        let partner = match self.client_rooms.get(&client_id.0) {
            Some(room_code) => self.get_partner(client_id, room_code),
            None => {
                return out;
            },
        };
        if !is_typing {
            return out;
        }
        proof {
            self@.lemma_partner(client_id);
        }
        self.mark_typing(client_id, false);
        self.tell_partner(partner, ServerMessage::PartnerStopTyping, &mut out);
        out
    }

    /// Passes a chat message on to the partner.
    pub fn handle_chat(&mut self, client_id: ClientId, content: String) -> (out: Vec<Outbound>)
        requires
            old(self).wf(),
        ensures
            final(self).wf(),
            final(self).keeps_creation_times(old(self)),
            step_of(final(self)@, out@) == old(self)@.chat(client_id, content@),
    {
        let mut out: Vec<Outbound> = Vec::new();
        assert(deliveries(out@) =~= Seq::empty());
        let (sender_name, was_typing) = match self.clients.get(&client_id.0) {
            Some(client) => (String::from_str(client.display_name()), client.is_typing),
            None => {
                return out;
            },
        };
        let partner = match self.client_rooms.get(&client_id.0) {
            Some(room_code) => self.get_partner(client_id, room_code),
            None => {
                notify(&mut out, client_id, ServerMessage::from(AppError::NotInRoom));
                assert(deliveries(out@) =~= old(self)@.chat(client_id, content@).out);
                return out;
            },
        };
        proof {
            self@.lemma_partner(client_id);
        }
        self.mark_typing(client_id, false);
        if was_typing {
            self.tell_partner(partner, ServerMessage::PartnerStopTyping, &mut out);
        }
        self.tell_partner(partner, ServerMessage::Chat { from: sender_name, content }, &mut out);
        proof {
            assert(deliveries(out@) =~= old(self)@.chat(client_id, content@).out);
        }
        out
    }

    /// Adds `message` for `partner` to `out`, if there is a partner and it
    /// is connected.
    fn tell_partner(&self, partner: Option<ClientId>, message: ServerMessage, out: &mut Vec<
        Outbound,
    >)
        requires
            partner matches Some(id) ==> self@.clients.contains_key(id),
        ensures
            deliveries(final(out)@) == deliveries(old(out)@) + (match partner {
                Some(id) => seq![Delivery { to: id, notice: message@ }],
                None => Seq::empty(),
            }),
    {
        if let Some(partner_id) = partner {
            if self.clients.contains_key(&partner_id.0) {
                notify(out, partner_id, message);
            }
        }
        assert(deliveries(out@) =~= deliveries(old(out)@) + (match partner {
            Some(id) => seq![Delivery { to: id, notice: message@ }],
            None => Seq::empty(),
        }));
    }

    /// Two coordinators with the same registries are in the same state.
    proof fn lemma_same_as(&self, other: &Self)
        requires
            self.clients@ =~= other.clients@,
            self.rooms@ =~= other.rooms@,
            self.client_rooms@ =~= other.client_rooms@,
        ensures
            self@ == other@,
            other.wf() ==> self.wf(),
            self.keeps_creation_times(other),
    {
        assert(self@.clients =~= other@.clients);
        assert(self@.rooms =~= other@.rooms);
        assert(self@.client_rooms =~= other@.client_rooms);
    }
}

} // verus!
