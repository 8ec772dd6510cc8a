//! The coordinator as a state machine over mathematical values.
//!
//! A [`ServerState`] holds the three registries as maps. Each request is a
//! function from the state before it to a [`Step`]: the state after it and
//! the notifications that it sends, in order.

use vstd::prelude::*;
use crate::client::ClientState;
use crate::message::Notification;
use crate::room::RoomState;
use crate::types::{is_room_code, ClientId};

verus! {

/// One notification on its way to one session.
pub struct Delivery {
    /// The session that is to receive it.
    pub to: ClientId,
    /// What it says.
    pub notice: Notification,
}

/// The outcome of one request.
pub struct Step {
    /// The state after the request.
    pub state: ServerState,
    /// The notifications sent, first to last.
    pub out: Seq<Delivery>,
}

/// Everything the coordinator knows.
pub struct ServerState {
    /// The connected sessions.
    pub clients: Map<ClientId, ClientState>,
    /// The open rooms, by code.
    pub rooms: Map<Seq<char>, RoomState>,
    /// For each session that is in a room, the code of that room.
    pub client_rooms: Map<ClientId, Seq<char>>,
}

impl ServerState {
    /// The state of a coordinator that has served nobody yet.
    pub open spec fn empty() -> ServerState {
        ServerState { clients: Map::empty(), rooms: Map::empty(), client_rooms: Map::empty() }
    }

    /// Whether `id` takes a place in the room with code `code`.
    pub open spec fn is_member(self, code: Seq<char>, id: ClientId) -> bool {
        self.rooms.contains_key(code) && self.rooms[code].contains(id)
    }

    /// What holds of the registries between any two requests:
    /// - a session that is recorded in a room is connected, the room exists
    ///   and the session takes a place in it;
    /// - a session that takes a place in a room is recorded in that room,
    ///   and so in no other;
    /// - every room code has the generated form;
    /// - nobody is their own guest.
    pub open spec fn consistent(self) -> bool {
        &&& forall|id: ClientId| #[trigger]
            self.client_rooms.contains_key(id) ==> self.clients.contains_key(id)
                && self.rooms.contains_key(self.client_rooms[id])
                && self.rooms[self.client_rooms[id]].contains(id)
        &&& forall|code: Seq<char>, id: ClientId|
            self.rooms.contains_key(code) && #[trigger] self.rooms[code].contains(id)
                ==> self.client_rooms.contains_key(id) && self.client_rooms[id] == code
        &&& forall|code: Seq<char>| #[trigger]
            self.rooms.contains_key(code) ==> is_room_code(code) && self.rooms[code].guest
                != Some(self.rooms[code].host)
    }

    /// The other participant of the room that `id` is recorded in.
    pub open spec fn partner_of(self, id: ClientId) -> Option<ClientId> {
        self.rooms[self.client_rooms[id]].partner(id)
    }

    /// A request that changes nothing and sends nothing.
    pub open spec fn ignored(self) -> Step {
        Step { state: self, out: Seq::empty() }
    }

    /// A request that changes nothing and is answered to `id` with `notice`.
    pub open spec fn answered(self, id: ClientId, notice: Notification) -> Step {
        Step { state: self, out: seq![Delivery { to: id, notice }] }
    }

    /// The notice for the partner of `id`, if `id` has one.
    pub open spec fn to_partner(self, id: ClientId, notice: Notification) -> Seq<Delivery> {
        match self.partner_of(id) {
            Some(partner) => seq![Delivery { to: partner, notice }],
            None => Seq::empty(),
        }
    }

    /// A session connects: it is registered without a name and not typing.
    /// A record under the same identifier is replaced.
    pub open spec fn connect(self, id: ClientId) -> Step {
        Step {
            state: ServerState {
                clients: self.clients.insert(
                    id,
                    ClientState { username: None, is_typing: false },
                ),
                ..self
            },
            out: Seq::empty(),
        }
    }

    /// The session `id`, which is recorded in a room, departs from it. The
    /// room loses `id` and is deleted if nobody is left; a guest left behind
    /// becomes the host. The record of `id` being in the room goes, and the
    /// partner, if there was one, is told.
    pub open spec fn depart(self, id: ClientId) -> Step {
        let code = self.client_rooms[id];
        Step {
            state: ServerState {
                clients: self.clients,
                rooms: match self.rooms[code].without(id) {
                    Some(rest) => self.rooms.insert(code, rest),
                    None => self.rooms.remove(code),
                },
                client_rooms: self.client_rooms.remove(id),
            },
            out: self.to_partner(id, Notification::PartnerLeft),
        }
    }

    /// A session disconnects: it departs from its room, if it is in one,
    /// and its record is removed.
    pub open spec fn disconnect(self, id: ClientId) -> Step {
        let left = if self.client_rooms.contains_key(id) {
            self.depart(id)
        } else {
            self.ignored()
        };
        Step {
            state: ServerState { clients: left.state.clients.remove(id), ..left.state },
            out: left.out,
        }
    }

    /// A session sets or replaces its display name and is told so. Unknown
    /// sessions are ignored.
    pub open spec fn set_username(self, id: ClientId, name: Seq<char>) -> Step {
        if !self.clients.contains_key(id) {
            self.ignored()
        } else {
            Step {
                state: ServerState {
                    clients: self.clients.insert(
                        id,
                        ClientState { username: Some(name), ..self.clients[id] },
                    ),
                    ..self
                },
                out: seq![Delivery { to: id, notice: Notification::UsernameSet { username: name } }],
            }
        }
    }

    /// How a request to create or join a room ends before any room is looked
    /// at: ignored for an unknown session, refused for one without a name or
    /// already in a room. `None` if the request passes.
    pub open spec fn entry_refusal(self, id: ClientId) -> Option<Step> {
        if !self.clients.contains_key(id) {
            Some(self.ignored())
        } else if self.clients[id].username is None {
            Some(self.answered(id, Notification::username_required()))
        } else if self.client_rooms.contains_key(id) {
            Some(self.answered(id, Notification::already_in_room()))
        } else {
            None
        }
    }

    /// A session asks for a new room, and `code` is the code drawn for it.
    /// Unless the request is refused, the room is registered with the session
    /// as its host, and the session is told the code.
    pub open spec fn create_room(self, id: ClientId, code: Seq<char>) -> Step {
        match self.entry_refusal(id) {
            Some(step) => step,
            None => Step {
                state: ServerState {
                    clients: self.clients,
                    rooms: self.rooms.insert(code, RoomState { host: id, guest: None }),
                    client_rooms: self.client_rooms.insert(id, code),
                },
                out: seq![
                    Delivery { to: id, notice: Notification::RoomCreated { room_code: code } },
                ],
            },
        }
    }

    /// A session asks for a new room and no unused code could be drawn:
    /// nothing changes, and the session is told of an internal error.
    pub open spec fn no_code_drawn(self, id: ClientId) -> Step {
        self.answered(id, Notification::internal_error())
    }

    /// A session asks to enter the room with the canonical code `code`.
    /// Unless the request is refused, the session becomes the guest; it is
    /// told the host's name, and then the host is told the guest's.
    pub open spec fn join_room(self, id: ClientId, code: Seq<char>) -> Step {
        match self.entry_refusal(id) {
            Some(step) => step,
            None => if !self.rooms.contains_key(code) {
                self.answered(id, Notification::room_not_found(code))
            } else if self.rooms[code].guest is Some {
                self.answered(id, Notification::room_full())
            } else {
                let host = self.rooms[code].host;
                Step {
                    state: ServerState {
                        clients: self.clients,
                        rooms: self.rooms.insert(code, RoomState { host, guest: Some(id) }),
                        client_rooms: self.client_rooms.insert(id, code),
                    },
                    out: seq![
                        Delivery {
                            to: id,
                            notice: Notification::RoomJoined {
                                room_code: code,
                                partner: self.clients[host].username,
                            },
                        },
                        Delivery {
                            to: host,
                            notice: Notification::PartnerJoined {
                                username: self.clients[id].username->0,
                            },
                        },
                    ],
                }
            },
        }
    }

    /// A session says `content`. Its typing flag is cleared. The partner, if
    /// there is one, is first told that the typing stopped, if the flag was
    /// set, and then receives the message; without a partner the message is
    /// dropped.
    pub open spec fn chat(self, id: ClientId, content: Seq<char>) -> Step {
        if !self.clients.contains_key(id) {
            self.ignored()
        } else if !self.client_rooms.contains_key(id) {
            self.answered(id, Notification::not_in_room())
        } else {
            let sender = self.clients[id];
            Step {
                state: ServerState {
                    clients: self.clients.insert(id, ClientState { is_typing: false, ..sender }),
                    ..self
                },
                out: (if sender.is_typing {
                    self.to_partner(id, Notification::PartnerStopTyping)
                } else {
                    Seq::empty()
                }) + self.to_partner(
                    id,
                    Notification::Chat { from: sender.display_name(), content },
                ),
            }
        }
    }

    /// A session in a room changes its typing flag to `is_typing`, and the
    /// partner, if there is one, is told `notice`.
    pub open spec fn typing_changed(
        self,
        id: ClientId,
        is_typing: bool,
        notice: Notification,
    ) -> Step {
        Step {
            state: ServerState {
                clients: self.clients.insert(
                    id,
                    ClientState { is_typing, ..self.clients[id] },
                ),
                ..self
            },
            out: self.to_partner(id, notice),
        }
    }

    /// A session starts typing. Outside a room this is refused; while the
    /// flag is set already nothing happens.
    pub open spec fn typing(self, id: ClientId) -> Step {
        if !self.clients.contains_key(id) {
            self.ignored()
        } else if !self.client_rooms.contains_key(id) {
            self.answered(id, Notification::not_in_room())
        } else if self.clients[id].is_typing {
            self.ignored()
        } else {
            self.typing_changed(id, true, Notification::PartnerTyping)
        }
    }

    /// A session stops typing. Outside a room, and while the flag is clear
    /// already, nothing happens.
    pub open spec fn stop_typing(self, id: ClientId) -> Step {
        if !self.clients.contains_key(id) || !self.client_rooms.contains_key(id)
            || !self.clients[id].is_typing {
            self.ignored()
        } else {
            self.typing_changed(id, false, Notification::PartnerStopTyping)
        }
    }

    /// A session leaves its room. Outside a room this is refused.
    pub open spec fn leave_room(self, id: ClientId) -> Step {
        if !self.clients.contains_key(id) {
            self.ignored()
        } else if !self.client_rooms.contains_key(id) {
            self.answered(id, Notification::not_in_room())
        } else {
            self.depart(id)
        }
    }

    /// Whether a new room can be registered under `code`: it has the
    /// generated form and no open room has it.
    pub open spec fn code_is_free(self, code: Seq<char>) -> bool {
        is_room_code(code) && !self.rooms.contains_key(code)
    }

    /// Whether `next` is a way for a request for a new room to end: as the
    /// refusal says, if the request is refused; else with a room under some
    /// free code, or, only while some room is open and its code can be
    /// drawn again, with no code drawn.
    pub open spec fn creates_room(self, id: ClientId, next: Step) -> bool {
        match self.entry_refusal(id) {
            Some(step) => next == step,
            None => {
                ||| exists|code: Seq<char>|
                    self.code_is_free(code) && next == #[trigger] self.create_room(id, code)
                ||| next == self.no_code_drawn(id) && exists|taken: Seq<char>|
                    self.rooms.contains_key(taken)
            },
        }
    }

    /// In a consistent state the partner of a session in a room is another
    /// connected session, recorded in the same room, whose partner is that
    /// session.
    pub proof fn lemma_partner(self, id: ClientId)
        requires
            self.consistent(),
            self.client_rooms.contains_key(id),
        ensures
            self.partner_of(id) matches Some(partner) ==> {
                &&& partner != id
                &&& self.clients.contains_key(partner)
                &&& self.client_rooms.contains_key(partner)
                &&& self.client_rooms[partner] == self.client_rooms[id]
                &&& self.partner_of(partner) == Some(id)
            },
    {
        let code = self.client_rooms[id];
        assert(self.rooms.contains_key(code));
        if let Some(partner) = self.partner_of(id) {
            assert(self.rooms[code].contains(partner));
        }
    }
}

} // verus!
