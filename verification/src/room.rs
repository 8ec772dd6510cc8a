//! A room: two places, of which the host's is always taken.

use vstd::prelude::*;
use std::time::Instant;
use crate::types::{ClientId, RoomCode};

verus! {

/// A point in time as the system's monotonic clock gives it.
#[verifier::external_type_specification]
#[verifier::external_body]
pub struct ExInstant(Instant);

/// `Instant::now` reads the clock; nothing is claimed of what it returns.
pub assume_specification[ Instant::now ]() -> Instant;

/// Who is in a room.
pub struct RoomState {
    /// The participant who holds the room.
    pub host: ClientId,
    /// The second participant, if there is one.
    pub guest: Option<ClientId>,
}

impl RoomState {
    /// Whether `id` is the host or the guest.
    pub open spec fn contains(self, id: ClientId) -> bool {
        self.host == id || self.guest == Some(id)
    }

    /// The other participant as seen from `id`; `None` if `id` is alone or
    /// not in the room.
    pub open spec fn partner(self, id: ClientId) -> Option<ClientId> {
        if self.host == id {
            self.guest
        } else if self.guest == Some(id) {
            Some(self.host)
        } else {
            None
        }
    }

    /// The room after `id` has left it, or `None` if nobody would be left.
    /// A guest is promoted when the host leaves; somebody who is not in the
    /// room leaves it unchanged.
    pub open spec fn without(self, id: ClientId) -> Option<RoomState> {
        if self.host == id {
            match self.guest {
                Some(guest) => Some(RoomState { host: guest, guest: None }),
                None => None,
            }
        } else if self.guest == Some(id) {
            Some(RoomState { host: self.host, guest: None })
        } else {
            Some(self)
        }
    }

    /// How many participants the room has.
    pub open spec fn participant_count(self) -> nat {
        if self.guest is Some {
            2
        } else {
            1
        }
    }
}

/// A chat room for two.
#[derive(Debug)]
pub struct Room {
    /// The code by which the room is found.
    pub code: RoomCode,
    /// The participant who holds the room: its creator, or the former guest
    /// once the creator has left.
    pub host: ClientId,
    /// The second participant.
    pub guest: Option<ClientId>,
    /// When the room was created.
    pub created_at: Instant,
}

impl View for Room {
    type V = RoomState;

    open spec fn view(&self) -> RoomState {
        RoomState { host: self.host, guest: self.guest }
    }
}

impl Room {
    /// A room that `host` has just opened under `code`.
    pub fn new(code: RoomCode, host: ClientId) -> (room: Self)
        ensures
            room.code == code,
            room@ == (RoomState { host, guest: None }),
    {
        Room { code, host, guest: None, created_at: Instant::now() }
    }

    /// Whether both places are taken.
    pub fn is_full(&self) -> (b: bool)
        ensures
            b == (self@.guest is Some),
    {
        self.guest.is_some()
    }

    /// Whether the guest's place is free.
    pub fn is_empty(&self) -> (b: bool)
        ensures
            b == (self@.guest is None),
    {
        self.guest.is_none()
    }

    /// The other participant as seen from `client_id`.
    pub fn get_partner(&self, client_id: ClientId) -> (partner: Option<ClientId>)
        ensures
            partner == self@.partner(client_id),
    {
        if self.host == client_id {
            self.guest
        } else if self.guest == Some(client_id) {
            Some(self.host)
        } else {
            None
        }
    }

    /// Whether `client_id` is in the room.
    pub fn contains(&self, client_id: ClientId) -> (b: bool)
        ensures
            b == self@.contains(client_id),
    {
        self.host == client_id || self.guest == Some(client_id)
    }

    /// Takes `client_id` out of the room and says whether the room is to be
    /// deleted because nobody is left. When the host leaves a guest behind,
    /// the guest becomes the host. When the room is to be deleted it is
    /// left as it was.
    pub fn remove_client(&mut self, client_id: ClientId) -> (should_delete: bool)
        ensures
            should_delete == (old(self)@.without(client_id) is None),
            final(self)@ == match old(self)@.without(client_id) {
                Some(rest) => rest,
                None => old(self)@,
            },
            final(self).code == old(self).code,
            final(self).created_at == old(self).created_at,
    {
        if self.host == client_id {
            match self.guest {
                Some(guest) => {
                    self.guest = None;
                    self.host = guest;
                    false
                },
                None => true,
            }
        } else if self.guest == Some(client_id) {
            self.guest = None;
            false
        } else {
            false
        }
    }

    /// Gives the free place to `guest_id`; `false`, and no change, if the
    /// room is full.
    pub fn add_guest(&mut self, guest_id: ClientId) -> (added: bool)
        ensures
            added == (old(self)@.guest is None),
            final(self)@ == if added {
                RoomState { host: old(self).host, guest: Some(guest_id) }
            } else {
                old(self)@
            },
            final(self).code == old(self).code,
            final(self).created_at == old(self).created_at,
    {
        if self.is_full() {
            false
        } else {
            self.guest = Some(guest_id);
            true
        }
    }

    /// How many participants the room has: one or two.
    pub fn participant_count(&self) -> (n: usize)
        ensures
            n == self@.participant_count(),
    {
        if self.guest.is_some() {
            2
        } else {
            1
        }
    }
}

} // verus!
