//! The record that the coordinator keeps of one connected session.

use vstd::prelude::*;
use vstd::string::*;
use crate::types::ClientId;

verus! {

/// What the coordinator knows of a session besides its identifier.
pub struct ClientState {
    /// The display name, once chosen.
    pub username: Option<Seq<char>>,
    /// Whether the session is shown as typing.
    pub is_typing: bool,
}

impl ClientState {
    /// The name that a partner sees: the chosen one, or `Unknown`.
    pub open spec fn display_name(self) -> Seq<char> {
        match self.username {
            Some(name) => name,
            None => "Unknown"@,
        }
    }
}

/// A connected session.
#[derive(Debug)]
pub struct Client {
    /// The session's identifier.
    pub id: ClientId,
    /// The display name; `None` until the client chooses one.
    pub username: Option<String>,
    /// Whether the session is shown as typing.
    pub is_typing: bool,
}

impl View for Client {
    type V = ClientState;

    open spec fn view(&self) -> ClientState {
        ClientState {
            username: match self.username {
                Some(name) => Some(name@),
                None => None,
            },
            is_typing: self.is_typing,
        }
    }
}

impl Client {
    /// A session that has just connected: no name, not typing.
    pub fn new(id: ClientId) -> (client: Self)
        ensures
            client.id == id,
            client@ == (ClientState { username: None, is_typing: false }),
    {
        Client { id, username: None, is_typing: false }
    }

    /// The name that a partner sees: the chosen one, or `Unknown`.
    pub fn display_name(&self) -> (name: &str)
        ensures
            name@ == self@.display_name(),
    {
        match &self.username {
            Some(name) => name.as_str(),
            None => "Unknown",
        }
    }

    /// Whether the session has chosen its name.
    pub fn has_username(&self) -> (b: bool)
        ensures
            b == (self@.username is Some),
    {
        self.username.is_some()
    }

    /// Sets or replaces the display name.
    pub fn set_username(&mut self, username: String)
        ensures
            final(self).id == old(self).id,
            final(self)@ == (ClientState { username: Some(username@), ..old(self)@ }),
    {
        self.username = Some(username);
    }

    /// Sets the typing flag.
    pub fn set_typing(&mut self, is_typing: bool)
        ensures
            final(self).id == old(self).id,
            final(self)@ == (ClientState { is_typing, ..old(self)@ }),
    {
        self.is_typing = is_typing;
    }
}

} // verus!
