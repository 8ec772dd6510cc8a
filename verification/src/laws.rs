//! What holds of the coordinator whatever is asked of it.

use vstd::prelude::*;
use crate::message::Notification;
use crate::model::{Delivery, ServerState, Step};
use crate::room::RoomState;
use crate::server::ServerCommand;
use crate::types::{is_room_code, uppercase_of, ClientId};

verus! {

impl ServerCommand {
    /// The session that makes the request.
    pub open spec fn issuer(self) -> ClientId {
        match self {
            ServerCommand::Connect { client_id } => client_id,
            ServerCommand::Disconnect { client_id } => client_id,
            ServerCommand::SetUsername { client_id, .. } => client_id,
            ServerCommand::CreateRoom { client_id } => client_id,
            ServerCommand::JoinRoom { client_id, .. } => client_id,
            ServerCommand::Chat { client_id, .. } => client_id,
            ServerCommand::Typing { client_id } => client_id,
            ServerCommand::StopTyping { client_id } => client_id,
            ServerCommand::LeaveRoom { client_id } => client_id,
        }
    }
}

/// Departure from a room keeps the registries consistent.
proof fn lemma_depart_consistent(s: ServerState, id: ClientId)
    requires
        s.consistent(),
        s.client_rooms.contains_key(id),
    ensures
        s.depart(id).state.consistent(),
        !s.depart(id).state.client_rooms.contains_key(id),
{
    let after = s.depart(id).state;
    assert(s.rooms[s.client_rooms[id]].contains(id));
    assert forall|code: Seq<char>, other: ClientId|
        after.rooms.contains_key(code) && #[trigger] after.rooms[code].contains(
            other,
        ) implies after.client_rooms.contains_key(other) && after.client_rooms[other] == code by {
        assert(s.rooms[code].contains(other));
    }
}

/// A coordinator that has served nobody is in a consistent state.
pub proof fn law_empty_is_consistent()
    ensures
        ServerState::empty().consistent(),
{
}

/// No request breaks the consistency of the registries: every session that
/// is recorded in a room takes a place in it, every session that takes a
/// place in a room is recorded in it and in no other, and every room code
/// has the generated form.
pub proof fn law_consistency_is_kept(s: ServerState, cmd: ServerCommand, next: Step)
    requires
        s.consistent(),
        s.handles(cmd, next),
    ensures
        next.state.consistent(),
{
    let id = cmd.issuer();
    match cmd {
        ServerCommand::Disconnect { .. } => {
            if s.client_rooms.contains_key(id) {
                lemma_depart_consistent(s, id);
            }
        },
        ServerCommand::LeaveRoom { .. } => {
            if s.client_rooms.contains_key(id) {
                lemma_depart_consistent(s, id);
            }
        },
        ServerCommand::CreateRoom { .. } => {
            if s.entry_refusal(id) is None && next != s.no_code_drawn(id) {
                let code = choose|code: Seq<char>|
                    s.code_is_free(code) && next == #[trigger] s.create_room(id, code);
                assert forall|code2: Seq<char>, other: ClientId|
                    next.state.rooms.contains_key(code2) && #[trigger] next.state.rooms[code2].contains(
                        other,
                    ) implies next.state.client_rooms.contains_key(other)
                    && next.state.client_rooms[other] == code2 by {
                    if code2 != code {
                        assert(s.rooms[code2].contains(other));
                    }
                }
            }
        },
        ServerCommand::JoinRoom { room_code, .. } => {
            let code = uppercase_of(room_code@);
            if s.entry_refusal(id) is None && s.rooms.contains_key(code) && s.rooms[code].guest
                is None {
                assert(s.rooms[code].contains(s.rooms[code].host));
                assert forall|code2: Seq<char>, other: ClientId|
                    next.state.rooms.contains_key(code2) && #[trigger] next.state.rooms[code2].contains(
                        other,
                    ) implies next.state.client_rooms.contains_key(other)
                    && next.state.client_rooms[other] == code2 by {
                    if other != id || code2 != code {
                        assert(s.rooms[code2].contains(other));
                    }
                }
            }
        },
        _ => {},
    }
}

/// A session takes a place in at most one room.
pub proof fn law_one_room_per_session(
    s: ServerState,
    id: ClientId,
    first: Seq<char>,
    second: Seq<char>,
)
    requires
        s.consistent(),
        s.is_member(first, id),
        s.is_member(second, id),
    ensures
        first == second,
{
    assert(s.rooms[first].contains(id));
    assert(s.rooms[second].contains(id));
}

/// A connected session without a name can neither create nor join a room:
/// the request is answered with `username_required`, and no room or
/// membership changes.
pub proof fn law_room_needs_name(s: ServerState, id: ClientId, code: Seq<char>, created: Step)
    requires
        s.clients.contains_key(id),
        s.clients[id].username is None,
        s.creates_room(id, created),
    ensures
        created == s.answered(id, Notification::username_required()),
        s.join_room(id, code) == s.answered(id, Notification::username_required()),
        s.answered(id, Notification::username_required()).state == s,
{
}

/// Only its own `SetUsername` gives a session a name: after any other
/// request, a session that had none still has none.
pub proof fn law_name_comes_from_set_username(
    s: ServerState,
    cmd: ServerCommand,
    next: Step,
    id: ClientId,
)
    requires
        s.handles(cmd, next),
        s.clients.contains_key(id) ==> s.clients[id].username is None,
        !(cmd matches ServerCommand::SetUsername { client_id, .. } && client_id == id),
    ensures
        next.state.clients.contains_key(id) ==> next.state.clients[id].username is None,
{
}

/// A named session that is in a room can neither create nor join another:
/// the request is answered with `already_in_room`, and nothing changes.
pub proof fn law_second_room_is_refused(
    s: ServerState,
    id: ClientId,
    code: Seq<char>,
    created: Step,
)
    requires
        s.clients.contains_key(id),
        s.clients[id].username is Some,
        s.client_rooms.contains_key(id),
        s.creates_room(id, created),
    ensures
        created == s.answered(id, Notification::already_in_room()),
        s.join_room(id, code) == s.answered(id, Notification::already_in_room()),
        s.answered(id, Notification::already_in_room()).state == s,
{
}

/// While no room is open, a request for a room that is not refused is
/// granted: the session is told one code of the generated form and hosts the
/// room with that code, and nobody else is told anything.
pub proof fn law_first_room_is_granted(s: ServerState, id: ClientId, next: Step)
    requires
        s.entry_refusal(id) is None,
        forall|code: Seq<char>| !s.rooms.contains_key(code),
        s.creates_room(id, next),
    ensures
        next.out.len() == 1,
        next.out[0].to == id,
        next.out[0].notice matches Notification::RoomCreated { room_code } && is_room_code(
            room_code,
        ) && next.state.rooms.contains_key(room_code) && next.state.rooms[room_code]
            == (RoomState { host: id, guest: None }) && next.state.client_rooms[id]
            == room_code,
{
}

/// A room with two participants admits nobody: a join that is not refused
/// for another reason is answered with `room_full`, and nothing changes.
pub proof fn law_full_room_is_closed(s: ServerState, id: ClientId, code: Seq<char>)
    requires
        s.entry_refusal(id) is None,
        s.rooms.contains_key(code),
        s.rooms[code].guest is Some,
    ensures
        s.join_room(id, code) == s.answered(id, Notification::room_full()),
        s.join_room(id, code).state == s,
{
}

/// A join succeeds in whatever spelling the code is typed: if the uppercase
/// form of `typed` is the code of a room with a free place, a named session
/// that is in no room becomes the guest of that room and is told the code
/// and the host's name, and the host is told the guest's name.
pub proof fn law_join_ignores_spelling(
    s: ServerState,
    cmd: ServerCommand,
    next: Step,
    id: ClientId,
    typed: Seq<char>,
)
    requires
        cmd matches ServerCommand::JoinRoom { client_id, room_code } && client_id == id
            && room_code@ == typed,
        s.handles(cmd, next),
        s.entry_refusal(id) is None,
        s.rooms.contains_key(uppercase_of(typed)),
        s.rooms[uppercase_of(typed)].guest is None,
    ensures
        ({
            let code = uppercase_of(typed);
            let host = s.rooms[code].host;
            &&& next.state.rooms.contains_key(code)
            &&& next.state.rooms[code] == RoomState { host, guest: Some(id) }
            &&& next.state.client_rooms.contains_key(id)
            &&& next.state.client_rooms[id] == code
            &&& next.out == seq![
                Delivery {
                    to: id,
                    notice: Notification::RoomJoined {
                        room_code: code,
                        partner: s.clients[host].username,
                    },
                },
                Delivery {
                    to: host,
                    notice: Notification::PartnerJoined { username: s.clients[id].username->0 },
                },
            ]
        }),
{
}

/// When the host departs and leaves a guest behind, by leaving or by
/// disconnecting, the room stays open with the former guest as its host and
/// only participant, and the former guest is told that the partner left.
pub proof fn law_host_departure_promotes_guest(
    s: ServerState,
    code: Seq<char>,
    host: ClientId,
    guest: ClientId,
)
    requires
        s.consistent(),
        s.rooms.contains_key(code),
        s.rooms[code] == (RoomState { host, guest: Some(guest) }),
    ensures
        s.leave_room(host).state.rooms.contains_key(code),
        s.leave_room(host).state.rooms[code] == (RoomState { host: guest, guest: None }),
        s.leave_room(host).state.rooms[code].participant_count() == 1,
        s.leave_room(host).out == seq![Delivery { to: guest, notice: Notification::PartnerLeft }],
        s.disconnect(host).state.rooms == s.leave_room(host).state.rooms,
        s.disconnect(host).out == s.leave_room(host).out,
{
    assert(s.rooms[code].contains(host));
}

/// When the host departs from a room that has no guest, by leaving or by
/// disconnecting, the room is deleted, and a later join with its code is
/// answered with `room_not_found`.
pub proof fn law_last_departure_deletes_room(
    s: ServerState,
    code: Seq<char>,
    host: ClientId,
    joiner: ClientId,
)
    requires
        s.consistent(),
        s.rooms.contains_key(code),
        s.rooms[code] == (RoomState { host, guest: None }),
    ensures
        !s.leave_room(host).state.rooms.contains_key(code),
        !s.disconnect(host).state.rooms.contains_key(code),
        s.leave_room(host).out == Seq::<Delivery>::empty(),
        s.disconnect(host).out == Seq::<Delivery>::empty(),
        ({
            let after = s.leave_room(host).state;
            after.entry_refusal(joiner) is None ==> after.join_room(joiner, code)
                == after.answered(joiner, Notification::room_not_found(code))
        }),
        ({
            let after = s.disconnect(host).state;
            after.entry_refusal(joiner) is None ==> after.join_room(joiner, code)
                == after.answered(joiner, Notification::room_not_found(code))
        }),
{
    assert(s.rooms[code].contains(host));
}

/// Saying that one is typing twice is the same as saying it once: for a
/// session in a room, the second `Typing` changes nothing and sends nothing.
/// So is a second `StopTyping`, for any session.
pub proof fn law_typing_is_idempotent(s: ServerState, id: ClientId)
    ensures
        s.clients.contains_key(id) && s.client_rooms.contains_key(id) ==> s.typing(
            id,
        ).state.typing(id) == s.typing(id).state.ignored(),
        s.stop_typing(id).state.stop_typing(id) == s.stop_typing(id).state.ignored(),
{
}

/// A chat message from a session whose typing flag is set reaches the
/// partner after the notice that the typing stopped, and clears the flag.
pub proof fn law_chat_ends_typing(
    s: ServerState,
    id: ClientId,
    partner: ClientId,
    content: Seq<char>,
)
    requires
        s.clients.contains_key(id),
        s.client_rooms.contains_key(id),
        s.clients[id].is_typing,
        s.partner_of(id) == Some(partner),
    ensures
        s.chat(id, content).out == seq![
            Delivery { to: partner, notice: Notification::PartnerStopTyping },
            Delivery {
                to: partner,
                notice: Notification::Chat { from: s.clients[id].display_name(), content },
            },
        ],
        !s.chat(id, content).state.clients[id].is_typing,
{
}

/// Every notification goes to a session that was connected when the request
/// came, and a refusal goes to the session that made the request.
pub proof fn law_deliveries_are_addressed(
    s: ServerState,
    cmd: ServerCommand,
    next: Step,
    i: int,
)
    requires
        s.consistent(),
        s.handles(cmd, next),
        0 <= i < next.out.len(),
    ensures
        s.clients.contains_key(next.out[i].to),
        next.out[i].notice is Error ==> next.out[i].to == cmd.issuer(),
{
    let id = cmd.issuer();
    if s.client_rooms.contains_key(id) {
        s.lemma_partner(id);
    }
    match cmd {
        ServerCommand::JoinRoom { room_code, .. } => {
            let code = uppercase_of(room_code@);
            if s.rooms.contains_key(code) {
                assert(s.rooms[code].contains(s.rooms[code].host));
            }
        },
        _ => {},
    }
}

/// Every room code that a session is told, on creating or on joining a
/// room, has the generated form: six characters, each an uppercase letter or
/// a digit.
pub proof fn law_announced_codes_are_well_formed(
    s: ServerState,
    cmd: ServerCommand,
    next: Step,
    i: int,
)
    requires
        s.consistent(),
        s.handles(cmd, next),
        0 <= i < next.out.len(),
    ensures
        next.out[i].notice matches Notification::RoomCreated { room_code } ==> is_room_code(
            room_code,
        ),
        next.out[i].notice matches Notification::RoomJoined { room_code, .. } ==> is_room_code(
            room_code,
        ),
{
}

/// Disconnecting a session that is not connected changes nothing and sends
/// nothing; so disconnecting twice is the same as disconnecting once.
pub proof fn law_disconnect_is_idempotent(s: ServerState, id: ClientId)
    requires
        s.consistent(),
    ensures
        !s.clients.contains_key(id) ==> s.disconnect(id) == s.ignored(),
        s.disconnect(id).state.disconnect(id) == s.disconnect(id).state.ignored(),
{
    let once = s.disconnect(id).state;
    assert(once.clients.remove(id) =~= once.clients);
    if !s.clients.contains_key(id) {
        assert(s.clients.remove(id) =~= s.clients);
    }
}

/// The state in which the `i`-th command of a history is served: the empty
/// state for the first, else the state that the command before it left.
pub open spec fn state_before(steps: Seq<Step>, i: int) -> ServerState {
    if i <= 0 {
        ServerState::empty()
    } else {
        steps[i - 1].state
    }
}

/// Whether `steps` is a history of a coordinator that served the commands
/// `cmds` in order, starting without sessions or rooms.
pub open spec fn is_history(cmds: Seq<ServerCommand>, steps: Seq<Step>) -> bool {
    &&& cmds.len() == steps.len()
    &&& forall|i: int|
        0 <= i < cmds.len() ==> #[trigger] state_before(steps, i).handles(cmds[i], steps[i])
}

/// Whether `cmd` is a `SetUsername` of the session `id`.
pub open spec fn names(cmd: ServerCommand, id: ClientId) -> bool {
    cmd matches ServerCommand::SetUsername { client_id, .. } && client_id == id
}

/// Whether `cmd` is a `CreateRoom` or a `JoinRoom` of the session `id`.
pub open spec fn asks_for_room(cmd: ServerCommand, id: ClientId) -> bool {
    ||| cmd matches ServerCommand::CreateRoom { client_id } && client_id == id
    ||| cmd matches ServerCommand::JoinRoom { client_id, .. } && client_id == id
}

/// Every state that a coordinator passes through is consistent.
pub proof fn law_every_state_is_consistent(cmds: Seq<ServerCommand>, steps: Seq<Step>, i: int)
    requires
        is_history(cmds, steps),
        0 <= i <= cmds.len(),
    ensures
        state_before(steps, i).consistent(),
    decreases i,
{
    if i > 0 {
        law_every_state_is_consistent(cmds, steps, i - 1);
        assert(state_before(steps, i - 1).handles(cmds[i - 1], steps[i - 1]));
        law_consistency_is_kept(state_before(steps, i - 1), cmds[i - 1], steps[i - 1]);
    }
}

/// A session of which no `SetUsername` was served has no name.
pub proof fn law_unnamed_before_set_username(
    cmds: Seq<ServerCommand>,
    steps: Seq<Step>,
    id: ClientId,
    i: int,
)
    requires
        is_history(cmds, steps),
        0 <= i <= cmds.len(),
        forall|j: int| 0 <= j < i ==> !names(#[trigger] cmds[j], id),
    ensures
        state_before(steps, i).clients.contains_key(id) ==> state_before(
            steps,
            i,
        ).clients[id].username is None,
    decreases i,
{
    if i > 0 {
        law_unnamed_before_set_username(cmds, steps, id, i - 1);
        assert(state_before(steps, i - 1).handles(cmds[i - 1], steps[i - 1]));
        assert(!names(cmds[i - 1], id));
        law_name_comes_from_set_username(
            state_before(steps, i - 1),
            cmds[i - 1],
            steps[i - 1],
            id,
        );
    }
}

/// A connected session that asks for a room before any `SetUsername` of its
/// own was served is answered with `username_required`, and nothing changes.
pub proof fn law_room_request_before_naming_is_refused(
    cmds: Seq<ServerCommand>,
    steps: Seq<Step>,
    id: ClientId,
    i: int,
)
    requires
        is_history(cmds, steps),
        0 <= i < cmds.len(),
        forall|j: int| 0 <= j < i ==> !names(#[trigger] cmds[j], id),
        asks_for_room(cmds[i], id),
        state_before(steps, i).clients.contains_key(id),
    ensures
        steps[i] == state_before(steps, i).answered(id, Notification::username_required()),
        steps[i].state == state_before(steps, i),
{
    law_unnamed_before_set_username(cmds, steps, id, i);
    assert(state_before(steps, i).handles(cmds[i], steps[i]));
}

} // verus!
