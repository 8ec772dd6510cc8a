use chat_server_v1::{
    ChatServer, ClientId, ErrorCode, Outbound, RoomCode, ServerCommand, ServerMessage,
};

const A: ClientId = ClientId(1);
const B: ClientId = ClientId(2);
const C: ClientId = ClientId(3);

fn to(id: ClientId, message: ServerMessage) -> Outbound {
    Outbound { to: id, message }
}

fn refusal(id: ClientId, code: ErrorCode, message: &str) -> Outbound {
    to(
        id,
        ServerMessage::Error {
            code,
            message: message.to_string(),
        },
    )
}

fn code(text: &str) -> RoomCode {
    RoomCode(text.to_string())
}

/// A coordinator with the named session `id` connected.
fn connect_named(server: &mut ChatServer, id: ClientId, name: &str) {
    assert!(server.handle_connect(id).is_empty());
    assert_eq!(
        server.handle_set_username(id, name.to_string()),
        vec![to(
            id,
            ServerMessage::UsernameSet {
                username: name.to_string()
            }
        )]
    );
}

/// A coordinator in which Alice (A) hosts room ABC123 and Bob (B) is her guest.
fn paired() -> ChatServer {
    let mut server = ChatServer::new();
    connect_named(&mut server, A, "Alice");
    connect_named(&mut server, B, "Bob");
    assert!(server.create_room_with(A, code("ABC123")).is_some());
    server.handle_join_room(B, "ABC123".to_string());
    server
}

fn created_code(out: &[Outbound]) -> String {
    assert_eq!(out.len(), 1);
    match &out[0].message {
        ServerMessage::RoomCreated { room_code } => room_code.clone(),
        other => panic!("not a room_created: {:?}", other),
    }
}

#[test]
fn new_server_is_empty() {
    let server = ChatServer::new();
    assert!(server.client(A).is_none());
    assert!(server.room(&code("ABC123")).is_none());
    assert!(server.room_of(A).is_none());
}

#[test]
fn connect_registers_an_unnamed_session() {
    let mut server = ChatServer::new();
    assert!(server.handle_connect(A).is_empty());
    let client = server.client(A).unwrap();
    assert_eq!(client.id, A);
    assert!(client.username.is_none());
    assert!(!client.is_typing);
    assert!(server.client(B).is_none());
}

#[test]
fn set_username_names_and_confirms() {
    let mut server = ChatServer::new();
    server.handle_connect(A);
    let out = server.handle_set_username(A, "Alice".to_string());
    assert_eq!(
        out,
        vec![to(
            A,
            ServerMessage::UsernameSet {
                username: "Alice".to_string()
            }
        )]
    );
    assert_eq!(server.client(A).unwrap().username.as_deref(), Some("Alice"));
    let out = server.handle_set_username(A, "Alicia".to_string());
    assert_eq!(
        out,
        vec![to(
            A,
            ServerMessage::UsernameSet {
                username: "Alicia".to_string()
            }
        )]
    );
    assert_eq!(server.client(A).unwrap().username.as_deref(), Some("Alicia"));
}

#[test]
fn set_username_of_unknown_session_is_ignored() {
    let mut server = ChatServer::new();
    assert!(server.handle_set_username(A, "Alice".to_string()).is_empty());
    assert!(server.client(A).is_none());
}

#[test]
fn names_need_not_be_unique() {
    let mut server = ChatServer::new();
    connect_named(&mut server, A, "Sam");
    connect_named(&mut server, B, "Sam");
    assert_eq!(server.client(A).unwrap().username.as_deref(), Some("Sam"));
    assert_eq!(server.client(B).unwrap().username.as_deref(), Some("Sam"));
}

#[test]
fn create_room_answers_with_a_six_character_code() {
    let mut server = ChatServer::new();
    connect_named(&mut server, A, "Alice");
    let out = server.handle_create_room(A);
    let x = created_code(&out);
    assert_eq!(out[0].to, A);
    assert_eq!(x.chars().count(), 6);
    assert!(x.chars().all(|c| c.is_ascii_uppercase() || c.is_ascii_digit()));
    let room = server.room(&RoomCode(x.clone())).unwrap();
    assert_eq!(room.host, A);
    assert!(room.guest.is_none());
    assert_eq!(room.code.0, x);
    assert_eq!(server.room_of(A), Some(&RoomCode(x)));
}

#[test]
fn create_room_without_name_is_refused() {
    let mut server = ChatServer::new();
    server.handle_connect(A);
    let out = server.handle_create_room(A);
    assert_eq!(
        out,
        vec![refusal(A, ErrorCode::UsernameRequired, "Username is required")]
    );
    assert!(server.room_of(A).is_none());
}

#[test]
fn join_room_without_name_is_refused() {
    let mut server = ChatServer::new();
    connect_named(&mut server, A, "Alice");
    assert!(server.create_room_with(A, code("ABC123")).is_some());
    server.handle_connect(B);
    let out = server.handle_join_room(B, "ABC123".to_string());
    assert_eq!(
        out,
        vec![refusal(B, ErrorCode::UsernameRequired, "Username is required")]
    );
    assert!(server.room_of(B).is_none());
    assert!(server.room(&code("ABC123")).unwrap().guest.is_none());
}

#[test]
fn room_requests_of_unknown_session_are_ignored() {
    let mut server = ChatServer::new();
    assert!(server.handle_create_room(A).is_empty());
    assert!(server.handle_join_room(A, "ABC123".to_string()).is_empty());
    assert_eq!(server.create_room_with(A, code("ABC123")), Some(vec![]));
    assert!(server.room(&code("ABC123")).is_none());
    assert!(server.client(A).is_none());
}

#[test]
fn second_room_is_refused() {
    let mut server = paired();
    let already = "You are already in a room";
    assert_eq!(
        server.handle_create_room(A),
        vec![refusal(A, ErrorCode::AlreadyInRoom, already)]
    );
    assert_eq!(
        server.handle_create_room(B),
        vec![refusal(B, ErrorCode::AlreadyInRoom, already)]
    );
    assert_eq!(
        server.handle_join_room(A, "ABC123".to_string()),
        vec![refusal(A, ErrorCode::AlreadyInRoom, already)]
    );
    assert_eq!(
        server.handle_join_room(B, "ZZZZZZ".to_string()),
        vec![refusal(B, ErrorCode::AlreadyInRoom, already)]
    );
    assert_eq!(server.room_of(A), Some(&code("ABC123")));
    assert_eq!(server.room_of(B), Some(&code("ABC123")));
    let room = server.room(&code("ABC123")).unwrap();
    assert_eq!((room.host, room.guest), (A, Some(B)));
}

#[test]
fn join_tells_both_participants() {
    let mut server = ChatServer::new();
    connect_named(&mut server, A, "Alice");
    connect_named(&mut server, B, "Bob");
    let x = created_code(&server.handle_create_room(A));
    let out = server.handle_join_room(B, x.clone());
    assert_eq!(
        out,
        vec![
            to(
                B,
                ServerMessage::RoomJoined {
                    room_code: x.clone(),
                    partner: Some("Alice".to_string())
                }
            ),
            to(
                A,
                ServerMessage::PartnerJoined {
                    username: "Bob".to_string()
                }
            ),
        ]
    );
    let room = server.room(&RoomCode(x.clone())).unwrap();
    assert_eq!((room.host, room.guest), (A, Some(B)));
    assert_eq!(server.room_of(B), Some(&RoomCode(x)));
}

#[test]
fn join_ignores_the_case_of_the_code() {
    let mut server = ChatServer::new();
    connect_named(&mut server, A, "Alice");
    connect_named(&mut server, B, "Bob");
    assert!(server.create_room_with(A, code("ABC123")).is_some());
    let out = server.handle_join_room(B, "aBc123".to_string());
    assert_eq!(
        out[0],
        to(
            B,
            ServerMessage::RoomJoined {
                room_code: "ABC123".to_string(),
                partner: Some("Alice".to_string())
            }
        )
    );
    assert_eq!(server.room(&code("ABC123")).unwrap().guest, Some(B));
}

#[test]
fn join_lowercase_generated_code_succeeds() {
    let mut server = ChatServer::new();
    connect_named(&mut server, A, "Alice");
    connect_named(&mut server, B, "Bob");
    let x = created_code(&server.handle_create_room(A));
    let out = server.handle_join_room(B, x.to_lowercase());
    assert_eq!(out.len(), 2);
    assert_eq!(server.room_of(B), Some(&RoomCode(x)));
}

#[test]
fn join_unknown_room_is_refused_with_the_canonical_code() {
    let mut server = ChatServer::new();
    connect_named(&mut server, B, "Bob");
    let out = server.handle_join_room(B, "abc123".to_string());
    assert_eq!(
        out,
        vec![refusal(B, ErrorCode::RoomNotFound, "Room 'ABC123' not found")]
    );
    assert!(server.room_of(B).is_none());
}

#[test]
fn join_full_room_is_refused() {
    let mut server = paired();
    connect_named(&mut server, C, "Carol");
    let out = server.handle_join_room(C, "ABC123".to_string());
    assert_eq!(out, vec![refusal(C, ErrorCode::RoomFull, "Room is full")]);
    assert!(server.room_of(C).is_none());
    let room = server.room(&code("ABC123")).unwrap();
    assert_eq!((room.host, room.guest), (A, Some(B)));
}

#[test]
fn join_by_code_takes_the_code_as_given() {
    let mut server = ChatServer::new();
    connect_named(&mut server, A, "Alice");
    connect_named(&mut server, B, "Bob");
    assert!(server.create_room_with(A, code("ABC123")).is_some());
    assert_eq!(
        server.join_room(B, code("abc123")),
        vec![refusal(B, ErrorCode::RoomNotFound, "Room 'abc123' not found")]
    );
    assert_eq!(server.join_room(B, code("ABC123")).len(), 2);
}

#[test]
fn create_room_with_a_taken_code_asks_for_another() {
    let mut server = ChatServer::new();
    connect_named(&mut server, A, "Alice");
    connect_named(&mut server, B, "Bob");
    assert_eq!(
        server.create_room_with(A, code("ABC123")),
        Some(vec![to(
            A,
            ServerMessage::RoomCreated {
                room_code: "ABC123".to_string()
            }
        )])
    );
    assert_eq!(server.create_room_with(B, code("ABC123")), None);
    assert!(server.room_of(B).is_none());
    assert_eq!(server.room(&code("ABC123")).unwrap().host, A);
    assert!(server.create_room_with(B, code("ABC124")).is_some());
    assert_eq!(server.room_of(B), Some(&code("ABC124")));
}

#[test]
fn create_room_with_a_malformed_code_asks_for_another() {
    let mut server = ChatServer::new();
    connect_named(&mut server, A, "Alice");
    assert_eq!(server.create_room_with(A, code("abc123")), None);
    assert_eq!(server.create_room_with(A, code("ABC12")), None);
    assert_eq!(server.create_room_with(A, code("")), None);
    assert!(server.room_of(A).is_none());
    assert!(server.room(&code("abc123")).is_none());
}

#[test]
fn create_room_with_refuses_before_it_looks_at_the_code() {
    let mut server = ChatServer::new();
    server.handle_connect(A);
    assert_eq!(
        server.create_room_with(A, code("bad")),
        Some(vec![refusal(
            A,
            ErrorCode::UsernameRequired,
            "Username is required"
        )])
    );
    let mut server = paired();
    assert_eq!(
        server.create_room_with(A, code("ABC123")),
        Some(vec![refusal(
            A,
            ErrorCode::AlreadyInRoom,
            "You are already in a room"
        )])
    );
}

#[test]
fn many_rooms_get_distinct_codes() {
    let mut server = ChatServer::new();
    let mut codes = Vec::new();
    for i in 0..200u128 {
        let id = ClientId(100 + i);
        connect_named(&mut server, id, "Host");
        let x = created_code(&server.handle_create_room(id));
        assert!(!codes.contains(&x));
        assert_eq!(server.room(&RoomCode(x.clone())).unwrap().host, id);
        codes.push(x);
    }
}

#[test]
fn typing_reaches_the_partner_once() {
    let mut server = paired();
    assert_eq!(
        server.handle_typing(A),
        vec![to(B, ServerMessage::PartnerTyping)]
    );
    assert!(server.client(A).unwrap().is_typing);
    assert!(server.handle_typing(A).is_empty());
    assert!(server.handle_typing(A).is_empty());
    assert!(server.client(A).unwrap().is_typing);
    assert!(!server.client(B).unwrap().is_typing);
}

#[test]
fn stop_typing_reaches_the_partner_once() {
    let mut server = paired();
    assert!(server.handle_stop_typing(A).is_empty());
    server.handle_typing(A);
    assert_eq!(
        server.handle_stop_typing(A),
        vec![to(B, ServerMessage::PartnerStopTyping)]
    );
    assert!(!server.client(A).unwrap().is_typing);
    assert!(server.handle_stop_typing(A).is_empty());
}

#[test]
fn typing_of_the_guest_reaches_the_host() {
    let mut server = paired();
    assert_eq!(
        server.handle_typing(B),
        vec![to(A, ServerMessage::PartnerTyping)]
    );
    assert_eq!(
        server.handle_stop_typing(B),
        vec![to(A, ServerMessage::PartnerStopTyping)]
    );
}

#[test]
fn typing_outside_a_room_is_refused() {
    let mut server = ChatServer::new();
    connect_named(&mut server, A, "Alice");
    let not_in_room = refusal(A, ErrorCode::NotInRoom, "You are not in a room");
    assert_eq!(server.handle_typing(A), vec![not_in_room.clone()]);
    assert_eq!(server.handle_typing(A), vec![not_in_room]);
    assert!(!server.client(A).unwrap().is_typing);
}

#[test]
fn stop_typing_outside_a_room_is_ignored() {
    let mut server = ChatServer::new();
    connect_named(&mut server, A, "Alice");
    assert!(server.handle_stop_typing(A).is_empty());
}

#[test]
fn typing_of_unknown_session_is_ignored() {
    let mut server = ChatServer::new();
    assert!(server.handle_typing(A).is_empty());
    assert!(server.handle_stop_typing(A).is_empty());
    assert!(server.handle_chat(A, "hi".to_string()).is_empty());
    assert!(server.handle_leave_room(A).is_empty());
    assert!(server.handle_disconnect(A).is_empty());
}

#[test]
fn typing_alone_in_a_room_sets_the_flag_silently() {
    let mut server = ChatServer::new();
    connect_named(&mut server, A, "Alice");
    assert!(server.create_room_with(A, code("ABC123")).is_some());
    assert!(server.handle_typing(A).is_empty());
    assert!(server.client(A).unwrap().is_typing);
}

#[test]
fn chat_reaches_the_partner() {
    let mut server = paired();
    assert_eq!(
        server.handle_chat(B, "hello".to_string()),
        vec![to(
            A,
            ServerMessage::Chat {
                from: "Bob".to_string(),
                content: "hello".to_string()
            }
        )]
    );
}

#[test]
fn chat_while_typing_stops_the_typing_first() {
    let mut server = paired();
    server.handle_typing(A);
    assert_eq!(
        server.handle_chat(A, "hi".to_string()),
        vec![
            to(B, ServerMessage::PartnerStopTyping),
            to(
                B,
                ServerMessage::Chat {
                    from: "Alice".to_string(),
                    content: "hi".to_string()
                }
            ),
        ]
    );
    assert!(!server.client(A).unwrap().is_typing);
    assert_eq!(
        server.handle_typing(A),
        vec![to(B, ServerMessage::PartnerTyping)]
    );
}

#[test]
fn chat_without_partner_is_dropped() {
    let mut server = ChatServer::new();
    connect_named(&mut server, A, "Alice");
    assert!(server.create_room_with(A, code("ABC123")).is_some());
    server.handle_typing(A);
    assert!(server.handle_chat(A, "anyone?".to_string()).is_empty());
    assert!(!server.client(A).unwrap().is_typing);
}

#[test]
fn chat_outside_a_room_is_refused() {
    let mut server = ChatServer::new();
    connect_named(&mut server, A, "Alice");
    assert_eq!(
        server.handle_chat(A, "hi".to_string()),
        vec![refusal(A, ErrorCode::NotInRoom, "You are not in a room")]
    );
}

#[test]
fn chat_of_a_renamed_session_carries_the_new_name() {
    let mut server = paired();
    server.handle_set_username(A, "Alicia".to_string());
    assert_eq!(
        server.handle_chat(A, "hi".to_string()),
        vec![to(
            B,
            ServerMessage::Chat {
                from: "Alicia".to_string(),
                content: "hi".to_string()
            }
        )]
    );
}

#[test]
fn reconnect_under_the_same_identifier_resets_the_record() {
    let mut server = paired();
    server.handle_typing(A);
    assert!(server.handle_connect(A).is_empty());
    let client = server.client(A).unwrap();
    assert!(client.username.is_none());
    assert!(!client.is_typing);
    assert_eq!(server.room_of(A), Some(&code("ABC123")));
    assert_eq!(
        server.handle_chat(A, "hi".to_string()),
        vec![to(
            B,
            ServerMessage::Chat {
                from: "Unknown".to_string(),
                content: "hi".to_string()
            }
        )]
    );
    assert_eq!(
        server.handle_create_room(A),
        vec![refusal(A, ErrorCode::UsernameRequired, "Username is required")]
    );
}

#[test]
fn guest_of_an_unnamed_host_learns_no_name() {
    let mut server = ChatServer::new();
    connect_named(&mut server, A, "Alice");
    connect_named(&mut server, B, "Bob");
    assert!(server.create_room_with(A, code("ABC123")).is_some());
    server.handle_connect(A);
    assert_eq!(
        server.handle_join_room(B, "ABC123".to_string()),
        vec![
            to(
                B,
                ServerMessage::RoomJoined {
                    room_code: "ABC123".to_string(),
                    partner: None
                }
            ),
            to(
                A,
                ServerMessage::PartnerJoined {
                    username: "Bob".to_string()
                }
            ),
        ]
    );
}

#[test]
fn leave_outside_a_room_is_refused() {
    let mut server = ChatServer::new();
    connect_named(&mut server, A, "Alice");
    assert_eq!(
        server.handle_leave_room(A),
        vec![refusal(A, ErrorCode::NotInRoom, "You are not in a room")]
    );
}

#[test]
fn guest_leaving_frees_the_place() {
    let mut server = paired();
    assert_eq!(
        server.handle_leave_room(B),
        vec![to(A, ServerMessage::PartnerLeft)]
    );
    assert!(server.room_of(B).is_none());
    let room = server.room(&code("ABC123")).unwrap();
    assert_eq!((room.host, room.guest), (A, None));
    assert!(server.client(B).is_some());
    assert_eq!(
        server.handle_leave_room(B),
        vec![refusal(B, ErrorCode::NotInRoom, "You are not in a room")]
    );
}

#[test]
fn host_leaving_promotes_the_guest() {
    let mut server = paired();
    assert_eq!(
        server.handle_leave_room(A),
        vec![to(B, ServerMessage::PartnerLeft)]
    );
    let room = server.room(&code("ABC123")).unwrap();
    assert_eq!((room.host, room.guest), (B, None));
    assert_eq!(room.participant_count(), 1);
    assert!(server.room_of(A).is_none());
    assert_eq!(server.room_of(B), Some(&code("ABC123")));
    assert_eq!(server.get_partner(B, &code("ABC123")), None);
}

#[test]
fn host_disconnecting_promotes_the_guest() {
    let mut server = paired();
    assert_eq!(
        server.handle_disconnect(A),
        vec![to(B, ServerMessage::PartnerLeft)]
    );
    let room = server.room(&code("ABC123")).unwrap();
    assert_eq!((room.host, room.guest), (B, None));
    assert!(server.client(A).is_none());
    assert!(server.room_of(A).is_none());
}

#[test]
fn former_host_can_come_back_as_guest() {
    let mut server = paired();
    server.handle_leave_room(A);
    let out = server.handle_join_room(A, "ABC123".to_string());
    assert_eq!(
        out,
        vec![
            to(
                A,
                ServerMessage::RoomJoined {
                    room_code: "ABC123".to_string(),
                    partner: Some("Bob".to_string())
                }
            ),
            to(
                B,
                ServerMessage::PartnerJoined {
                    username: "Alice".to_string()
                }
            ),
        ]
    );
    let room = server.room(&code("ABC123")).unwrap();
    assert_eq!((room.host, room.guest), (B, Some(A)));
}

#[test]
fn last_participant_leaving_deletes_the_room() {
    let mut server = ChatServer::new();
    connect_named(&mut server, A, "Alice");
    connect_named(&mut server, B, "Bob");
    assert!(server.create_room_with(A, code("ABC123")).is_some());
    assert!(server.handle_leave_room(A).is_empty());
    assert!(server.room(&code("ABC123")).is_none());
    assert!(server.room_of(A).is_none());
    assert_eq!(
        server.handle_join_room(B, "ABC123".to_string()),
        vec![refusal(B, ErrorCode::RoomNotFound, "Room 'ABC123' not found")]
    );
}

#[test]
fn last_participant_disconnecting_deletes_the_room() {
    let mut server = ChatServer::new();
    connect_named(&mut server, A, "Alice");
    connect_named(&mut server, B, "Bob");
    assert!(server.create_room_with(A, code("ABC123")).is_some());
    assert!(server.handle_disconnect(A).is_empty());
    assert!(server.room(&code("ABC123")).is_none());
    assert_eq!(
        server.handle_join_room(B, "ABC123".to_string()),
        vec![refusal(B, ErrorCode::RoomNotFound, "Room 'ABC123' not found")]
    );
}

#[test]
fn code_of_a_deleted_room_can_be_used_again() {
    let mut server = ChatServer::new();
    connect_named(&mut server, A, "Alice");
    connect_named(&mut server, B, "Bob");
    assert!(server.create_room_with(A, code("ABC123")).is_some());
    server.handle_leave_room(A);
    assert!(server.create_room_with(B, code("ABC123")).is_some());
    assert_eq!(server.room(&code("ABC123")).unwrap().host, B);
}

#[test]
fn disconnect_is_idempotent() {
    let mut server = paired();
    server.handle_disconnect(B);
    assert!(server.handle_disconnect(B).is_empty());
    assert!(server.client(B).is_none());
    let room = server.room(&code("ABC123")).unwrap();
    assert_eq!((room.host, room.guest), (A, None));
}

#[test]
fn leaving_keeps_the_typing_flag() {
    let mut server = paired();
    server.handle_typing(B);
    server.handle_leave_room(B);
    assert!(server.client(B).unwrap().is_typing);
}

#[test]
fn get_partner_looks_into_the_named_room() {
    let server = paired();
    assert_eq!(server.get_partner(A, &code("ABC123")), Some(B));
    assert_eq!(server.get_partner(B, &code("ABC123")), Some(A));
    assert_eq!(server.get_partner(C, &code("ABC123")), None);
    assert_eq!(server.get_partner(A, &code("ZZZZZZ")), None);
}

#[test]
fn refusals_do_not_reach_the_partner() {
    let mut server = paired();
    for out in [
        server.handle_create_room(A),
        server.handle_join_room(A, "ABC123".to_string()),
    ] {
        assert_eq!(out.len(), 1);
        assert_eq!(out[0].to, A);
    }
}

#[test]
fn commands_are_dispatched_to_their_handlers() {
    let mut server = ChatServer::new();
    assert!(server
        .handle_command(ServerCommand::Connect { client_id: A })
        .is_empty());
    assert_eq!(
        server.handle_command(ServerCommand::SetUsername {
            client_id: A,
            username: "Alice".to_string()
        }),
        vec![to(
            A,
            ServerMessage::UsernameSet {
                username: "Alice".to_string()
            }
        )]
    );
    assert_eq!(
        server.handle_command(ServerCommand::Typing { client_id: A }),
        vec![refusal(A, ErrorCode::NotInRoom, "You are not in a room")]
    );
    assert!(server
        .handle_command(ServerCommand::StopTyping { client_id: A })
        .is_empty());
    assert_eq!(
        server.handle_command(ServerCommand::Chat {
            client_id: A,
            content: "hi".to_string()
        }),
        vec![refusal(A, ErrorCode::NotInRoom, "You are not in a room")]
    );
    assert_eq!(
        server.handle_command(ServerCommand::LeaveRoom { client_id: A }),
        vec![refusal(A, ErrorCode::NotInRoom, "You are not in a room")]
    );
    assert_eq!(
        server.handle_command(ServerCommand::JoinRoom {
            client_id: A,
            room_code: "nosuch".to_string()
        }),
        vec![refusal(A, ErrorCode::RoomNotFound, "Room 'NOSUCH' not found")]
    );
    let x = created_code(&server.handle_command(ServerCommand::CreateRoom { client_id: A }));
    assert_eq!(server.room_of(A), Some(&RoomCode(x)));
    assert!(server
        .handle_command(ServerCommand::Disconnect { client_id: A })
        .is_empty());
    assert!(server.client(A).is_none());
}

#[test]
fn walkthrough_of_a_conversation() {
    let mut server = ChatServer::new();

    // A connects, names herself and opens a room.
    server.handle_command(ServerCommand::Connect { client_id: A });
    server.handle_command(ServerCommand::SetUsername {
        client_id: A,
        username: "Alice".to_string(),
    });
    let out = server.handle_command(ServerCommand::CreateRoom { client_id: A });
    let x = created_code(&out);
    assert_eq!(out[0].to, A);
    assert_eq!(x.chars().count(), 6);

    // B connects, names himself and joins.
    server.handle_command(ServerCommand::Connect { client_id: B });
    server.handle_command(ServerCommand::SetUsername {
        client_id: B,
        username: "Bob".to_string(),
    });
    let out = server.handle_command(ServerCommand::JoinRoom {
        client_id: B,
        room_code: x.clone(),
    });
    assert_eq!(
        out,
        vec![
            to(
                B,
                ServerMessage::RoomJoined {
                    room_code: x.clone(),
                    partner: Some("Alice".to_string())
                }
            ),
            to(
                A,
                ServerMessage::PartnerJoined {
                    username: "Bob".to_string()
                }
            ),
        ]
    );

    // A types, then says "hi".
    assert_eq!(
        server.handle_command(ServerCommand::Typing { client_id: A }),
        vec![to(B, ServerMessage::PartnerTyping)]
    );
    assert_eq!(
        server.handle_command(ServerCommand::Chat {
            client_id: A,
            content: "hi".to_string()
        }),
        vec![
            to(B, ServerMessage::PartnerStopTyping),
            to(
                B,
                ServerMessage::Chat {
                    from: "Alice".to_string(),
                    content: "hi".to_string()
                }
            ),
        ]
    );

    // B disconnects; the room stays with A, and a third session can join.
    assert_eq!(
        server.handle_command(ServerCommand::Disconnect { client_id: B }),
        vec![to(A, ServerMessage::PartnerLeft)]
    );
    let room = server.room(&RoomCode(x.clone())).unwrap();
    assert_eq!((room.host, room.guest), (A, None));
    server.handle_command(ServerCommand::Connect { client_id: C });
    server.handle_command(ServerCommand::SetUsername {
        client_id: C,
        username: "Carol".to_string(),
    });
    let out = server.handle_command(ServerCommand::JoinRoom {
        client_id: C,
        room_code: x.clone(),
    });
    assert_eq!(
        out[0],
        to(
            C,
            ServerMessage::RoomJoined {
                room_code: x.clone(),
                partner: Some("Alice".to_string())
            }
        )
    );
    assert_eq!(server.room(&RoomCode(x.clone())).unwrap().guest, Some(C));
}

#[test]
fn walkthrough_of_the_last_departure() {
    let mut server = ChatServer::new();
    connect_named(&mut server, A, "Alice");
    connect_named(&mut server, B, "Bob");
    let x = created_code(&server.handle_command(ServerCommand::CreateRoom { client_id: A }));
    server.handle_command(ServerCommand::JoinRoom {
        client_id: B,
        room_code: x.clone(),
    });
    server.handle_command(ServerCommand::Disconnect { client_id: B });

    // A disconnects while alone: the room goes.
    assert!(server
        .handle_command(ServerCommand::Disconnect { client_id: A })
        .is_empty());
    assert!(server.room(&RoomCode(x.clone())).is_none());

    connect_named(&mut server, C, "Carol");
    let out = server.handle_command(ServerCommand::JoinRoom {
        client_id: C,
        room_code: x.clone(),
    });
    assert_eq!(
        out,
        vec![to(
            C,
            ServerMessage::Error {
                code: ErrorCode::RoomNotFound,
                message: format!("Room '{}' not found", x)
            }
        )]
    );
}

#[test]
fn room_keeps_its_creation_time() {
    let mut server = ChatServer::new();
    connect_named(&mut server, A, "Alice");
    connect_named(&mut server, B, "Bob");
    assert!(server.create_room_with(A, code("ABC123")).is_some());
    let created_at = server.room(&code("ABC123")).unwrap().created_at;
    server.handle_join_room(B, "ABC123".to_string());
    assert_eq!(server.room(&code("ABC123")).unwrap().created_at, created_at);
    server.handle_typing(A);
    server.handle_chat(A, "hi".to_string());
    assert_eq!(server.room(&code("ABC123")).unwrap().created_at, created_at);
    server.handle_leave_room(A);
    assert_eq!(server.room(&code("ABC123")).unwrap().created_at, created_at);
    server.handle_join_room(A, "ABC123".to_string());
    server.handle_disconnect(B);
    assert_eq!(server.room(&code("ABC123")).unwrap().created_at, created_at);
}

#[test]
fn first_room_is_always_granted() {
    for _ in 0..50 {
        let mut server = ChatServer::new();
        connect_named(&mut server, A, "Alice");
        connect_named(&mut server, B, "Bob");
        let out = server.handle_create_room(A);
        let x = created_code(&out);
        assert_eq!(out[0].to, A);
        assert!(RoomCode(x.clone()).is_canonical());
        assert_eq!(server.room(&RoomCode(x)).unwrap().host, A);
    }
}
