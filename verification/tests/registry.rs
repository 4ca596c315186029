use conclave_server::Server;

#[test]
fn create_room() {
    let mut server = Server::new();
    let guise_session_id: u64 = 999;
    let user_session_id = server.login_user(guise_session_id).unwrap();
    let room = server.create_room(user_session_id).unwrap();
    assert_eq!(room.id, 0);
    let room2 = server.create_room(user_session_id).unwrap();
    assert_eq!(room2.id, 1);
}

#[test]
fn remove_room() {
    let mut server = Server::new();
    let guise_session_id: u64 = 999;
    let user_session_id = server.login_user(guise_session_id).unwrap();
    let room_id = server.create_room(user_session_id).unwrap().id;
    assert_eq!(room_id, 0);
    assert_eq!(server.rooms.len(), 1);
    server.remove_room(room_id, user_session_id);
    assert_eq!(server.rooms.len(), 0);
}

#[test]
fn room_ids_independent_of_session_ids() {
    let mut server = Server::new();
    let session_id = server.login_user(999).unwrap();
    assert_eq!(session_id, 0);
    let second_session = server.login_user(1000).unwrap();
    assert_eq!(second_session, 1);
    // Room identifiers start from the room allocator's own counter at 0,
    // regardless of how many sessions exist.
    let room = server.create_room(session_id).unwrap();
    assert_eq!(room.id, 0);
}

#[test]
fn two_rooms_then_reuse_after_removal() {
    let mut server = Server::new();
    let session_id = server.login_user(7).unwrap();
    let first = server.create_room(session_id).unwrap();
    let second = server.create_room(session_id).unwrap();
    assert_eq!(first.id, 0);
    assert_eq!(second.id, 1);
    server.remove_room(first.id, session_id);
    let third = server.create_room(session_id).unwrap();
    // The freed identifier is reused; the counter does not advance to 2.
    assert_eq!(third.id, 0);
    assert_eq!(server.rooms.len(), 2);
}

#[test]
fn never_issued_session_is_absent() {
    let mut server = Server::new();
    assert!(server.get_user_session(0).is_none());
    let session_id = server.login_user(999).unwrap();
    let session = server.get_user_session(session_id).unwrap();
    assert_eq!(session.guise_user_id, 999);
    assert_eq!(session.name, "");
    assert!(server.get_user_session(1).is_none());
    assert!(server.get_user_session(300).is_none());
}

#[test]
fn session_space_exhaustion_is_reported() {
    let mut server = Server::new();
    for guise in 0..256u64 {
        let sid = server.login_user(guise).unwrap();
        assert_eq!(sid, guise);
    }
    assert!(server.login_user(256).is_err());
    // Rooms have their own identifier space and are unaffected.
    let room = server.create_room(0).unwrap();
    assert_eq!(room.id, 0);
}

#[test]
fn removing_unknown_room_is_a_noop() {
    let mut server = Server::new();
    let session_id = server.login_user(5).unwrap();
    let room = server.create_room(session_id).unwrap();
    assert_eq!(server.rooms.len(), 1);
    server.remove_room(200, session_id);
    assert_eq!(server.rooms.len(), 1);
    // The free list was not touched, so the next room is still fresh.
    let next = server.create_room(session_id).unwrap();
    assert_eq!(next.id, 1);
    assert_eq!(room.id, 0);
}
