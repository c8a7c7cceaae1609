use cellio::game::{Game, DEFAULT_RADIUS_BITS};
use cellio::gameloop::{game_loop_step, relay};
use cellio::handler::{
    admit_connection, advance, handle_inbound_frame, outbound_frame, should_deliver, ConnError,
    ConnEvent, ConnState,
};
use cellio::router::{Broadcast, InboundQueue, SendError};
use cellio::wire::{decode, encode, DecodeError, Message};

fn food_bits(pairs: &[(f32, f32)]) -> Vec<(u32, u32)> {
    pairs.iter().map(|(x, y)| (x.to_bits(), y.to_bits())).collect()
}

#[test]
fn default_radius_is_ten() {
    assert_eq!(DEFAULT_RADIUS_BITS, 10.0f32.to_bits());
}

#[test]
fn welcome_has_one_spawn_food_per_pellet_then_start() {
    let pellets = [(1.0f32, 2.0f32), (-3.5, 4.25), (0.0, -0.0)];
    let mut game = Game::new(food_bits(&pellets));
    let mut bcast = Broadcast::new(16);
    let adm = admit_connection(&mut game, &mut bcast);

    assert_eq!(adm.uid, 0);
    assert_eq!(adm.welcome.len(), pellets.len() + 1);
    for (i, (x, y)) in pellets.iter().enumerate() {
        assert_eq!(adm.welcome[i], Message::SpawnFood(x.to_bits(), y.to_bits()));
    }
    assert_eq!(adm.welcome[pellets.len()], Message::Start(0, 0, 0));
}

#[test]
fn welcome_replays_existing_players_before_start() {
    let mut game = Game::new(food_bits(&[(5.0, 6.0)]));
    let mut bcast = Broadcast::new(16);
    let first = admit_connection(&mut game, &mut bcast);
    let second = admit_connection(&mut game, &mut bcast);

    assert_eq!(second.uid, 1);
    // one pellet, one existing player, then Start
    assert_eq!(second.welcome.len(), 3);
    assert_eq!(
        second.welcome[0],
        Message::SpawnFood(5.0f32.to_bits(), 6.0f32.to_bits())
    );
    assert_eq!(second.welcome[1], Message::NewPlayer(0, 0, first.uid));
    assert_eq!(second.welcome[2], Message::Start(0, 0, 1));
}

#[test]
fn serial_uids_are_connection_order() {
    let mut game = Game::new(Vec::new());
    let mut bcast = Broadcast::new(8);
    for expected in 0u32..5 {
        let adm = admit_connection(&mut game, &mut bcast);
        assert_eq!(adm.uid, expected);
    }
    let roster = game.snapshot_players();
    assert_eq!(roster.len(), 5);
    for (i, p) in roster.iter().enumerate() {
        assert_eq!(p.uid, i as u32);
        assert_eq!(p.x, 0);
        assert_eq!(p.y, 0);
        assert_eq!(p.radius, DEFAULT_RADIUS_BITS);
    }
}

#[test]
fn snapshots_match_store() {
    let food = food_bits(&[(9.0, 8.0), (7.0, 6.0)]);
    let game = Game::new(food.clone());
    assert_eq!(game.snapshot_food(), food);
    assert_eq!(game.food_count(), 2);
    assert_eq!(game.player_count(), 0);
    assert!(game.snapshot_players().is_empty());
}

#[test]
fn relay_passes_player_traffic_and_drops_server_messages() {
    let mv = Message::MovePlayer(1, 2, 3);
    let np = Message::NewPlayer(4, 5, 6);
    assert_eq!(relay(mv), Some(mv));
    assert_eq!(relay(np), Some(np));
    assert_eq!(relay(Message::SpawnFood(1, 2)), None);
    assert_eq!(relay(Message::Start(1, 2, 3)), None);
}

#[test]
fn echo_suppression_filters_own_uid_only() {
    let m = Message::MovePlayer(1, 0, 7);
    assert!(!should_deliver(&m, 7));
    assert!(should_deliver(&m, 8));
    // SpawnFood carries no uid and reaches everyone
    assert!(should_deliver(&Message::SpawnFood(1, 2), 7));

    assert_eq!(outbound_frame(&m, 7), None);
    assert_eq!(outbound_frame(&m, 8), Some(encode(&m)));
}

#[test]
fn state_machine_happy_path_and_teardown() {
    let s = ConnState::Connecting;
    let s = advance(s, ConnEvent::TransportAccepted);
    assert_eq!(s, ConnState::Handshaking);
    let s = advance(s, ConnEvent::HandshakeOk);
    assert_eq!(s, ConnState::Spawning);
    let s = advance(s, ConnEvent::Registered(3));
    assert_eq!(s, ConnState::Streaming(3));
    let s = advance(s, ConnEvent::Fault);
    assert_eq!(s, ConnState::Closed);
    // Closed is final
    assert_eq!(advance(s, ConnEvent::HandshakeOk), ConnState::Closed);
    // a handshake failure closes before any game-state effect
    assert_eq!(
        advance(ConnState::Handshaking, ConnEvent::HandshakeFailed),
        ConnState::Closed
    );
    // an event a state does not expect tears the connection down
    assert_eq!(
        advance(ConnState::Connecting, ConnEvent::HandshakeOk),
        ConnState::Closed
    );
}

#[test]
fn move_reaches_peer_but_never_echoes() {
    // Scenario: A connects (uid 0), B connects (uid 1); A sends a move;
    // B's transport receives the frame, A's never does.
    let mut game = Game::new(food_bits(&[(1.0, 1.0)]));
    let mut queue = InboundQueue::new(128);
    let mut bcast = Broadcast::new(128);

    let sid_a = bcast.subscribe();
    let a = admit_connection(&mut game, &mut bcast);
    let sid_b = bcast.subscribe();
    let b = admit_connection(&mut game, &mut bcast);
    assert_eq!((a.uid, b.uid), (0, 1));

    // drain the admission announcements as each connection's write loop
    // would: own announcements are suppressed, the peer's go out
    let mut a_frames: Vec<Option<Vec<u8>>> = Vec::new();
    while let Some(m) = bcast.recv(sid_a) {
        a_frames.push(outbound_frame(&m, a.uid));
    }
    assert_eq!(
        a_frames,
        vec![None, Some(encode(&Message::NewPlayer(0, 0, 1)))]
    );
    let mut b_frames: Vec<Option<Vec<u8>>> = Vec::new();
    while let Some(m) = bcast.recv(sid_b) {
        b_frames.push(outbound_frame(&m, b.uid));
    }
    assert_eq!(b_frames, vec![None]);

    // A's transport delivers an encoded MovePlayer(1.0, 0.0, uid 0)
    let mv = Message::MovePlayer(1.0f32.to_bits(), 0.0f32.to_bits(), a.uid);
    let frame = encode(&mv);
    assert_eq!(handle_inbound_frame(&frame, &mut queue), Ok(()));
    assert!(game_loop_step(&mut queue, &mut bcast));

    // B receives exactly that frame
    let to_b = bcast.recv(sid_b).expect("B subscribed and was sent the move");
    let frame_to_b = outbound_frame(&to_b, b.uid).expect("not B's own message");
    assert_eq!(decode(&frame_to_b), Ok(mv));
    assert_eq!(frame_to_b, frame);

    // A's write loop sees the message but writes nothing
    let to_a = bcast.recv(sid_a).expect("A is subscribed too");
    assert_eq!(outbound_frame(&to_a, a.uid), None);
    assert_eq!(bcast.recv(sid_a), None);
    assert_eq!(bcast.recv(sid_b), None);
}

#[test]
fn inbound_overflow_disconnects_producer_only() {
    // Scenario: queue capacity C; a client that enqueues more than C
    // messages before the game loop drains any is torn down, while the
    // game loop and other connections keep working.
    let capacity: usize = 4;
    let mut queue = InboundQueue::new(capacity);
    let mut bcast = Broadcast::new(128);
    let sid = bcast.subscribe();

    let noisy = Message::MovePlayer(1, 0, 0);
    let frame = encode(&noisy);
    for _ in 0..capacity {
        assert_eq!(handle_inbound_frame(&frame, &mut queue), Ok(()));
    }
    // the producer exceeding the capacity fails and is disconnected
    assert_eq!(
        handle_inbound_frame(&frame, &mut queue),
        Err(ConnError::InboundFull)
    );
    assert_eq!(queue.len(), capacity);

    // the game loop drains unharmed and the broadcast still fans out
    let mut drained: usize = 0;
    while game_loop_step(&mut queue, &mut bcast) {
        drained += 1;
    }
    assert_eq!(drained, capacity);
    assert_eq!(queue.len(), 0);
    for _ in 0..capacity {
        assert_eq!(bcast.recv(sid), Some(noisy));
    }

    // another connection can produce again
    let other = Message::MovePlayer(0, 1, 1);
    assert_eq!(handle_inbound_frame(&encode(&other), &mut queue), Ok(()));
    assert!(game_loop_step(&mut queue, &mut bcast));
    assert_eq!(bcast.recv(sid), Some(other));
}

#[test]
fn inbound_decode_error_is_fatal_and_leaves_queue_alone() {
    let mut queue = InboundQueue::new(8);
    assert_eq!(handle_inbound_frame(&encode(&Message::MovePlayer(1, 2, 3)), &mut queue), Ok(()));
    let r = handle_inbound_frame(&[200u8, 1, 2], &mut queue);
    assert_eq!(r, Err(ConnError::Decode(DecodeError::UnknownTag)));
    let r = handle_inbound_frame(&[2u8, 1], &mut queue);
    assert_eq!(r, Err(ConnError::Decode(DecodeError::Truncated)));
    // the queue is exactly as it was
    assert_eq!(queue.len(), 1);
}

#[test]
fn direct_queue_send_reports_full() {
    let mut queue = InboundQueue::new(1);
    assert_eq!(queue.send(Message::SpawnFood(1, 2)), Ok(()));
    assert_eq!(queue.send(Message::SpawnFood(3, 4)), Err(SendError::Full));
    assert_eq!(queue.recv(), Some(Message::SpawnFood(1, 2)));
    assert_eq!(queue.recv(), None);
}

#[test]
fn lagging_subscriber_skips_oldest_and_keeps_newest() {
    let mut bcast = Broadcast::new(2);
    let sid = bcast.subscribe();
    let m1 = Message::MovePlayer(1, 0, 9);
    let m2 = Message::MovePlayer(2, 0, 9);
    let m3 = Message::MovePlayer(3, 0, 9);
    bcast.publish(m1);
    bcast.publish(m2);
    bcast.publish(m3);
    // m1 was dropped: the subscriber resumes at the newest available
    assert_eq!(bcast.recv(sid), Some(m2));
    assert_eq!(bcast.recv(sid), Some(m3));
    assert_eq!(bcast.recv(sid), None);
}

#[test]
fn unsubscribe_clears_one_slot_only() {
    let mut bcast = Broadcast::new(4);
    let sid_a = bcast.subscribe();
    let sid_b = bcast.subscribe();
    let m = Message::NewPlayer(1, 2, 3);
    bcast.publish(m);
    bcast.unsubscribe(sid_a);
    assert_eq!(bcast.recv(sid_a), None);
    assert_eq!(bcast.recv(sid_b), Some(m));
    // slots are never reused
    let sid_c = bcast.subscribe();
    assert_ne!(sid_c, sid_a);
    assert_ne!(sid_c, sid_b);
    assert_eq!(bcast.num_slots(), 3);
}
