//! The per-connection handler: its state machine and its verified
//! decisions.
//!
//! A connection runs Connecting → Handshaking → Spawning → Streaming →
//! Closed.  The transport work (TCP, the HTTP-Upgrade-to-WebSocket
//! handshake, frame reads and writes) happens outside the library; the
//! decisions — what the welcome sequence holds, when a connection is torn
//! down, which broadcast messages are echoed back — are made here, over
//! plain values.
//!
//! Teardown is structured: a decode error, a full inbound queue, or any
//! transport fault closes the whole connection, and its broadcast
//! subscription is unregistered.  A handshake failure closes the
//! connection before any game-state interaction.

use vstd::prelude::*;
use crate::wire::{Message, DecodeError, spec_decode, spec_encode, decode, encode};
use crate::game::{Game, Player, DEFAULT_RADIUS_BITS};
use crate::router::{InboundQueue, Broadcast, SendError, spec_publish};

verus! {

/// The lifecycle of one connection.
#[derive(Clone, Copy, PartialEq, Eq, Structural, Debug)]
pub enum ConnState {
    /// The raw transport was accepted; nothing exchanged yet.
    Connecting,
    /// The HTTP-Upgrade-to-WebSocket handshake is in progress.
    Handshaking,
    /// The initial-state replay and registration are in progress.
    Spawning,
    /// Registered under the carried uid; the read and write loops run.
    Streaming(u32),
    /// Transport closed and subscription unregistered.
    Closed,
}

/// What the transport layer reports to the state machine.
#[derive(Clone, Copy, PartialEq, Eq, Structural, Debug)]
pub enum ConnEvent {
    /// The raw transport connection is up.
    TransportAccepted,
    /// The WebSocket handshake completed.
    HandshakeOk,
    /// The WebSocket handshake failed.
    HandshakeFailed,
    /// The welcome sequence was sent and the player registered under
    /// the carried uid.
    Registered(u32),
    /// An I/O error, EOF, decode error or queue fault: tear down.
    Fault,
}

/// The connection state machine.  A fault closes the connection from any
/// state, a handshake failure closes it before any game-state effect, and
/// an event that its state does not expect also tears it down; `Closed`
/// is final.
pub open spec fn spec_advance(s: ConnState, e: ConnEvent) -> ConnState {
    match (s, e) {
        (ConnState::Connecting, ConnEvent::TransportAccepted) => ConnState::Handshaking,
        (ConnState::Handshaking, ConnEvent::HandshakeOk) => ConnState::Spawning,
        (ConnState::Spawning, ConnEvent::Registered(uid)) => ConnState::Streaming(uid),
        _ => ConnState::Closed,
    }
}

/// Advance the connection state machine by one event.
pub fn advance(s: ConnState, e: ConnEvent) -> (r: ConnState)
    ensures
        r == spec_advance(s, e),
{
    match (s, e) {
        (ConnState::Connecting, ConnEvent::TransportAccepted) => ConnState::Handshaking,
        (ConnState::Handshaking, ConnEvent::HandshakeOk) => ConnState::Spawning,
        (ConnState::Spawning, ConnEvent::Registered(uid)) => ConnState::Streaming(uid),
        _ => ConnState::Closed,
    }
}

/// Teardown law: a fault closes the connection from every state, and no
/// event leaves the `Closed` state.
pub proof fn lemma_teardown(s: ConnState, e: ConnEvent)
    ensures
        spec_advance(s, ConnEvent::Fault) == ConnState::Closed,
        spec_advance(ConnState::Closed, e) == ConnState::Closed,
{
}

/// Why a streaming connection was torn down.
#[derive(Clone, Copy, PartialEq, Eq, Structural, Debug)]
pub enum ConnError {
    /// An inbound frame failed to decode.
    Decode(DecodeError),
    /// The inbound queue was full when this connection produced.
    InboundFull,
}

/// The initial-state replay sent to a fresh client: one `SpawnFood` per
/// stored pellet, then one `NewPlayer` per registered player, each
/// carrying the stored coordinates.
pub open spec fn spec_snapshot_messages(food: Seq<(u32, u32)>, players: Seq<Player>) -> Seq<
    Message,
> {
    food.map_values(|f: (u32, u32)| Message::SpawnFood(f.0, f.1)) + players.map_values(
        |p: Player| Message::NewPlayer(p.x, p.y, p.uid),
    )
}

/// The whole welcome sequence: the initial-state replay, then the private
/// `Start` carrying the fresh uid.
pub open spec fn spec_welcome(food: Seq<(u32, u32)>, players: Seq<Player>, uid: u32) -> Seq<
    Message,
> {
    spec_snapshot_messages(food, players).push(Message::Start(0, 0, uid))
}

/// Build the initial-state replay from a point-in-time snapshot of the
/// store.
pub fn snapshot_messages(g: &Game) -> (r: Vec<Message>)
    ensures
        r@ == spec_snapshot_messages(g.spec_food(), g.spec_players()),
{
    let food = g.snapshot_food();
    let players = g.snapshot_players();
    let mut r: Vec<Message> = Vec::new();
    let mut i: usize = 0;
    while i < food.len()
        invariant
            food@ == g.spec_food(),
            i <= food@.len(),
            r@.len() == i,
            forall|j: int|
                0 <= j < i ==> #[trigger] r@[j] == Message::SpawnFood(food@[j].0, food@[j].1),
        decreases food@.len() - i,
    {
        let f = food[i];
        r.push(Message::SpawnFood(f.0, f.1));
        i += 1;
    }
    let mut k: usize = 0;
    while k < players.len()
        invariant
            food@ == g.spec_food(),
            players@ == g.spec_players(),
            k <= players@.len(),
            r@.len() == food@.len() + k,
            forall|j: int|
                0 <= j < food@.len() ==> #[trigger] r@[j] == Message::SpawnFood(
                    food@[j].0,
                    food@[j].1,
                ),
            forall|j: int|
                0 <= j < k ==> #[trigger] r@[food@.len() + j] == Message::NewPlayer(
                    players@[j].x,
                    players@[j].y,
                    players@[j].uid,
                ),
        decreases players@.len() - k,
    {
        let p = players[k];
        r.push(Message::NewPlayer(p.x, p.y, p.uid));
        k += 1;
    }
    proof {
        let food_msgs = food@.map_values(|f: (u32, u32)| Message::SpawnFood(f.0, f.1));
        let player_msgs = players@.map_values(|p: Player| Message::NewPlayer(p.x, p.y, p.uid));
        assert forall|j: int| 0 <= j < r@.len() implies r@[j] == (food_msgs + player_msgs)[j] by {
            if j < food_msgs.len() {
                assert(r@[j] == Message::SpawnFood(food@[j].0, food@[j].1));
                assert((food_msgs + player_msgs)[j] == food_msgs[j]);
            } else {
                let jj = j - food@.len();
                assert(r@[food@.len() + jj] == Message::NewPlayer(
                    players@[jj].x,
                    players@[jj].y,
                    players@[jj].uid,
                ));
                assert((food_msgs + player_msgs)[j] == player_msgs[jj]);
            }
        }
        assert(r@ =~= spec_snapshot_messages(g.spec_food(), g.spec_players()));
    }
    r
}

/// What admitting one connection produces.
pub struct Admission {
    /// The frames streamed to the new client, in order: the replay, then
    /// its private `Start`.
    pub welcome: Vec<Message>,
    /// The `NewPlayer` published on the outbound broadcast so already
    /// connected peers instantiate the newcomer.
    pub announce: Message,
    /// The uid assigned at registration.
    pub uid: u32,
}

/// Admit one connection: take a point-in-time snapshot of the store,
/// build the welcome sequence from it, register the new player (its uid
/// is the roster length before the append), close the welcome with the
/// private `Start`, and publish the `NewPlayer` announcement on the
/// broadcast.
pub fn admit_connection(g: &mut Game, b: &mut Broadcast) -> (r: Admission)
    requires
        old(g).wf(),
        old(b).wf(),
        old(g).spec_players().len() < u32::MAX,
    ensures
        final(g).wf(),
        final(b).wf(),
        final(b).cap() == old(b).cap(),
        r.uid == old(g).spec_players().len(),
        r.welcome@ == spec_welcome(old(g).spec_food(), old(g).spec_players(), r.uid),
        r.announce == Message::NewPlayer(0, 0, r.uid),
        final(g).spec_food() == old(g).spec_food(),
        final(g).spec_players() == old(g).spec_players().push(
            Player { x: 0, y: 0, radius: DEFAULT_RADIUS_BITS, uid: r.uid },
        ),
        final(b)@ == spec_publish(old(b)@, Message::NewPlayer(0, 0, r.uid), old(b).cap()),
{
    let mut welcome = snapshot_messages(g);
    let uid = g.register_player();
    welcome.push(Message::Start(0, 0, uid));
    let announce = Message::NewPlayer(0, 0, uid);
    b.publish(announce);
    Admission { welcome, announce, uid }
}

/// Welcome-sequence law: a fresh client is sent exactly one `SpawnFood`
/// per stored pellet — carrying the stored coordinates, and no `SpawnFood`
/// beyond those — then one `NewPlayer` per registered player, and its own
/// `Start` last.
pub proof fn lemma_welcome_shape(food: Seq<(u32, u32)>, players: Seq<Player>, uid: u32)
    ensures
        spec_welcome(food, players, uid).len() == food.len() + players.len() + 1,
        forall|i: int|
            0 <= i < food.len() ==> #[trigger] spec_welcome(food, players, uid)[i]
                == Message::SpawnFood(food[i].0, food[i].1),
        forall|i: int|
            food.len() <= i < food.len() + players.len() ==> #[trigger] spec_welcome(
                food,
                players,
                uid,
            )[i] == Message::NewPlayer(
                players[i - food.len()].x,
                players[i - food.len()].y,
                players[i - food.len()].uid,
            ),
        spec_welcome(food, players, uid)[food.len() + players.len() as int] == Message::Start(
            0,
            0,
            uid,
        ),
        forall|i: int|
            0 <= i < spec_welcome(food, players, uid).len() ==> ((#[trigger] spec_welcome(
                food,
                players,
                uid,
            )[i]) is SpawnFood <==> i < food.len()),
{
}

/// Decode one inbound transport frame and hand it to the inbound queue.
/// A decode failure or a full queue is fatal to this connection (the
/// caller tears it down) and leaves the queue exactly as it was; no
/// shared state is touched on failure.
pub fn handle_inbound_frame(buf: &[u8], q: &mut InboundQueue) -> (r: Result<(), ConnError>)
    requires
        old(q).wf(),
    ensures
        final(q).wf(),
        final(q).cap() == old(q).cap(),
        spec_decode(buf@) matches Err(e) ==> r == Err::<(), ConnError>(ConnError::Decode(e))
            && final(q)@ == old(q)@,
        spec_decode(buf@) matches Ok(m) ==> (if old(q)@.len() < old(q).cap() {
            r is Ok && final(q)@ == old(q)@.push(m)
        } else {
            r == Err::<(), ConnError>(ConnError::InboundFull) && final(q)@ == old(q)@
        }),
{
    match decode(buf) {
        Ok(m) => match q.send(m) {
            Ok(()) => Ok(()),
            Err(SendError::Full) => Err(ConnError::InboundFull),
        },
        Err(e) => Err(ConnError::Decode(e)),
    }
}

/// Echo suppression: a broadcast message is delivered to a connection
/// unless it carries that connection's own uid.  `SpawnFood` carries no
/// uid and reaches everyone.
pub open spec fn spec_should_deliver(m: Message, own_uid: u32) -> bool {
    m.spec_uid() != Some(own_uid)
}

/// Whether a broadcast message is written to this connection's transport.
pub fn should_deliver(m: &Message, own_uid: u32) -> (r: bool)
    ensures
        r == spec_should_deliver(*m, own_uid),
{
    match m.uid() {
        Some(uid) => uid != own_uid,
        None => true,
    }
}

/// Turn one received broadcast message into the frame written to this
/// connection's transport: nothing when echo suppression withholds it,
/// its encoding otherwise.
pub fn outbound_frame(m: &Message, own_uid: u32) -> (r: Option<Vec<u8>>)
    ensures
        !spec_should_deliver(*m, own_uid) ==> r is None,
        spec_should_deliver(*m, own_uid) ==> (r matches Some(f) && f@ == spec_encode(*m)),
{
    if should_deliver(m, own_uid) {
        Some(encode(m))
    } else {
        None
    }
}

} // verus!
