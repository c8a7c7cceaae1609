//! The game loop: the single consumer of the inbound queue.
//!
//! It applies a pure relay policy — client-authored `NewPlayer` and
//! `MovePlayer` are republished unchanged on the outbound broadcast;
//! `SpawnFood` and `Start`, which no client legitimately produces, are
//! silently dropped — and does nothing else: no tick, no physics, no
//! collision logic at this layer.

use vstd::prelude::*;
use crate::wire::Message;
use crate::router::{InboundQueue, Broadcast, spec_publish};
use crate::handler::spec_should_deliver;

verus! {

/// The relay policy: what the game loop republishes for one inbound
/// message.  `NewPlayer` and `MovePlayer` pass through unchanged;
/// `SpawnFood` and `Start` are dropped.
pub open spec fn spec_relay(m: Message) -> Option<Message> {
    match m {
        Message::NewPlayer(_, _, _) => Some(m),
        Message::MovePlayer(_, _, _) => Some(m),
        Message::SpawnFood(_, _) => None,
        Message::Start(_, _, _) => None,
    }
}

/// Apply the relay policy to one inbound message.
pub fn relay(m: Message) -> (r: Option<Message>)
    ensures
        r == spec_relay(m),
{
    match m {
        Message::NewPlayer(_, _, _) => Some(m),
        Message::MovePlayer(_, _, _) => Some(m),
        Message::SpawnFood(_, _) => None,
        Message::Start(_, _, _) => None,
    }
}

/// Relay law: a client-authored message is republished unchanged, and a
/// message only the server authors is silently dropped — no error reaches
/// the producing connection.
pub proof fn lemma_relay_policy(m: Message)
    ensures
        m is NewPlayer || m is MovePlayer ==> spec_relay(m) == Some(m),
        m is SpawnFood || m is Start ==> spec_relay(m) is None,
{
}

/// One reaction of the game loop: pull the oldest inbound message, if
/// any, and republish it under the relay policy.  Returns whether a
/// message was consumed.
pub fn game_loop_step(q: &mut InboundQueue, b: &mut Broadcast) -> (r: bool)
    requires
        old(q).wf(),
        old(b).wf(),
    ensures
        final(q).wf(),
        final(b).wf(),
        final(q).cap() == old(q).cap(),
        final(b).cap() == old(b).cap(),
        old(q)@.len() == 0 ==> !r && final(q)@ == old(q)@ && final(b)@ == old(b)@,
        old(q)@.len() > 0 ==> r && final(q)@ == old(q)@.skip(1) && final(b)@ == (
        match spec_relay(old(q)@[0]) {
            Some(out) => spec_publish(old(b)@, out, old(b).cap()),
            None => old(b)@,
        }),
{
    match q.recv() {
        None => false,
        Some(m) => {
            match relay(m) {
                Some(out) => {
                    b.publish(out);
                },
                None => {},
            }
            true
        },
    }
}

/// Fan-out and echo-suppression law: a republished message lands at the
/// tail of every live subscription's buffer, and the per-connection echo
/// filter then withholds it from exactly the author's own connection —
/// every other subscribed connection receives it.
pub proof fn lemma_fanout_echo_suppression(
    subs: Seq<Option<Seq<Message>>>,
    m: Message,
    cap: int,
    author: u32,
    other: u32,
)
    requires
        cap >= 1,
        m.spec_uid() == Some(author),
        other != author,
    ensures
        forall|i: int|
            0 <= i < subs.len() && subs[i] is Some ==> (#[trigger] spec_publish(subs, m, cap)[i])
                is Some && spec_publish(subs, m, cap)[i]->Some_0.len() > 0 && spec_publish(
                subs,
                m,
                cap,
            )[i]->Some_0.last() == m,
        !spec_should_deliver(m, author),
        spec_should_deliver(m, other),
{
}

} // verus!
