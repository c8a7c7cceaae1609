//! The game state store: the canonical food list and player roster.
//!
//! The store is single-writer: only registration appends to the roster, and
//! nothing else mutates it.  Stored player coordinates are set once at
//! registration and are not updated by later movement traffic — position
//! truth lives in what each client infers from the broadcast stream.
//! Players are never removed and uids are never reused.

use vstd::prelude::*;

verus! {

/// The IEEE-754 single-precision bit pattern of the default player radius
/// (a radius of 10).
pub const DEFAULT_RADIUS_BITS: u32 = 0x4120_0000;

/// A registered player.  Coordinate and radius fields hold IEEE-754
/// single-precision bit patterns.
#[derive(Clone, Copy, PartialEq, Eq, Structural, Debug)]
pub struct Player {
    pub x: u32,
    pub y: u32,
    pub radius: u32,
    pub uid: u32,
}

/// The shared game state: a food roster fixed at creation and a player
/// roster that only registration extends.
pub struct Game {
    food: Vec<(u32, u32)>,
    cells: Vec<Player>,
}

impl Game {
    /// The stored food pellets, in creation order.
    pub closed spec fn spec_food(self) -> Seq<(u32, u32)> {
        self.food@
    }

    /// The player roster, in registration order.
    pub closed spec fn spec_players(self) -> Seq<Player> {
        self.cells@
    }

    /// Well-formedness: each player's uid is its position in the roster,
    /// so uids are assigned 0, 1, 2, ... in registration order and never
    /// reused.
    pub open spec fn wf(self) -> bool {
        &&& self.spec_players().len() <= u32::MAX
        &&& forall|i: int|
            0 <= i < self.spec_players().len() ==> #[trigger] self.spec_players()[i].uid == i
    }

    /// Create the store with a fixed food set and an empty roster.
    pub fn new(food: Vec<(u32, u32)>) -> (g: Game)
        ensures
            g.spec_food() == food@,
            g.spec_players() == Seq::<Player>::empty(),
            g.wf(),
    {
        let g = Game { food, cells: Vec::new() };
        assert(g.spec_players() =~= Seq::<Player>::empty());
        g
    }

    /// Number of stored food pellets.
    pub fn food_count(&self) -> (n: usize)
        ensures
            n == self.spec_food().len(),
    {
        self.food.len()
    }

    /// Number of registered players.
    pub fn player_count(&self) -> (n: usize)
        ensures
            n == self.spec_players().len(),
    {
        self.cells.len()
    }

    /// Append a fresh player at the origin with the default radius, and
    /// assign it the next uid: the roster length before the append.
    pub fn register_player(&mut self) -> (uid: u32)
        requires
            old(self).wf(),
            old(self).spec_players().len() < u32::MAX,
        ensures
            uid == old(self).spec_players().len(),
            final(self).spec_players() == old(self).spec_players().push(
                Player { x: 0, y: 0, radius: DEFAULT_RADIUS_BITS, uid },
            ),
            final(self).spec_food() == old(self).spec_food(),
            final(self).wf(),
    {
        let uid = self.cells.len() as u32;
        self.cells.push(Player { x: 0, y: 0, radius: DEFAULT_RADIUS_BITS, uid });
        uid
    }

    /// A point-in-time copy of the food list.
    pub fn snapshot_food(&self) -> (r: Vec<(u32, u32)>)
        ensures
            r@ == self.spec_food(),
    {
        let mut r: Vec<(u32, u32)> = Vec::new();
        let mut i: usize = 0;
        while i < self.food.len()
            invariant
                i <= self.food@.len(),
                r@ == self.food@.subrange(0, i as int),
            decreases self.food@.len() - i,
        {
            r.push(self.food[i]);
            assert(self.food@.subrange(0, i + 1) =~= self.food@.subrange(0, i as int).push(
                self.food@[i as int],
            ));
            i += 1;
        }
        assert(r@ =~= self.food@);
        r
    }

    /// A point-in-time copy of the player roster.
    pub fn snapshot_players(&self) -> (r: Vec<Player>)
        ensures
            r@ == self.spec_players(),
    {
        let mut r: Vec<Player> = Vec::new();
        let mut i: usize = 0;
        while i < self.cells.len()
            invariant
                i <= self.cells@.len(),
                r@ == self.cells@.subrange(0, i as int),
            decreases self.cells@.len() - i,
        {
            r.push(self.cells[i]);
            assert(self.cells@.subrange(0, i + 1) =~= self.cells@.subrange(0, i as int).push(
                self.cells@[i as int],
            ));
            i += 1;
        }
        assert(r@ =~= self.cells@);
        r
    }
}

/// Uid assignment law: in a well-formed roster, serially registered
/// players carry exactly the uids 0..k-1, in registration order.
pub proof fn lemma_uids_sequential(g: Game)
    requires
        g.wf(),
    ensures
        forall|i: int| 0 <= i < g.spec_players().len() ==> #[trigger] g.spec_players()[i].uid == i,
{
}

} // verus!
