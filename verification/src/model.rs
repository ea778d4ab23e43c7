//! The validated domain model: per-turn world snapshot (acting bot record
//! with walls, food, shape, teammate and enemies) and the structured layout
//! used at bootstrap.  Every position held anywhere in these types lies
//! inside the grid, and the acting bot neither stands on a wall nor may move
//! onto one.

use vstd::prelude::*;

use crate::announce::Announcement;
use crate::announce::announce_spec;
use crate::geometry::Pos;
use crate::geometry::Shape;
use crate::geometry::all_in_bounds;
use crate::geometry::contains_pos;
use crate::geometry::pos_in_bounds;
use crate::walls::Walls;

verus! {

/// Partial record of the allied bot.
#[derive(Debug)]
pub struct OtherBot {
    pub position: Pos,
    pub initial_position: Pos,
    pub is_blue: bool,
    pub turn: usize,
    pub score: usize,
}

/// Partial record of one enemy bot.  When `is_noisy` is true the reported
/// `position` is only approximately accurate; the adapter passes it through
/// unmodified and never attempts a correction.
#[derive(Debug)]
pub struct EnemyBot {
    pub position: Pos,
    pub initial_position: Pos,
    pub is_noisy: bool,
    pub legal_positions: Vec<Pos>,
    pub food: Vec<Pos>,
    pub is_blue: bool,
    pub turn: usize,
    pub score: usize,
}

/// The acting bot's full record, which doubles as the per-turn world
/// snapshot: walls, food, shape and the other participants are carried
/// alongside the bot's own fields.
#[derive(Debug)]
pub struct Bot {
    pub position: Pos,
    pub initial_position: Pos,
    pub legal_positions: Vec<Pos>,
    pub walls: Walls,
    pub enemy: Vec<EnemyBot>,
    pub other: OtherBot,
    pub food: Vec<Pos>,
    pub shape: Shape,
    pub is_blue: bool,
    pub turn: usize,
    pub score: usize,
    pub round: usize,
    pub _say: Announcement,
}

/// A structured game layout, produced once at bootstrap.
#[derive(Debug)]
pub struct Layout {
    pub walls: Walls,
    pub food: Vec<Pos>,
    pub shape: Shape,
    pub bots: [Pos; 4],
}

/// Well-formedness of a teammate record against the grid shape.
pub open spec fn other_wf(o: OtherBot, shape: Shape) -> bool {
    &&& pos_in_bounds(o.position, shape)
    &&& pos_in_bounds(o.initial_position, shape)
}

/// Well-formedness of an enemy record against the grid shape.
pub open spec fn enemy_wf(e: EnemyBot, shape: Shape) -> bool {
    &&& pos_in_bounds(e.position, shape)
    &&& pos_in_bounds(e.initial_position, shape)
    &&& all_in_bounds(e.legal_positions@, shape)
    &&& all_in_bounds(e.food@, shape)
}

/// Well-formedness of a snapshot: the wall set holds no duplicates, every
/// position lies inside the grid, and the acting bot neither stands on a
/// wall nor is offered a wall as a legal destination.
pub open spec fn bot_wf(b: Bot) -> bool {
    &&& b.walls.wf()
    &&& pos_in_bounds(b.position, b.shape)
    &&& pos_in_bounds(b.initial_position, b.shape)
    &&& all_in_bounds(b.legal_positions@, b.shape)
    &&& all_in_bounds(b.food@, b.shape)
    &&& all_in_bounds(b.walls.cells_seq(), b.shape)
    &&& !b.walls@.contains(b.position)
    &&& forall|i: int|
        0 <= i < b.legal_positions@.len() ==> !b.walls@.contains(#[trigger] b.legal_positions@[i])
    &&& other_wf(b.other, b.shape)
    &&& forall|i: int| 0 <= i < b.enemy@.len() ==> enemy_wf(#[trigger] b.enemy@[i], b.shape)
}

/// Well-formedness of a layout: deduplicated walls and every position inside
/// the grid.
pub open spec fn layout_wf(l: Layout) -> bool {
    &&& l.walls.wf()
    &&& all_in_bounds(l.walls.cells_seq(), l.shape)
    &&& all_in_bounds(l.food@, l.shape)
    &&& all_in_bounds(l.bots@, l.shape)
}

impl Bot {
    /// Whether `p` is one of this turn's legal destinations.  The dispatcher
    /// itself trusts the decision routine's choice; a caller that prefers to
    /// validate-and-fail can do so through this test.
    pub fn is_legal(&self, p: Pos) -> (r: bool)
        ensures
            r == self.legal_positions@.contains(p),
    {
        contains_pos(&self.legal_positions, p)
    }

    /// Emits this turn's announcement.  Only the first call of a turn takes
    /// effect; later calls are silently discarded.  No other field of the
    /// snapshot changes.
    pub fn say(&mut self, text: &str)
        ensures
            final(self)._say@ == announce_spec(old(self)._say@, text@),
            final(self).position == old(self).position,
            final(self).initial_position == old(self).initial_position,
            final(self).legal_positions == old(self).legal_positions,
            final(self).walls == old(self).walls,
            final(self).enemy == old(self).enemy,
            final(self).other == old(self).other,
            final(self).food == old(self).food,
            final(self).shape == old(self).shape,
            final(self).is_blue == old(self).is_blue,
            final(self).turn == old(self).turn,
            final(self).score == old(self).score,
            final(self).round == old(self).round,
    {
        self._say.announce(text.to_string());
    }
}

} // verus!
