//! The untyped world description as the host hands it over, and its
//! validated conversion into the domain model.  Each field arrives
//! optionally: a missing or wrong-shaped field on the host side surfaces
//! here as an absent value and makes the whole extraction fail, since a
//! malformed snapshot means the trust boundary with the host is broken.

use vstd::prelude::*;

use crate::geometry::Pos;
use crate::geometry::Shape;
use crate::geometry::all_in_bounds;
use crate::geometry::check_all_in_bounds;
use crate::geometry::check_pos_in_bounds;
use crate::geometry::pos_in_bounds;
use crate::model::Bot;
use crate::model::EnemyBot;
use crate::model::Layout;
use crate::model::OtherBot;
use crate::model::bot_wf;
use crate::model::enemy_wf;
use crate::model::layout_wf;
use crate::walls::Walls;
use crate::walls::dedup_first;
use crate::walls::lemma_dedup_first_properties;
use crate::announce::Announcement;

verus! {

/// Why an extraction from the host failed.  Either kind is fatal: the turn
/// is aborted and no decision routine runs.
#[derive(Debug, Clone, Copy, PartialEq, Eq, Structural)]
pub enum ExtractError {
    /// A field the adapter needs is missing or could not be read in its
    /// expected shape.
    MissingField,
    /// All fields are present but the data breaks a documented snapshot
    /// invariant (a position outside the grid, the acting bot on a wall, a
    /// wall offered as a legal destination, a malformed bot list).
    ShapeMismatch,
}

/// The teammate record as the host supplies it.
pub struct RawOther {
    pub position: Option<Pos>,
    pub initial_position: Option<Pos>,
    pub is_blue: Option<bool>,
    pub turn: Option<usize>,
    pub score: Option<usize>,
}

/// One enemy record as the host supplies it.
pub struct RawEnemy {
    pub position: Option<Pos>,
    pub initial_position: Option<Pos>,
    pub is_noisy: Option<bool>,
    pub legal_positions: Option<Vec<Pos>>,
    pub food: Option<Vec<Pos>>,
    pub is_blue: Option<bool>,
    pub turn: Option<usize>,
    pub score: Option<usize>,
}

/// The whole per-turn world description as the host supplies it.
pub struct RawState {
    pub position: Option<Pos>,
    pub initial_position: Option<Pos>,
    pub legal_positions: Option<Vec<Pos>>,
    pub walls: Option<Vec<Pos>>,
    pub enemy: Option<Vec<RawEnemy>>,
    pub other: Option<RawOther>,
    pub food: Option<Vec<Pos>>,
    pub shape: Option<Shape>,
    pub is_blue: Option<bool>,
    pub turn: Option<usize>,
    pub score: Option<usize>,
    pub round: Option<usize>,
}

/// A bootstrap layout as the host supplies it.
pub struct RawLayout {
    pub walls: Option<Vec<Pos>>,
    pub food: Option<Vec<Pos>>,
    pub shape: Option<Shape>,
    pub bots: Option<Vec<Pos>>,
}

/// Every field of the teammate record is present.
pub open spec fn other_complete(o: RawOther) -> bool {
    &&& o.position is Some
    &&& o.initial_position is Some
    &&& o.is_blue is Some
    &&& o.turn is Some
    &&& o.score is Some
}

/// Every field of an enemy record is present.
pub open spec fn enemy_complete(e: RawEnemy) -> bool {
    &&& e.position is Some
    &&& e.initial_position is Some
    &&& e.is_noisy is Some
    &&& e.legal_positions is Some
    &&& e.food is Some
    &&& e.is_blue is Some
    &&& e.turn is Some
    &&& e.score is Some
}

/// Every field of the world description is present, nested records
/// included.
pub open spec fn state_complete(r: RawState) -> bool {
    &&& r.position is Some
    &&& r.initial_position is Some
    &&& r.legal_positions is Some
    &&& r.walls is Some
    &&& r.enemy is Some
    &&& (forall|i: int| 0 <= i < r.enemy->0@.len() ==> enemy_complete(#[trigger] r.enemy->0@[i]))
    &&& r.other is Some
    &&& other_complete(r.other->0)
    &&& r.food is Some
    &&& r.shape is Some
    &&& r.is_blue is Some
    &&& r.turn is Some
    &&& r.score is Some
    &&& r.round is Some
}

/// Every field of a layout is present.
pub open spec fn layout_complete(r: RawLayout) -> bool {
    &&& r.walls is Some
    &&& r.food is Some
    &&& r.shape is Some
    &&& r.bots is Some
}

/// The teammate's positions lie inside the grid.
pub open spec fn other_valid(o: RawOther, shape: Shape) -> bool {
    &&& pos_in_bounds(o.position->0, shape)
    &&& pos_in_bounds(o.initial_position->0, shape)
}

/// An enemy's positions lie inside the grid.
pub open spec fn enemy_valid(e: RawEnemy, shape: Shape) -> bool {
    &&& pos_in_bounds(e.position->0, shape)
    &&& pos_in_bounds(e.initial_position->0, shape)
    &&& all_in_bounds(e.legal_positions->0@, shape)
    &&& all_in_bounds(e.food->0@, shape)
}

/// A complete world description respects the documented snapshot
/// invariants: every position lies inside the grid, and the acting bot
/// neither stands on a wall nor is offered a wall as a legal destination.
pub open spec fn state_valid(r: RawState) -> bool
    recommends
        state_complete(r),
{
    let shape = r.shape->0;
    &&& pos_in_bounds(r.position->0, shape)
    &&& pos_in_bounds(r.initial_position->0, shape)
    &&& all_in_bounds(r.legal_positions->0@, shape)
    &&& all_in_bounds(r.walls->0@, shape)
    &&& all_in_bounds(r.food->0@, shape)
    &&& !r.walls->0@.contains(r.position->0)
    &&& (forall|i: int|
        0 <= i < r.legal_positions->0@.len() ==> !r.walls->0@.contains(
            #[trigger] r.legal_positions->0@[i],
        ))
    &&& other_valid(r.other->0, shape)
    &&& (forall|i: int| 0 <= i < r.enemy->0@.len() ==> enemy_valid(#[trigger] r.enemy->0@[i], shape))
}

/// A complete layout respects the documented invariants: exactly four
/// starting positions and every position inside the grid.
pub open spec fn layout_valid(r: RawLayout) -> bool
    recommends
        layout_complete(r),
{
    let shape = r.shape->0;
    &&& r.bots->0@.len() == 4
    &&& all_in_bounds(r.walls->0@, shape)
    &&& all_in_bounds(r.food->0@, shape)
    &&& all_in_bounds(r.bots->0@, shape)
}

/// The built teammate record carries exactly the host's values.
pub open spec fn other_matches(o: OtherBot, raw: RawOther) -> bool {
    &&& o.position == raw.position->0
    &&& o.initial_position == raw.initial_position->0
    &&& o.is_blue == raw.is_blue->0
    &&& o.turn == raw.turn->0
    &&& o.score == raw.score->0
}

/// The built enemy record carries exactly the host's values; in particular
/// the noise flag and the (possibly imprecise) position pass through
/// unmodified.
pub open spec fn enemy_matches(e: EnemyBot, raw: RawEnemy) -> bool {
    &&& e.position == raw.position->0
    &&& e.initial_position == raw.initial_position->0
    &&& e.is_noisy == raw.is_noisy->0
    &&& e.legal_positions@ == raw.legal_positions->0@
    &&& e.food@ == raw.food->0@
    &&& e.is_blue == raw.is_blue->0
    &&& e.turn == raw.turn->0
    &&& e.score == raw.score->0
}

/// The built snapshot carries exactly the host's values: walls become the
/// set of distinct wall positions, food keeps its order, every bot record
/// passes through field by field, and the announcement slot starts empty.
pub open spec fn bot_matches(b: Bot, raw: RawState) -> bool {
    &&& b.position == raw.position->0
    &&& b.initial_position == raw.initial_position->0
    &&& b.legal_positions@ == raw.legal_positions->0@
    &&& b.walls.cells_seq() == dedup_first(raw.walls->0@)
    &&& b.walls@ == raw.walls->0@.to_set()
    &&& b.enemy@.len() == raw.enemy->0@.len()
    &&& (forall|i: int|
        0 <= i < raw.enemy->0@.len() ==> enemy_matches(#[trigger] b.enemy@[i], raw.enemy->0@[i]))
    &&& other_matches(b.other, raw.other->0)
    &&& b.food@ == raw.food->0@
    &&& b.shape == raw.shape->0
    &&& b.is_blue == raw.is_blue->0
    &&& b.turn == raw.turn->0
    &&& b.score == raw.score->0
    &&& b.round == raw.round->0
    &&& b._say@ is None
}

/// The built layout carries exactly the host's values, walls deduplicated
/// and food order kept.
pub open spec fn layout_matches(l: Layout, raw: RawLayout) -> bool {
    &&& l.walls.cells_seq() == dedup_first(raw.walls->0@)
    &&& l.walls@ == raw.walls->0@.to_set()
    &&& l.food@ == raw.food->0@
    &&& l.shape == raw.shape->0
    &&& l.bots@ == raw.bots->0@
}

/// Builds the teammate record, failing on any absent field.
pub fn build_other(raw: RawOther) -> (r: Result<OtherBot, ExtractError>)
    ensures
        r is Ok <==> other_complete(raw),
        r is Err ==> r->Err_0 == ExtractError::MissingField,
        r is Ok ==> other_matches(r->Ok_0, raw),
{
    let RawOther { position, initial_position, is_blue, turn, score } = raw;
    let position = match position {
        Some(v) => v,
        None => return Err(ExtractError::MissingField),
    };
    let initial_position = match initial_position {
        Some(v) => v,
        None => return Err(ExtractError::MissingField),
    };
    let is_blue = match is_blue {
        Some(v) => v,
        None => return Err(ExtractError::MissingField),
    };
    let turn = match turn {
        Some(v) => v,
        None => return Err(ExtractError::MissingField),
    };
    let score = match score {
        Some(v) => v,
        None => return Err(ExtractError::MissingField),
    };
    Ok(OtherBot { position, initial_position, is_blue, turn, score })
}

/// Builds one enemy record, failing on any absent field.
pub fn build_enemy(raw: RawEnemy) -> (r: Result<EnemyBot, ExtractError>)
    ensures
        r is Ok <==> enemy_complete(raw),
        r is Err ==> r->Err_0 == ExtractError::MissingField,
        r is Ok ==> enemy_matches(r->Ok_0, raw),
{
    let RawEnemy { position, initial_position, is_noisy, legal_positions, food, is_blue, turn, score } =
        raw;
    let position = match position {
        Some(v) => v,
        None => return Err(ExtractError::MissingField),
    };
    let initial_position = match initial_position {
        Some(v) => v,
        None => return Err(ExtractError::MissingField),
    };
    let is_noisy = match is_noisy {
        Some(v) => v,
        None => return Err(ExtractError::MissingField),
    };
    let legal_positions = match legal_positions {
        Some(v) => v,
        None => return Err(ExtractError::MissingField),
    };
    let food = match food {
        Some(v) => v,
        None => return Err(ExtractError::MissingField),
    };
    let is_blue = match is_blue {
        Some(v) => v,
        None => return Err(ExtractError::MissingField),
    };
    let turn = match turn {
        Some(v) => v,
        None => return Err(ExtractError::MissingField),
    };
    let score = match score {
        Some(v) => v,
        None => return Err(ExtractError::MissingField),
    };
    Ok(EnemyBot { position, initial_position, is_noisy, legal_positions, food, is_blue, turn, score })
}

/// Builds every enemy record of the host's list, in order, failing if any
/// record has an absent field.
pub fn build_enemies(list: Vec<RawEnemy>) -> (r: Result<Vec<EnemyBot>, ExtractError>)
    ensures
        r is Ok <==> (forall|i: int| 0 <= i < list@.len() ==> enemy_complete(#[trigger] list@[i])),
        r is Err ==> r->Err_0 == ExtractError::MissingField,
        r is Ok ==> r->Ok_0@.len() == list@.len() && (forall|i: int|
            0 <= i < list@.len() ==> enemy_matches(#[trigger] r->Ok_0@[i], list@[i])),
{
    let mut out: Vec<EnemyBot> = Vec::new();
    let mut rest = list;
    while rest.len() > 0
        invariant
            out@.len() + rest@.len() == list@.len(),
            rest@ == list@.skip(out@.len() as int),
            forall|j: int|
                0 <= j < out@.len() ==> enemy_complete(#[trigger] list@[j]) && enemy_matches(
                    out@[j],
                    list@[j],
                ),
        decreases rest@.len(),
    {
        let ghost k = out@.len() as int;
        let e = rest.remove(0);
        proof {
            assert(e == list@[k]);
            assert(rest@ =~= list@.skip(k + 1));
        }
        match build_enemy(e) {
            Ok(b) => {
                out.push(b);
            },
            Err(err) => {
                assert(!enemy_complete(list@[k]));
                return Err(err);
            },
        }
    }
    proof {
        assert(out@.len() == list@.len());
    }
    Ok(out)
}

/// Builds the validated per-turn snapshot from the host's world
/// description.  Fails with `MissingField` if any field is absent, and with
/// `ShapeMismatch` if the data breaks a documented snapshot invariant; the
/// result is well-formed and carries the host's values exactly.
pub fn build_bot(raw: RawState) -> (r: Result<Bot, ExtractError>)
    ensures
        r is Ok <==> state_complete(raw) && state_valid(raw),
        !state_complete(raw) ==> r == Err::<Bot, ExtractError>(ExtractError::MissingField),
        state_complete(raw) && !state_valid(raw) ==> r == Err::<Bot, ExtractError>(
            ExtractError::ShapeMismatch,
        ),
        r is Ok ==> bot_matches(r->Ok_0, raw) && bot_wf(r->Ok_0),
{
    let RawState {
        position,
        initial_position,
        legal_positions,
        walls,
        enemy,
        other,
        food,
        shape,
        is_blue,
        turn,
        score,
        round,
    } = raw;
    let position = match position {
        Some(v) => v,
        None => return Err(ExtractError::MissingField),
    };
    let initial_position = match initial_position {
        Some(v) => v,
        None => return Err(ExtractError::MissingField),
    };
    let legal_positions = match legal_positions {
        Some(v) => v,
        None => return Err(ExtractError::MissingField),
    };
    let walls = match walls {
        Some(v) => v,
        None => return Err(ExtractError::MissingField),
    };
    let enemy = match enemy {
        Some(v) => v,
        None => return Err(ExtractError::MissingField),
    };
    let other = match other {
        Some(v) => v,
        None => return Err(ExtractError::MissingField),
    };
    let food = match food {
        Some(v) => v,
        None => return Err(ExtractError::MissingField),
    };
    let shape = match shape {
        Some(v) => v,
        None => return Err(ExtractError::MissingField),
    };
    let is_blue = match is_blue {
        Some(v) => v,
        None => return Err(ExtractError::MissingField),
    };
    let turn = match turn {
        Some(v) => v,
        None => return Err(ExtractError::MissingField),
    };
    let score = match score {
        Some(v) => v,
        None => return Err(ExtractError::MissingField),
    };
    let round = match round {
        Some(v) => v,
        None => return Err(ExtractError::MissingField),
    };
    let other = match build_other(other) {
        Ok(o) => o,
        Err(err) => return Err(err),
    };
    let enemy = match build_enemies(enemy) {
        Ok(l) => l,
        Err(err) => return Err(err),
    };
    assert(state_complete(raw));

    if !check_pos_in_bounds(position, shape) {
        return Err(ExtractError::ShapeMismatch);
    }
    if !check_pos_in_bounds(initial_position, shape) {
        return Err(ExtractError::ShapeMismatch);
    }
    if !check_all_in_bounds(&legal_positions, shape) {
        return Err(ExtractError::ShapeMismatch);
    }
    if !check_all_in_bounds(&walls, shape) {
        return Err(ExtractError::ShapeMismatch);
    }
    if !check_all_in_bounds(&food, shape) {
        return Err(ExtractError::ShapeMismatch);
    }
    if !check_pos_in_bounds(other.position, shape) {
        return Err(ExtractError::ShapeMismatch);
    }
    if !check_pos_in_bounds(other.initial_position, shape) {
        return Err(ExtractError::ShapeMismatch);
    }
    if !check_enemies_in_bounds(&enemy, shape) {
        proof {
            let i = choose|i: int| 0 <= i < enemy@.len() && !enemy_wf(enemy@[i], shape);
            assert(!enemy_valid(raw.enemy->0@[i], shape));
        }
        return Err(ExtractError::ShapeMismatch);
    }
    proof {
        assert forall|i: int| 0 <= i < raw.enemy->0@.len() implies enemy_valid(
            #[trigger] raw.enemy->0@[i],
            shape,
        ) by {
            assert(enemy_wf(enemy@[i], shape));
        };
    }

    let ghost wall_seq = walls@;
    let wallset = Walls::from_positions(walls);
    if wallset.contains(position) {
        return Err(ExtractError::ShapeMismatch);
    }
    if !check_legal_off_walls(&legal_positions, &wallset) {
        return Err(ExtractError::ShapeMismatch);
    }
    proof {
        lemma_dedup_first_in_bounds(wall_seq, shape);
    }

    let bot = Bot {
        position,
        initial_position,
        legal_positions,
        walls: wallset,
        enemy,
        other,
        food,
        shape,
        is_blue,
        turn,
        score,
        round,
        _say: Announcement::new(),
    };
    assert(state_valid(raw));
    assert(bot_matches(bot, raw));
    assert(bot_wf(bot));
    Ok(bot)
}

/// Builds the validated bootstrap layout from the host's layout fields.
/// Fails with `MissingField` if any field is absent, and with
/// `ShapeMismatch` if the data breaks a documented invariant.
pub fn build_layout(raw: RawLayout) -> (r: Result<Layout, ExtractError>)
    ensures
        r is Ok <==> layout_complete(raw) && layout_valid(raw),
        !layout_complete(raw) ==> r == Err::<Layout, ExtractError>(ExtractError::MissingField),
        layout_complete(raw) && !layout_valid(raw) ==> r == Err::<Layout, ExtractError>(
            ExtractError::ShapeMismatch,
        ),
        r is Ok ==> layout_matches(r->Ok_0, raw) && layout_wf(r->Ok_0),
{
    let RawLayout { walls, food, shape, bots } = raw;
    let walls = match walls {
        Some(v) => v,
        None => return Err(ExtractError::MissingField),
    };
    let food = match food {
        Some(v) => v,
        None => return Err(ExtractError::MissingField),
    };
    let shape = match shape {
        Some(v) => v,
        None => return Err(ExtractError::MissingField),
    };
    let bots = match bots {
        Some(v) => v,
        None => return Err(ExtractError::MissingField),
    };
    assert(layout_complete(raw));

    if bots.len() != 4 {
        return Err(ExtractError::ShapeMismatch);
    }
    if !check_all_in_bounds(&walls, shape) {
        return Err(ExtractError::ShapeMismatch);
    }
    if !check_all_in_bounds(&food, shape) {
        return Err(ExtractError::ShapeMismatch);
    }
    if !check_all_in_bounds(&bots, shape) {
        return Err(ExtractError::ShapeMismatch);
    }

    let bots_arr: [Pos; 4] = [bots[0], bots[1], bots[2], bots[3]];
    proof {
        assert(bots_arr@ =~= raw.bots->0@);
    }
    let ghost wall_seq = walls@;
    let wallset = Walls::from_positions(walls);
    proof {
        lemma_dedup_first_in_bounds(wall_seq, shape);
    }
    let layout = Layout { walls: wallset, food, shape, bots: bots_arr };
    assert(layout_valid(raw));
    assert(layout_matches(layout, raw));
    assert(layout_wf(layout));
    Ok(layout)
}

/// Bounds test over every built enemy record.
fn check_enemies_in_bounds(enemies: &Vec<EnemyBot>, shape: Shape) -> (r: bool)
    ensures
        r == (forall|i: int| 0 <= i < enemies@.len() ==> enemy_wf(#[trigger] enemies@[i], shape)),
{
    let mut i: usize = 0;
    while i < enemies.len()
        invariant
            0 <= i <= enemies@.len(),
            forall|j: int| 0 <= j < i ==> enemy_wf(#[trigger] enemies@[j], shape),
        decreases enemies@.len() - i,
    {
        let e = &enemies[i];
        let ok = check_pos_in_bounds(e.position, shape) && check_pos_in_bounds(
            e.initial_position,
            shape,
        ) && check_all_in_bounds(&e.legal_positions, shape) && check_all_in_bounds(&e.food, shape);
        if !ok {
            assert(!enemy_wf(enemies@[i as int], shape));
            return false;
        }
        i += 1;
    }
    true
}

/// Tests that no legal destination is a wall.
fn check_legal_off_walls(legal: &Vec<Pos>, walls: &Walls) -> (r: bool)
    ensures
        r == (forall|i: int| 0 <= i < legal@.len() ==> !walls@.contains(#[trigger] legal@[i])),
{
    let mut i: usize = 0;
    while i < legal.len()
        invariant
            0 <= i <= legal@.len(),
            forall|j: int| 0 <= j < i ==> !walls@.contains(#[trigger] legal@[j]),
        decreases legal@.len() - i,
    {
        if walls.contains(legal[i]) {
            return false;
        }
        i += 1;
    }
    true
}

/// Elements kept by deduplication keep their bounds: they all occur in the
/// original sequence.
proof fn lemma_dedup_first_in_bounds(s: Seq<Pos>, shape: Shape)
    requires
        all_in_bounds(s, shape),
    ensures
        all_in_bounds(dedup_first(s), shape),
{
    let d = dedup_first(s);
    lemma_dedup_first_properties(s);
    assert forall|i: int| 0 <= i < d.len() implies pos_in_bounds(#[trigger] d[i], shape) by {
        assert(d.contains(d[i]));
        assert(s.contains(d[i]));
        let j = choose|j: int| 0 <= j < s.len() && s[j] == d[i];
        assert(pos_in_bounds(s[j], shape));
    };
}

} // verus!
