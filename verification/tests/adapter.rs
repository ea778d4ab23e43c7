//! End-to-end tests of the snapshot adapter: wall deduplication, the
//! write-once announcement slot, session persistence across turns, fatal
//! extraction failures, and the full dispatch round trip.

use pelita_player::dispatch::Session;
use pelita_player::dispatch::handle_move;
use pelita_player::model::Bot;
use pelita_player::raw::ExtractError;
use pelita_player::raw::RawEnemy;
use pelita_player::raw::RawOther;
use pelita_player::raw::RawState;
use pelita_player::raw::build_bot;
use pelita_player::walls::Walls;

type P = (usize, usize);

fn raw_other(pos: P) -> RawOther {
    RawOther {
        position: Some(pos),
        initial_position: Some(pos),
        is_blue: Some(false),
        turn: Some(0),
        score: Some(0),
    }
}

fn raw_enemy(pos: P, noisy: bool) -> RawEnemy {
    RawEnemy {
        position: Some(pos),
        initial_position: Some(pos),
        is_noisy: Some(noisy),
        legal_positions: Some(vec![pos]),
        food: Some(vec![]),
        is_blue: Some(true),
        turn: Some(0),
        score: Some(0),
    }
}

/// The worked example: shape (3,3), walls {(0,0),(0,1)}, food [(2,2)],
/// acting bot at (1,1) with legal destinations [(1,1),(1,2)].
fn sample_raw() -> RawState {
    RawState {
        position: Some((1, 1)),
        initial_position: Some((1, 1)),
        legal_positions: Some(vec![(1, 1), (1, 2)]),
        walls: Some(vec![(0, 0), (0, 1)]),
        enemy: Some(vec![]),
        other: Some(raw_other((2, 0))),
        food: Some(vec![(2, 2)]),
        shape: Some((3, 3)),
        is_blue: Some(true),
        turn: Some(0),
        score: Some(0),
        round: Some(1),
    }
}

fn first_legal(bot: Bot, state: Option<u32>) -> (P, Bot, Option<u32>) {
    let p = bot.legal_positions[0];
    (p, bot, state)
}

fn count_up(bot: Bot, state: Option<u64>) -> (P, Bot, Option<u64>) {
    let n = state.unwrap_or(0) + 1;
    let p = bot.position;
    (p, bot, Some(n))
}

fn never_called(_bot: Bot, _state: Option<u64>) -> (P, Bot, Option<u64>) {
    unreachable!()
}

fn chatty(mut bot: Bot, state: Option<u32>) -> (P, Bot, Option<u32>) {
    bot.say("hello");
    bot.say("world");
    let p = bot.position;
    (p, bot, state)
}

#[test]
fn walls_dedup_and_membership() {
    let w = Walls::from_positions(vec![(0, 0), (0, 1), (0, 0), (0, 1), (2, 2)]);
    assert_eq!(w.len(), 3);
    assert!(w.contains((0, 0)));
    assert!(w.contains((0, 1)));
    assert!(w.contains((2, 2)));
    assert!(!w.contains((1, 1)));
    assert_eq!(w.positions(), &vec![(0, 0), (0, 1), (2, 2)]);
}

#[test]
fn snapshot_walls_are_deduplicated() {
    let mut raw = sample_raw();
    raw.walls = Some(vec![(0, 0), (0, 1), (0, 1), (0, 0), (0, 0)]);
    let bot = build_bot(raw).unwrap();
    assert_eq!(bot.walls.len(), 2);
    assert!(bot.walls.contains((0, 0)));
    assert!(bot.walls.contains((0, 1)));
    assert!(!bot.walls.contains((2, 2)));
}

#[test]
fn announcement_write_once() {
    let mut bot = build_bot(sample_raw()).unwrap();
    assert_eq!(bot._say.read(), "none");
    bot.say("a");
    bot.say("b");
    assert_eq!(bot._say.read(), "a");
}

#[test]
fn announcement_slot_fresh_each_turn() {
    let mut bot = build_bot(sample_raw()).unwrap();
    bot.say("left over");
    let next_bot = build_bot(sample_raw()).unwrap();
    assert_eq!(next_bot._say.read(), "none");
}

#[test]
fn session_counter_persists_across_turns() {
    let mut session: Session<u64> = Session::new();
    assert!(session.value.is_none());
    for expected in 1u64..=3 {
        let reply = handle_move(sample_raw(), &mut session, count_up).unwrap();
        assert_eq!(reply.position, (1, 1));
        assert_eq!(session.value, Some(expected));
    }
}

#[test]
fn extraction_failure_is_fatal_and_skips_routine() {
    let mut raw = sample_raw();
    raw.walls = None;
    let mut session: Session<u64> = Session::new();
    session.value = Some(7);
    let r = handle_move(raw, &mut session, never_called);
    assert_eq!(r.unwrap_err(), ExtractError::MissingField);
    assert_eq!(session.value, Some(7));
}

#[test]
fn round_trip_example() {
    let mut session: Session<u32> = Session::new();
    let reply = handle_move(sample_raw(), &mut session, first_legal).unwrap();
    assert_eq!(reply.position, (1, 1));
    assert_eq!(reply.announcement, None);
}

#[test]
fn announcement_travels_back_through_dispatch() {
    let mut session: Session<u32> = Session::new();
    let reply = handle_move(sample_raw(), &mut session, chatty).unwrap();
    assert_eq!(reply.announcement, Some(String::from("hello")));
}

#[test]
fn noisy_enemy_passes_through_unmodified() {
    let mut raw = sample_raw();
    raw.shape = Some((8, 8));
    raw.enemy = Some(vec![raw_enemy((5, 5), true), raw_enemy((6, 6), false)]);
    let bot = build_bot(raw).unwrap();
    assert_eq!(bot.enemy.len(), 2);
    assert!(bot.enemy[0].is_noisy);
    assert_eq!(bot.enemy[0].position, (5, 5));
    assert!(!bot.enemy[1].is_noisy);
    assert_eq!(bot.enemy[1].position, (6, 6));
}

#[test]
fn missing_nested_enemy_field_is_missing_field() {
    let mut raw = sample_raw();
    let mut enemy = raw_enemy((2, 2), false);
    enemy.is_noisy = None;
    raw.enemy = Some(vec![enemy]);
    let r = build_bot(raw);
    assert_eq!(r.unwrap_err(), ExtractError::MissingField);
}

#[test]
fn out_of_bounds_position_is_shape_mismatch() {
    let mut raw = sample_raw();
    raw.position = Some((5, 5));
    let r = build_bot(raw);
    assert_eq!(r.unwrap_err(), ExtractError::ShapeMismatch);
}

#[test]
fn acting_bot_on_wall_is_shape_mismatch() {
    let mut raw = sample_raw();
    raw.position = Some((0, 0));
    let r = build_bot(raw);
    assert_eq!(r.unwrap_err(), ExtractError::ShapeMismatch);
}

#[test]
fn wall_as_legal_destination_is_shape_mismatch() {
    let mut raw = sample_raw();
    raw.legal_positions = Some(vec![(1, 1), (0, 1)]);
    let r = build_bot(raw);
    assert_eq!(r.unwrap_err(), ExtractError::ShapeMismatch);
}

#[test]
fn legal_destination_test() {
    let bot = build_bot(sample_raw()).unwrap();
    assert!(bot.is_legal((1, 1)));
    assert!(bot.is_legal((1, 2)));
    assert!(!bot.is_legal((2, 2)));
}

#[test]
fn food_order_is_preserved() {
    let mut raw = sample_raw();
    raw.food = Some(vec![(2, 2), (1, 2), (2, 1)]);
    let bot = build_bot(raw).unwrap();
    assert_eq!(bot.food, vec![(2, 2), (1, 2), (2, 1)]);
}
