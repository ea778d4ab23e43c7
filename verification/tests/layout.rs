//! Tests of the bootstrap layout builder: deduplication, field shapes, and
//! the two failure kinds.

use pelita_player::raw::ExtractError;
use pelita_player::raw::RawLayout;
use pelita_player::raw::build_layout;

fn sample_layout() -> RawLayout {
    RawLayout {
        walls: Some(vec![(0, 0), (0, 1), (0, 0), (3, 3)]),
        food: Some(vec![(1, 1), (2, 2)]),
        shape: Some((4, 4)),
        bots: Some(vec![(1, 0), (2, 0), (1, 3), (2, 3)]),
    }
}

#[test]
fn layout_builds_with_deduplicated_walls() {
    let layout = build_layout(sample_layout()).unwrap();
    assert_eq!(layout.shape, (4, 4));
    assert_eq!(layout.walls.len(), 3);
    assert!(layout.walls.contains((0, 0)));
    assert!(layout.walls.contains((3, 3)));
    assert!(!layout.walls.contains((1, 1)));
    assert_eq!(layout.food, vec![(1, 1), (2, 2)]);
    assert_eq!(layout.bots, [(1, 0), (2, 0), (1, 3), (2, 3)]);
}

#[test]
fn layout_missing_food_is_missing_field() {
    let mut raw = sample_layout();
    raw.food = None;
    let r = build_layout(raw);
    assert_eq!(r.unwrap_err(), ExtractError::MissingField);
}

#[test]
fn layout_wrong_bot_count_is_shape_mismatch() {
    let mut raw = sample_layout();
    raw.bots = Some(vec![(1, 0), (2, 0)]);
    let r = build_layout(raw);
    assert_eq!(r.unwrap_err(), ExtractError::ShapeMismatch);
}

#[test]
fn layout_out_of_bounds_wall_is_shape_mismatch() {
    let mut raw = sample_layout();
    raw.walls = Some(vec![(0, 0), (9, 9)]);
    let r = build_layout(raw);
    assert_eq!(r.unwrap_err(), ExtractError::ShapeMismatch);
}
