//! Tests of the engine: initialization, the drag-session state machine, the
//! pointer-to-axis projection, and the derived accessors.

use split_layout::bounds::{to_axis_percentage, ContainerBounds};
use split_layout::engine::{ConfigurationError, SplitDirection, SplitEngine};

fn bounds(origin: i32, length: i32) -> ContainerBounds {
    ContainerBounds { origin_axis: origin, length_axis: length }
}

#[test]
fn initialize_refuses_a_single_pane() {
    let r = SplitEngine::initialize(1, SplitDirection::Row, None);
    assert_eq!(r.err(), Some(ConfigurationError::TooFewPanes));
}

#[test]
fn initialize_refuses_zero_panes() {
    let r = SplitEngine::initialize(0, SplitDirection::Row, None);
    assert_eq!(r.err(), Some(ConfigurationError::TooFewPanes));
}

#[test]
fn initialize_refuses_mismatched_initial_sizes() {
    let r = SplitEngine::initialize(3, SplitDirection::Row, Some(vec![5000]));
    assert_eq!(r.err(), Some(ConfigurationError::LengthMismatch));
}

#[test]
fn initialize_refuses_an_oversized_sum() {
    let r = SplitEngine::initialize(3, SplitDirection::Row, Some(vec![6000, 5000]));
    assert_eq!(r.err(), Some(ConfigurationError::InvalidPercentages));
}

#[test]
fn initialize_refuses_a_negative_size() {
    let r = SplitEngine::initialize(3, SplitDirection::Row, Some(vec![-1, 500]));
    assert_eq!(r.err(), Some(ConfigurationError::InvalidPercentages));
}

#[test]
fn initialize_defaults_to_an_equal_split() {
    let engine = SplitEngine::initialize(4, SplitDirection::Row, None).unwrap();
    assert_eq!(engine.current_percentages(), vec![2500, 2500, 2500]);
    let three = SplitEngine::initialize(3, SplitDirection::Row, None).unwrap();
    assert_eq!(three.current_percentages(), vec![3333, 3333]);
}

#[test]
fn initialize_keeps_given_sizes() {
    let engine =
        SplitEngine::initialize(3, SplitDirection::Column, Some(vec![2000, 7000])).unwrap();
    assert_eq!(engine.current_percentages(), vec![2000, 7000]);
    assert_eq!(engine.direction(), SplitDirection::Column);
}

#[test]
fn a_full_drag_gesture_updates_the_layout() {
    let mut engine = SplitEngine::initialize(3, SplitDirection::Row, None).unwrap();
    engine.on_pointer_down(0);
    // container from 0 to 1000 pixels; the pointer at x = 500 aims at 50.00
    engine.on_pointer_move(500, 0, bounds(0, 1000));
    assert_eq!(engine.current_percentages(), vec![5000, 1666]);
    engine.on_pointer_up();
    engine.on_pointer_move(100, 0, bounds(0, 1000));
    assert_eq!(engine.current_percentages(), vec![5000, 1666]);
}

#[test]
fn moves_without_a_session_are_noops() {
    let mut engine = SplitEngine::initialize(2, SplitDirection::Row, None).unwrap();
    engine.on_pointer_move(900, 0, bounds(0, 1000));
    assert_eq!(engine.current_percentages(), vec![5000]);
}

#[test]
fn degenerate_bounds_skip_the_update() {
    let mut engine = SplitEngine::initialize(2, SplitDirection::Row, None).unwrap();
    engine.on_pointer_down(0);
    engine.on_pointer_move(900, 0, bounds(0, 0));
    assert_eq!(engine.current_percentages(), vec![5000]);
}

#[test]
fn pointer_leave_ends_the_session() {
    let mut engine = SplitEngine::initialize(2, SplitDirection::Row, None).unwrap();
    engine.on_pointer_down(0);
    engine.on_pointer_leave();
    engine.on_pointer_move(900, 0, bounds(0, 1000));
    assert_eq!(engine.current_percentages(), vec![5000]);
}

#[test]
fn a_second_pointer_down_retargets_the_session() {
    let mut engine = SplitEngine::initialize(3, SplitDirection::Row, None).unwrap();
    engine.on_pointer_down(0);
    engine.on_pointer_down(1);
    engine.on_pointer_move(800, 0, bounds(0, 1000));
    // handle 1 was dragged to 80.00: its pane now spans 33.33..80.00
    assert_eq!(engine.current_percentages(), vec![3333, 4667]);
}

#[test]
fn a_pointer_down_on_no_handle_changes_nothing() {
    let mut engine = SplitEngine::initialize(3, SplitDirection::Row, None).unwrap();
    engine.on_pointer_down(7);
    engine.on_pointer_move(800, 0, bounds(0, 1000));
    assert_eq!(engine.current_percentages(), vec![3333, 3333]);
}

#[test]
fn column_splits_project_the_y_coordinate() {
    let mut engine = SplitEngine::initialize(2, SplitDirection::Column, None).unwrap();
    engine.on_pointer_down(0);
    engine.on_pointer_move(999, 250, bounds(0, 1000));
    assert_eq!(engine.current_percentages(), vec![2500]);
}

#[test]
fn row_splits_project_the_x_coordinate() {
    let mut engine = SplitEngine::initialize(2, SplitDirection::Row, None).unwrap();
    engine.on_pointer_down(0);
    engine.on_pointer_move(250, 999, bounds(0, 1000));
    assert_eq!(engine.current_percentages(), vec![2500]);
}

#[test]
fn out_of_container_moves_are_rejected_not_clamped() {
    let mut engine = SplitEngine::initialize(2, SplitDirection::Row, None).unwrap();
    engine.on_pointer_down(0);
    engine.on_pointer_move(1200, 0, bounds(0, 1000));
    assert_eq!(engine.current_percentages(), vec![5000]);
    engine.on_pointer_move(-40, 0, bounds(0, 1000));
    assert_eq!(engine.current_percentages(), vec![5000]);
}

#[test]
fn all_percentages_append_the_implicit_pane() {
    let engine = SplitEngine::initialize(3, SplitDirection::Row, None).unwrap();
    let all = engine.all_percentages();
    assert_eq!(all, vec![3333, 3333, 3334]);
    assert_eq!(all.iter().sum::<i64>(), 10000);
}

#[test]
fn all_percentages_sum_to_the_whole_after_a_drag() {
    let mut engine =
        SplitEngine::initialize(3, SplitDirection::Row, Some(vec![2000, 7000])).unwrap();
    assert_eq!(engine.all_percentages(), vec![2000, 7000, 1000]);
    engine.on_pointer_down(0);
    engine.on_pointer_move(250, 0, bounds(0, 1000));
    // a drag of a non-last handle leaves the implicit pane untouched
    assert_eq!(engine.all_percentages(), vec![2500, 6500, 1000]);
}

#[test]
fn handle_offsets_are_cumulative_sums() {
    let engine =
        SplitEngine::initialize(3, SplitDirection::Row, Some(vec![2000, 7000])).unwrap();
    assert_eq!(engine.handle_offset(0), 2000);
    assert_eq!(engine.handle_offset(1), 9000);
}

#[test]
fn counts_follow_the_pane_count() {
    let engine = SplitEngine::initialize(5, SplitDirection::Row, None).unwrap();
    assert_eq!(engine.pane_count(), 5);
    assert_eq!(engine.handle_count(), 4);
}

#[test]
fn the_default_direction_is_row() {
    assert_eq!(SplitDirection::default(), SplitDirection::Row);
}

#[test]
fn axis_projection_is_a_pure_ratio() {
    assert_eq!(to_axis_percentage(250, &bounds(0, 1000)), 2500);
    assert_eq!(to_axis_percentage(350, &bounds(100, 1000)), 2500);
    assert_eq!(to_axis_percentage(0, &bounds(0, 1000)), 0);
    assert_eq!(to_axis_percentage(1000, &bounds(0, 1000)), 10000);
}

#[test]
fn axis_projection_is_not_clamped() {
    assert_eq!(to_axis_percentage(1500, &bounds(0, 1000)), 15000);
    assert_eq!(to_axis_percentage(-100, &bounds(0, 1000)), -1000);
}

#[test]
fn axis_projection_truncates_toward_zero() {
    assert_eq!(to_axis_percentage(1, &bounds(0, 3)), 3333);
    assert_eq!(to_axis_percentage(-1, &bounds(0, 3)), -3333);
}
