use libplen::constants::QUARTER_TURN;
use libplen::debug::DebugLine;
use libplen::gamestate::GameState;
use libplen::math::vec2;

#[test]
fn debug_line_is_white_unless_coloured() {
    let line = DebugLine::new(vec2(1, 2), vec2(3, 4));
    assert_eq!((line.start, line.end), (vec2(1, 2), vec2(3, 4)));
    assert_eq!(line.color, (255, 255, 255, 255));
    assert_eq!(line.rgb(1, 2, 3).color, (1, 2, 3, 255));
    assert_eq!(line.rgba(1, 2, 3, 4).color, (1, 2, 3, 4));
    assert_eq!(line.rgba(1, 2, 3, 4).end, vec2(3, 4));
}

#[test]
fn debug_line_from_angle_ends_along_the_angle() {
    let line = DebugLine::from_angle(vec2(10, 20), QUARTER_TURN, 500);
    assert_eq!(line.start, vec2(10, 20));
    assert_eq!(line.end, vec2(10, 520));
    let back = DebugLine::from_angle(vec2(10, 20), 0, -500);
    assert_eq!(back.end, vec2(-490, 20));
}

#[test]
fn debug_lines_of_the_tick_replace_the_old_ones() {
    let mut state = GameState::new();
    assert!(state.debug_lines.is_empty());
    state.update_debug_lines(vec![
        DebugLine::new(vec2(1, 2), vec2(3, 4)),
        DebugLine::new(vec2(5, 6), vec2(7, 8)),
    ]);
    assert_eq!(state.debug_lines.len(), 2);
    state.update_debug_lines(vec![DebugLine::new(vec2(9, 9), vec2(9, 9))]);
    assert_eq!(state.debug_lines.len(), 1);
    assert_eq!(state.debug_lines[0].start, vec2(9, 9));
    state.update_debug_lines(vec![]);
    assert!(state.debug_lines.is_empty());
}
