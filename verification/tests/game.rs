use bracket_lib::color::{BLACK, RGB, WHITE};
use brogue::entities::entity::EntityFuncs;
use brogue::state::{Action, Key, State, DEFAULT_COL_VAL, REGENERATE_SEED};
use brogue::util::Point;

fn shade(x: u32, y: u32) -> RGB {
    RGB::from_u8(10 * x as u8, 20 * y as u8, 7)
}

fn running_game() -> State {
    let mut state = State::new(10, 10, 42);
    state.map.generate(shade);
    state.player.set_pos(5, 5);
    state
}

fn position(state: &State) -> (i32, i32) {
    (state.player.x(), state.player.y())
}

#[test]
fn new_game_has_a_player_and_an_empty_map() {
    let state = State::new(80, 45, 7);
    assert_eq!((state.width, state.height), (80, 45));
    assert_eq!(position(&state), (0, 0));
    assert_eq!(state.player.char(), 'B');
    assert_eq!(state.player.fg_color(), RGB::named(WHITE));
    assert_eq!(state.player.bg_color(), RGB::named(BLACK));
    assert_eq!((state.map.width, state.map.height), (80, 45));
    assert_eq!(state.map.seed, 7);
    assert_eq!(state.map.col_val, 225);
    assert_eq!(DEFAULT_COL_VAL, 225);
    assert!(state.map.grid.is_empty());
}

#[test]
fn bounds_are_the_size_of_the_world() {
    assert_eq!(State::new(80, 45, 0).bounds(), Point::new(80, 45));
    assert_eq!(State::new(0, 0, 0).bounds(), Point::new(0, 0));
    assert_eq!(State::new(i32::MAX as u32, 1, 0).bounds(), Point::new(i32::MAX, 1));
}

#[test]
fn bounds_that_no_coordinate_can_hold_are_zero() {
    assert_eq!(State::new(i32::MAX as u32 + 1, 45, 0).bounds(), Point::new(0, 45));
    assert_eq!(State::new(80, u32::MAX, 0).bounds(), Point::new(80, 0));
}

#[test]
fn movement_keys_move_the_player_one_step() {
    let mut state = running_game();
    assert_eq!(state.handle_key(Some(Key::W)), Action::Continue);
    assert_eq!(position(&state), (5, 4));
    assert_eq!(state.handle_key(Some(Key::A)), Action::Continue);
    assert_eq!(position(&state), (4, 4));
    assert_eq!(state.handle_key(Some(Key::S)), Action::Continue);
    assert_eq!(position(&state), (4, 5));
    assert_eq!(state.handle_key(Some(Key::D)), Action::Continue);
    assert_eq!(position(&state), (5, 5));
}

#[test]
fn movement_stops_at_the_edge_of_the_world() {
    let mut state = running_game();
    for _ in 0..4 {
        state.handle_key(Some(Key::A));
    }
    assert_eq!(position(&state), (1, 5));
    for _ in 0..4 {
        state.handle_key(Some(Key::A));
    }
    assert_eq!(position(&state), (0, 5));
    for _ in 0..30 {
        state.handle_key(Some(Key::D));
        state.handle_key(Some(Key::S));
    }
    assert_eq!(position(&state), (9, 9));
    for _ in 0..30 {
        state.handle_key(Some(Key::W));
    }
    assert_eq!(position(&state), (9, 0));
}

#[test]
fn quit_keys_ask_to_quit_and_change_nothing() {
    let mut state = running_game();
    assert_eq!(state.handle_key(Some(Key::Q)), Action::Quit);
    assert_eq!(state.handle_key(Some(Key::Escape)), Action::Quit);
    assert_eq!(position(&state), (5, 5));
    assert_eq!(state.map.grid.len(), 10);
}

#[test]
fn space_asks_for_a_map_from_the_clock() {
    let mut state = running_game();
    assert_eq!(state.handle_key(Some(Key::Space)), Action::Regenerate(0));
    assert_eq!(state.handle_key(Some(Key::Space)), Action::Regenerate(REGENERATE_SEED));
    assert_eq!(position(&state), (5, 5));
    assert_eq!(state.map.get_cell(3, 4).fg, shade(3, 4));
}

#[test]
fn other_keys_and_no_key_do_nothing() {
    let mut state = running_game();
    assert_eq!(state.handle_key(Some(Key::Other)), Action::Continue);
    assert_eq!(state.handle_key(None), Action::Continue);
    assert_eq!(position(&state), (5, 5));
    assert_eq!((state.width, state.height), (10, 10));
}

#[test]
fn the_player_takes_the_colour_of_its_tile() {
    let mut state = running_game();
    state.highlight_player();
    assert_eq!(state.player.bg_color(), shade(5, 5));
    assert_eq!(state.player.fg_color(), RGB::named(WHITE));
    assert_eq!(state.player.char(), 'B');
    state.handle_key(Some(Key::D));
    state.handle_key(Some(Key::W));
    state.highlight_player();
    assert_eq!(position(&state), (6, 4));
    assert_eq!(state.player.bg_color(), shade(6, 4));
    assert_eq!(state.map.get_cell(6, 4).fg, shade(6, 4));
}

#[test]
fn a_world_too_wide_for_coordinates_pushes_the_player_out() {
    let mut state = State::new(u32::MAX, 10, 0);
    state.player.set_pos(5, 5);
    state.handle_key(Some(Key::S));
    // With a bound of 0 columns the last column is -1.
    assert_eq!(position(&state), (-1, 6));
    assert!(!state.map.contains(-1, 6));
}

#[test]
fn a_frame_after_every_key_finds_the_player_on_the_map() {
    let mut state = running_game();
    let keys = [Key::W, Key::A, Key::S, Key::D, Key::Q, Key::Escape, Key::Space, Key::Other];
    for round in 0..40 {
        let key = keys[(round * 7 + round / 3) % keys.len()];
        state.handle_key(Some(key));
        assert!(state.map.contains(state.player.x(), state.player.y()));
        state.highlight_player();
        let under = state.map.get_cell(state.player.x(), state.player.y());
        assert_eq!(state.player.bg_color(), under.fg);
        assert!(state.map.is_drawable());
        assert_eq!(state.map.draw().len(), 100);
    }
}
