use game_engine::engine::on_game::{CursorGrab, CursorState, InGameScreenSceneWorkflow};

fn free() -> CursorState {
    CursorState { visible: true, grab_mode: CursorGrab::Free }
}

fn locked() -> CursorState {
    CursorState { visible: false, grab_mode: CursorGrab::Locked }
}

#[test]
fn left_click_hides_and_locks_cursor() {
    let mut cursor = free();
    InGameScreenSceneWorkflow::draw_cursor(&mut cursor, false, true);
    assert_eq!(cursor, locked());
}

#[test]
fn escape_shows_and_frees_cursor() {
    let mut cursor = locked();
    InGameScreenSceneWorkflow::draw_cursor(&mut cursor, true, false);
    assert_eq!(cursor, free());
}

#[test]
fn click_wins_over_escape_in_same_frame() {
    let mut cursor = free();
    InGameScreenSceneWorkflow::draw_cursor(&mut cursor, true, true);
    assert_eq!(cursor, locked());
}

#[test]
fn no_input_keeps_confined_cursor() {
    let mut cursor = CursorState { visible: true, grab_mode: CursorGrab::Confined };
    InGameScreenSceneWorkflow::draw_cursor(&mut cursor, false, false);
    assert_eq!(cursor, CursorState { visible: true, grab_mode: CursorGrab::Confined });
}

#[test]
fn same_input_twice_changes_nothing_more() {
    let mut once = CursorState { visible: true, grab_mode: CursorGrab::Confined };
    InGameScreenSceneWorkflow::draw_cursor(&mut once, true, false);
    let mut twice = once;
    InGameScreenSceneWorkflow::draw_cursor(&mut twice, true, false);
    assert_eq!(once, twice);
}
