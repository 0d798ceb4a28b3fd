use flycam::cursor::{cursor_grab, look_enabled, toggle_grab_cursor, CursorState};
use flycam::input::{Key, MouseButton};
use flycam::motion::{get_boost, move_intent, Boost, MoveIntent};

fn still() -> MoveIntent {
    MoveIntent { forward: 0, right: 0, up: 0, yaw: 0, pitch: 0, roll: 0 }
}

#[test]
fn boost_is_normal_with_no_keys() {
    assert_eq!(get_boost(&vec![]), Boost::Normal);
}

#[test]
fn boost_is_normal_with_movement_keys_only() {
    assert_eq!(get_boost(&vec![Key::W, Key::D, Key::Other]), Boost::Normal);
}

#[test]
fn left_shift_boosts() {
    assert_eq!(get_boost(&vec![Key::W, Key::LShift]), Boost::Fast);
}

#[test]
fn right_shift_does_not_boost() {
    assert_eq!(get_boost(&vec![Key::RShift]), Boost::Normal);
}

#[test]
fn o_slows_down() {
    assert_eq!(get_boost(&vec![Key::O, Key::A]), Boost::Slow);
}

#[test]
fn last_boost_key_wins() {
    assert_eq!(get_boost(&vec![Key::LShift, Key::W, Key::O]), Boost::Slow);
    assert_eq!(get_boost(&vec![Key::O, Key::LShift, Key::S]), Boost::Fast);
}

#[test]
fn no_keys_no_motion() {
    assert_eq!(move_intent(&vec![]), still());
}

#[test]
fn forward_and_strafe() {
    let m = move_intent(&vec![Key::W, Key::D]);
    assert_eq!(m, MoveIntent { forward: 1, right: 1, ..still() });
}

#[test]
fn arrows_match_letters() {
    assert_eq!(
        move_intent(&vec![Key::Up, Key::Left]),
        move_intent(&vec![Key::W, Key::A])
    );
    assert_eq!(
        move_intent(&vec![Key::Down, Key::Right]),
        MoveIntent { forward: -1, right: 1, ..still() }
    );
}

#[test]
fn opposite_keys_cancel() {
    assert_eq!(move_intent(&vec![Key::W, Key::S, Key::A, Key::D]), still());
    assert_eq!(move_intent(&vec![Key::Space, Key::Comma]), still());
}

#[test]
fn two_keys_on_one_side_add_up() {
    let m = move_intent(&vec![Key::W, Key::Up, Key::Space, Key::Period]);
    assert_eq!(m, MoveIntent { forward: 2, up: 2, ..still() });
}

#[test]
fn vertical_keys() {
    assert_eq!(move_intent(&vec![Key::RShift]), MoveIntent { up: -1, ..still() });
    assert_eq!(move_intent(&vec![Key::Period]), MoveIntent { up: 1, ..still() });
}

#[test]
fn turning_keys() {
    assert_eq!(move_intent(&vec![Key::Q]), MoveIntent { yaw: -1, ..still() });
    assert_eq!(move_intent(&vec![Key::E]), MoveIntent { yaw: 1, ..still() });
    assert_eq!(move_intent(&vec![Key::LBracket]), MoveIntent { pitch: -1, ..still() });
    assert_eq!(move_intent(&vec![Key::RBracket]), MoveIntent { pitch: 1, ..still() });
    assert_eq!(move_intent(&vec![Key::Z]), MoveIntent { roll: -1, ..still() });
    assert_eq!(move_intent(&vec![Key::X]), MoveIntent { roll: 1, ..still() });
}

#[test]
fn boost_and_other_keys_do_not_move() {
    assert_eq!(
        move_intent(&vec![Key::LShift, Key::O, Key::Escape, Key::Other]),
        still()
    );
}

#[test]
fn toggle_flips_lock_and_visibility() {
    let free = CursorState { locked: false, visible: true };
    let grabbed = CursorState { locked: true, visible: false };
    assert_eq!(toggle_grab_cursor(free), grabbed);
    assert_eq!(toggle_grab_cursor(grabbed), free);
    assert_eq!(toggle_grab_cursor(toggle_grab_cursor(free)), free);
}

#[test]
fn escape_toggles_grab() {
    let free = CursorState { locked: false, visible: true };
    let grabbed = CursorState { locked: true, visible: false };
    assert_eq!(cursor_grab(free, true), grabbed);
    assert_eq!(cursor_grab(grabbed, true), free);
}

#[test]
fn without_escape_grab_is_kept() {
    let free = CursorState { locked: false, visible: true };
    assert_eq!(cursor_grab(free, false), free);
}

#[test]
fn look_when_locked() {
    assert!(look_enabled(true, &vec![]));
}

#[test]
fn look_when_button_held() {
    assert!(look_enabled(false, &vec![MouseButton::Left]));
    assert!(look_enabled(false, &vec![MouseButton::Other, MouseButton::Right]));
}

#[test]
fn no_look_when_free_and_idle() {
    assert!(!look_enabled(false, &vec![]));
    assert!(!look_enabled(false, &vec![MouseButton::Other]));
}
