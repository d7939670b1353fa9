use emerald_core::input::{
    button_code, InputEngine, MouseButton, Position, PressSet, Touch, TouchPhase, MOUSE_TOUCH_ID,
};

#[test]
fn press_repeat_rollover_release() {
    let mut i = InputEngine::new();
    i.set_key_down(7, false);
    assert!(i.is_key_down(7));
    assert!(i.is_key_just_pressed(7));
    i.update_and_rollover();
    i.set_key_down(7, true);
    assert!(!i.is_key_just_pressed(7));
    assert!(i.is_key_down(7));
    i.set_key_down(8, false);
    i.set_key_up(8);
    assert!(i.is_key_down(7));
    i.set_key_up(7);
    assert!(!i.is_key_down(7));
    assert!(i.is_key_just_released(7));
    i.update_and_rollover();
    assert!(!i.is_key_just_released(7));
}

#[test]
fn repeat_before_rollover_does_not_press_again() {
    let mut i = InputEngine::new();
    i.set_key_down(3, false);
    i.set_key_down(3, true);
    assert!(i.is_key_just_pressed(3));
    i.update_and_rollover();
    assert!(!i.is_key_just_pressed(3));
    assert!(i.is_key_down(3));
    i.set_key_down(3, true);
    assert!(!i.is_key_just_pressed(3));
}

#[test]
fn press_set_channel() {
    let mut p = PressSet::new();
    p.press(1);
    assert!(p.is_down(1) && p.is_pressed(1) && !p.is_released(1));
    p.release(1);
    assert!(!p.is_down(1) && p.is_pressed(1) && p.is_released(1));
    p.rollover();
    assert!(!p.is_pressed(1) && !p.is_released(1));
}

#[test]
fn mouse_buttons_and_position() {
    let mut i = InputEngine::new();
    assert_eq!(i.mouse_position(), Position { x: 0, y: 0 });
    i.set_mouse_down(MouseButton::Right, 10, 20);
    assert!(i.is_mouse_down(MouseButton::Right));
    assert!(i.is_mouse_just_pressed(MouseButton::Right));
    assert!(!i.is_mouse_down(MouseButton::Left));
    assert_eq!(i.mouse_position(), Position { x: 10, y: 20 });
    i.set_mouse_translation(11, 21);
    assert_eq!(i.mouse_position(), Position { x: 11, y: 21 });
    i.set_mouse_up(MouseButton::Right, 12, 22);
    assert!(!i.is_mouse_down(MouseButton::Right));
    assert!(i.is_mouse_just_released(MouseButton::Right));
    assert_eq!(i.touch(MOUSE_TOUCH_ID), None);
    assert_eq!(button_code(MouseButton::Middle), 2);
}

#[test]
fn touch_start_mirrored_as_mouse_down() {
    let mut i = InputEngine::new();
    i.set_touches_to_mouse(true);
    i.touch_event(TouchPhase::Started, 4, 30, 40);
    assert_eq!(i.mouse_position(), Position { x: 30, y: 40 });
    assert!(i.is_mouse_down(MouseButton::Left));
    assert!(i.is_mouse_just_pressed(MouseButton::Left));
    i.touch_event(TouchPhase::Moved, 4, 31, 41);
    assert_eq!(i.mouse_position(), Position { x: 31, y: 41 });
    i.touch_event(TouchPhase::Ended, 4, 32, 42);
    assert!(!i.is_mouse_down(MouseButton::Left));
    assert!(i.is_mouse_just_released(MouseButton::Left));
    assert_eq!(
        i.touch(4),
        Some(Touch { position: Position { x: 32, y: 42 }, phase: TouchPhase::Ended })
    );
}

#[test]
fn touches_not_mirrored_by_default() {
    let mut i = InputEngine::new();
    i.touch_event(TouchPhase::Started, 1, 5, 6);
    assert!(!i.is_mouse_down(MouseButton::Left));
    assert_eq!(i.mouse_position(), Position { x: 0, y: 0 });
    assert_eq!(
        i.touch(1),
        Some(Touch { position: Position { x: 5, y: 6 }, phase: TouchPhase::Started })
    );
    assert_eq!(i.touch(2), None);
}

#[test]
fn left_click_mirrored_as_touch() {
    let mut i = InputEngine::new();
    i.set_mouse_to_touch(true);
    i.set_mouse_down(MouseButton::Left, 1, 2);
    assert_eq!(
        i.touch(MOUSE_TOUCH_ID),
        Some(Touch { position: Position { x: 1, y: 2 }, phase: TouchPhase::Started })
    );
    i.set_mouse_translation(3, 4);
    assert_eq!(
        i.touch(MOUSE_TOUCH_ID),
        Some(Touch { position: Position { x: 3, y: 4 }, phase: TouchPhase::Moved })
    );
    i.set_mouse_up(MouseButton::Left, 5, 6);
    assert_eq!(
        i.touch(MOUSE_TOUCH_ID),
        Some(Touch { position: Position { x: 5, y: 6 }, phase: TouchPhase::Ended })
    );
    i.set_mouse_translation(7, 7);
    assert_eq!(
        i.touch(MOUSE_TOUCH_ID),
        Some(Touch { position: Position { x: 5, y: 6 }, phase: TouchPhase::Ended })
    );
}

#[test]
fn every_button_mirrored_as_touch() {
    let mut i = InputEngine::new();
    i.set_mouse_to_touch(true);
    i.set_mouse_down(MouseButton::Right, 9, 9);
    assert_eq!(
        i.touch(MOUSE_TOUCH_ID),
        Some(Touch { position: Position { x: 9, y: 9 }, phase: TouchPhase::Started })
    );
    i.set_mouse_translation(10, 11);
    assert_eq!(
        i.touch(MOUSE_TOUCH_ID),
        Some(Touch { position: Position { x: 10, y: 11 }, phase: TouchPhase::Moved })
    );
    i.set_mouse_up(MouseButton::Right, 12, 13);
    assert_eq!(
        i.touch(MOUSE_TOUCH_ID),
        Some(Touch { position: Position { x: 12, y: 13 }, phase: TouchPhase::Ended })
    );
    i.set_mouse_down(MouseButton::Middle, 1, 1);
    assert_eq!(
        i.touch(MOUSE_TOUCH_ID),
        Some(Touch { position: Position { x: 1, y: 1 }, phase: TouchPhase::Started })
    );
}
