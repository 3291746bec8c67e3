use rigged_character::controls::{
    keyboard_direction, pointer_source, press_action, ActionButton, MovementKeys, PointerSource,
    StepDirection,
};

fn keys() -> MovementKeys {
    MovementKeys { w: false, s: false, a: false, d: false, up: false, down: false, left: false, right: false }
}

#[test]
fn cross_jumps_only_from_ground() {
    let o = press_action(ActionButton::Cross, true);
    assert!(o.jump);
    assert_eq!(o.message, "Jump / Accept");
    let o = press_action(ActionButton::Cross, false);
    assert!(!o.jump);
    assert_eq!(o.message, "Jump / Accept");
}

#[test]
fn other_buttons_report_only() {
    for grounded in [true, false] {
        let o = press_action(ActionButton::Square, grounded);
        assert!(!o.jump);
        assert_eq!(o.message, "Attack! (Sword swing)");
        let o = press_action(ActionButton::Circle, grounded);
        assert!(!o.jump);
        assert_eq!(o.message, "Dodge roll / Cancel!");
        let o = press_action(ActionButton::Triangle, grounded);
        assert!(!o.jump);
        assert_eq!(o.message, "Open Inventory / Spell menu!");
    }
}

#[test]
fn keyboard_steps() {
    assert_eq!(keyboard_direction(keys()), StepDirection { x: 0, z: 0 });
    assert_eq!(keyboard_direction(MovementKeys { w: true, ..keys() }), StepDirection { x: 0, z: -1 });
    assert_eq!(keyboard_direction(MovementKeys { up: true, ..keys() }), StepDirection { x: 0, z: -1 });
    assert_eq!(keyboard_direction(MovementKeys { s: true, ..keys() }), StepDirection { x: 0, z: 1 });
    assert_eq!(keyboard_direction(MovementKeys { a: true, ..keys() }), StepDirection { x: -1, z: 0 });
    assert_eq!(keyboard_direction(MovementKeys { right: true, ..keys() }), StepDirection { x: 1, z: 0 });
    assert_eq!(keyboard_direction(MovementKeys { w: true, d: true, ..keys() }), StepDirection { x: 1, z: -1 });
}

#[test]
fn opposite_keys_cancel() {
    assert_eq!(keyboard_direction(MovementKeys { w: true, down: true, ..keys() }), StepDirection { x: 0, z: 0 });
    assert_eq!(keyboard_direction(MovementKeys { left: true, d: true, ..keys() }), StepDirection { x: 0, z: 0 });
    // Both keys of one direction still step once.
    assert_eq!(keyboard_direction(MovementKeys { w: true, up: true, ..keys() }), StepDirection { x: 0, z: -1 });
}

#[test]
fn touch_takes_precedence() {
    assert_eq!(pointer_source(Some(true), true, Some(true)), PointerSource::Touch);
    assert_eq!(pointer_source(Some(false), true, Some(true)), PointerSource::Released);
    assert_eq!(pointer_source(Some(true), false, None), PointerSource::Touch);
}

#[test]
fn mouse_drives_only_on_left_half() {
    assert_eq!(pointer_source(None, true, Some(true)), PointerSource::Cursor);
    assert_eq!(pointer_source(None, true, Some(false)), PointerSource::Released);
    assert_eq!(pointer_source(None, true, None), PointerSource::Released);
    assert_eq!(pointer_source(None, false, Some(true)), PointerSource::Released);
}
