use rigged_character::controls::ActionButton;
use rigged_character::ui::{
    action_button, action_label, action_panel, joystick_base, knob_at_rest, Panel,
    JOYSTICK_CENTER_PX, JOYSTICK_MAX_DISTANCE_PX, KNOB_HALF_SIZE_PX,
};

const ACTIONS: [ActionButton; 4] = [ActionButton::Triangle, ActionButton::Circle, ActionButton::Square, ActionButton::Cross];

#[test]
fn joystick_layout_values() {
    assert_eq!(joystick_base(), Panel { side: 25, bottom: 25, width: 150, height: 150 });
    assert_eq!(knob_at_rest(), Panel { side: 70, bottom: 70, width: 60, height: 60 });
    assert_eq!(JOYSTICK_CENTER_PX, 100);
    assert_eq!(JOYSTICK_MAX_DISTANCE_PX, 75);
    assert_eq!(KNOB_HALF_SIZE_PX, 30);
}

#[test]
fn knob_rests_at_centre_of_base() {
    let b = joystick_base();
    let k = knob_at_rest();
    assert_eq!(b.side + b.width / 2, JOYSTICK_CENTER_PX);
    assert_eq!(k.side + k.width / 2, JOYSTICK_CENTER_PX);
    assert_eq!(k.bottom + k.height / 2, JOYSTICK_CENTER_PX);
    assert_eq!(JOYSTICK_MAX_DISTANCE_PX, b.width / 2);
}

#[test]
fn action_buttons_fit_and_do_not_overlap() {
    let panel = action_panel();
    assert_eq!(panel, Panel { side: 50, bottom: 50, width: 200, height: 200 });
    for a in ACTIONS {
        let p = action_button(a);
        assert!(p.side + p.width <= panel.width && p.bottom + p.height <= panel.height);
        for b in ACTIONS {
            if a != b {
                let q = action_button(b);
                let apart = p.side + p.width <= q.side
                    || q.side + q.width <= p.side
                    || p.bottom + p.height <= q.bottom
                    || q.bottom + q.height <= p.bottom;
                assert!(apart);
                assert_ne!(action_label(a), action_label(b));
            }
        }
    }
}

#[test]
fn action_button_places_and_labels() {
    assert_eq!(action_button(ActionButton::Triangle), Panel { side: 70, bottom: 140, width: 60, height: 60 });
    assert_eq!(action_button(ActionButton::Circle), Panel { side: 0, bottom: 70, width: 60, height: 60 });
    assert_eq!(action_button(ActionButton::Cross), Panel { side: 70, bottom: 0, width: 60, height: 60 });
    assert_eq!(action_button(ActionButton::Square), Panel { side: 140, bottom: 70, width: 60, height: 60 });
    assert_eq!(action_label(ActionButton::Triangle), "\u{25B3}");
    assert_eq!(action_label(ActionButton::Circle), "\u{25EF}");
    assert_eq!(action_label(ActionButton::Cross), "X");
    assert_eq!(action_label(ActionButton::Square), "\u{2B1C}");
}
