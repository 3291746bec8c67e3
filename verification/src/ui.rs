//! The on-screen controls' layout, in pixels.
use vstd::prelude::*;
use crate::controls::ActionButton;

verus! {

/// Centre of the joystick (both coordinates, from the left and from the
/// bottom of the window).
pub const JOYSTICK_CENTER_PX: u32 = 100;

/// How far the knob's centre may move from the joystick's centre.
pub const JOYSTICK_MAX_DISTANCE_PX: u32 = 75;

/// Half the knob's side.
pub const KNOB_HALF_SIZE_PX: u32 = 30;

/// A rectangle placed at `side` pixels from one side of its container (the
/// left for the joystick, the right for the action buttons) and `bottom`
/// pixels from its bottom.
#[derive(Clone, Copy, Debug, PartialEq, Eq, Structural)]
pub struct Panel {
    pub side: u32,
    pub bottom: u32,
    pub width: u32,
    pub height: u32,
}

pub open spec fn panel(side: int, bottom: int, width: int, height: int) -> Panel {
    Panel { side: side as u32, bottom: bottom as u32, width: width as u32, height: height as u32 }
}

/// The joystick's round base, from the left.
pub open spec fn joystick_base_spec() -> Panel {
    panel(25, 25, 150, 150)
}

/// The joystick's knob at rest, from the left.
pub open spec fn knob_at_rest_spec() -> Panel {
    panel(70, 70, 60, 60)
}

/// The container of the action buttons, from the right.
pub open spec fn action_panel_spec() -> Panel {
    panel(50, 50, 200, 200)
}

/// Each action button within the action panel, from the panel's right.
pub open spec fn action_button_spec(action: ActionButton) -> Panel {
    match action {
        ActionButton::Triangle => panel(70, 140, 60, 60),
        ActionButton::Circle => panel(0, 70, 60, 60),
        ActionButton::Cross => panel(70, 0, 60, 60),
        ActionButton::Square => panel(140, 70, 60, 60),
    }
}

pub open spec fn action_label_spec(action: ActionButton) -> Seq<char> {
    match action {
        ActionButton::Triangle => "\u{25B3}"@,
        ActionButton::Circle => "\u{25EF}"@,
        ActionButton::Cross => "X"@,
        ActionButton::Square => "\u{2B1C}"@,
    }
}

pub fn joystick_base() -> (p: Panel)
    ensures
        p == joystick_base_spec(),
{
    Panel { side: 25, bottom: 25, width: 150, height: 150 }
}

/// Where the knob sits when no pointer drives it: centred on the joystick.
pub fn knob_at_rest() -> (p: Panel)
    ensures
        p == knob_at_rest_spec(),
{
    Panel {
        side: JOYSTICK_CENTER_PX - KNOB_HALF_SIZE_PX,
        bottom: JOYSTICK_CENTER_PX - KNOB_HALF_SIZE_PX,
        width: 2 * KNOB_HALF_SIZE_PX,
        height: 2 * KNOB_HALF_SIZE_PX,
    }
}

pub fn action_panel() -> (p: Panel)
    ensures
        p == action_panel_spec(),
{
    Panel { side: 50, bottom: 50, width: 200, height: 200 }
}

/// The action buttons are laid out as a diamond: triangle on top, cross at
/// the bottom, square on the left, circle on the right.
pub fn action_button(action: ActionButton) -> (p: Panel)
    ensures
        p == action_button_spec(action),
{
    match action {
        ActionButton::Triangle => Panel { side: 70, bottom: 140, width: 60, height: 60 },
        ActionButton::Circle => Panel { side: 0, bottom: 70, width: 60, height: 60 },
        ActionButton::Cross => Panel { side: 70, bottom: 0, width: 60, height: 60 },
        ActionButton::Square => Panel { side: 140, bottom: 70, width: 60, height: 60 },
    }
}

pub fn action_label(action: ActionButton) -> (label: &'static str)
    ensures
        label@ == action_label_spec(action),
{
    match action {
        ActionButton::Triangle => "\u{25B3}",
        ActionButton::Circle => "\u{25EF}",
        ActionButton::Cross => "X",
        ActionButton::Square => "\u{2B1C}",
    }
}

/// `inner`, placed relative to `outer`'s corner, lies within `outer`.
pub open spec fn fits_within(inner: Panel, outer: Panel) -> bool {
    &&& inner.side + inner.width <= outer.width
    &&& inner.bottom + inner.height <= outer.height
}

/// The two panels do not overlap.
pub open spec fn disjoint(a: Panel, b: Panel) -> bool {
    ||| a.side + a.width <= b.side
    ||| b.side + b.width <= a.side
    ||| a.bottom + a.height <= b.bottom
    ||| b.bottom + b.height <= a.bottom
}

/// The joystick is consistent: the base is centred on the joystick's centre,
/// the knob at rest is centred there too (and is what the base's initial
/// layout shows), and the knob's centre can move exactly to the base's rim.
pub proof fn lemma_joystick_layout()
    ensures
        joystick_base_spec().side + joystick_base_spec().width / 2 == JOYSTICK_CENTER_PX,
        joystick_base_spec().bottom + joystick_base_spec().height / 2 == JOYSTICK_CENTER_PX,
        knob_at_rest_spec().side + knob_at_rest_spec().width / 2 == JOYSTICK_CENTER_PX,
        knob_at_rest_spec().bottom + knob_at_rest_spec().height / 2 == JOYSTICK_CENTER_PX,
        knob_at_rest_spec().width == 2 * KNOB_HALF_SIZE_PX,
        knob_at_rest_spec().height == 2 * KNOB_HALF_SIZE_PX,
        JOYSTICK_MAX_DISTANCE_PX == joystick_base_spec().width / 2,
{
}

/// Every action button lies within the action panel, no two buttons overlap,
/// and no two share a label.
pub proof fn lemma_action_buttons_layout(a: ActionButton, b: ActionButton)
    ensures
        fits_within(action_button_spec(a), action_panel_spec()),
        a != b ==> disjoint(action_button_spec(a), action_button_spec(b)),
        a != b ==> action_label_spec(a) != action_label_spec(b),
{
    if a != b {
        reveal_strlit("\u{25B3}");
        reveal_strlit("\u{25EF}");
        reveal_strlit("X");
        reveal_strlit("\u{2B1C}");
        assert(action_label_spec(a)[0] != action_label_spec(b)[0]);
    }
}

} // verus!
