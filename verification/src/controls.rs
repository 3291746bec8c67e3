//! The rules of the controls: action buttons, keyboard steering, and which
//! pointer drives the virtual joystick.
use vstd::prelude::*;

verus! {

/// The four action buttons.
#[derive(Clone, Copy, Debug, PartialEq, Eq, Structural)]
pub enum ActionButton {
    Triangle,
    Circle,
    Square,
    Cross,
}

/// What pressing an action button does: the message it reports, and whether
/// the player jumps (its vertical speed becomes the jump speed and it is no
/// longer on the ground).
pub struct ActionOutcome {
    pub message: &'static str,
    pub jump: bool,
}

pub open spec fn action_message(action: ActionButton) -> Seq<char> {
    match action {
        ActionButton::Cross => "Jump / Accept"@,
        ActionButton::Square => "Attack! (Sword swing)"@,
        ActionButton::Circle => "Dodge roll / Cancel!"@,
        ActionButton::Triangle => "Open Inventory / Spell menu!"@,
    }
}

/// The outcome of pressing `action` while the player is (or is not) on the
/// ground: Cross jumps, but only from the ground; every button reports its
/// message.
pub fn press_action(action: ActionButton, grounded: bool) -> (outcome: ActionOutcome)
    ensures
        outcome.message@ == action_message(action),
        outcome.jump == (action == ActionButton::Cross && grounded),
{
    match action {
        ActionButton::Cross => ActionOutcome { message: "Jump / Accept", jump: grounded },
        ActionButton::Square => ActionOutcome { message: "Attack! (Sword swing)", jump: false },
        ActionButton::Circle => ActionOutcome { message: "Dodge roll / Cancel!", jump: false },
        ActionButton::Triangle => ActionOutcome { message: "Open Inventory / Spell menu!", jump: false },
    }
}

/// Which movement keys are held.
#[derive(Clone, Copy, Debug, PartialEq, Eq, Structural)]
pub struct MovementKeys {
    pub w: bool,
    pub s: bool,
    pub a: bool,
    pub d: bool,
    pub up: bool,
    pub down: bool,
    pub left: bool,
    pub right: bool,
}

/// A step direction on the ground plane: x to the right, z towards the
/// viewer (so forward is negative z).
#[derive(Clone, Copy, Debug, PartialEq, Eq, Structural)]
pub struct StepDirection {
    pub x: i8,
    pub z: i8,
}

pub open spec fn held(b: bool) -> int {
    if b { 1 } else { 0 }
}

/// The keyboard's step direction: W or Up steps forward (z - 1), S or Down
/// back (z + 1), A or Left left (x - 1), D or Right right (x + 1); opposite
/// keys cancel.
pub fn keyboard_direction(keys: MovementKeys) -> (dir: StepDirection)
    ensures
        dir.x == held(keys.d || keys.right) - held(keys.a || keys.left),
        dir.z == held(keys.s || keys.down) - held(keys.w || keys.up),
        -1 <= dir.x <= 1,
        -1 <= dir.z <= 1,
{
    let mut dir = StepDirection { x: 0, z: 0 };
    if keys.w || keys.up {
        dir.z = dir.z - 1;
    }
    if keys.s || keys.down {
        dir.z = dir.z + 1;
    }
    if keys.a || keys.left {
        dir.x = dir.x - 1;
    }
    if keys.d || keys.right {
        dir.x = dir.x + 1;
    }
    dir
}

/// Which pointer drives the joystick this frame.
#[derive(Clone, Copy, Debug, PartialEq, Eq, Structural)]
pub enum PointerSource {
    /// The first touch.
    Touch,
    /// The mouse cursor.
    Cursor,
    /// None: the joystick springs back to rest.
    Released,
}

/// Chooses the joystick's pointer from the first touch (if any, and whether
/// it is on the left half of the window), whether the left mouse button is
/// held, and the cursor (if it is in the window, and whether it is on the
/// left half). A touch, wherever it is, takes precedence over the mouse; only
/// a pointer on the left half drives the joystick.
pub fn pointer_source(first_touch_on_left: Option<bool>, mouse_pressed: bool, cursor_on_left: Option<bool>) -> (source: PointerSource)
    ensures
        source == (match first_touch_on_left {
            Some(true) => PointerSource::Touch,
            Some(false) => PointerSource::Released,
            None => if mouse_pressed && cursor_on_left == Some(true) {
                PointerSource::Cursor
            } else {
                PointerSource::Released
            },
        }),
{
    match first_touch_on_left {
        Some(on_left) => {
            if on_left {
                PointerSource::Touch
            } else {
                PointerSource::Released
            }
        },
        None => {
            if mouse_pressed {
                match cursor_on_left {
                    Some(on_left) => {
                        if on_left {
                            PointerSource::Cursor
                        } else {
                            PointerSource::Released
                        }
                    },
                    None => PointerSource::Released,
                }
            } else {
                PointerSource::Released
            }
        },
    }
}

} // verus!
