use vstd::prelude::*;

verus! {

/// The eight buttons of a NES controller, pressed or not.
pub struct ControllerState {
    pub a: bool,
    pub b: bool,
    pub up: bool,
    pub down: bool,
    pub left: bool,
    pub right: bool,
    pub start: bool,
    pub select: bool,
}

/// The buttons the pad shows for the keys in `state`: opposite directions
/// pressed together cancel out unless the configuration allows them.
pub open spec fn resolved_input(state: ControllerState, allow_opposite_directions: bool) -> ControllerState {
    let horiz_conflict = state.left && state.right;
    let vert_conflict = state.up && state.down;
    ControllerState {
        a: state.a,
        b: state.b,
        start: state.start,
        select: state.select,
        left: if allow_opposite_directions { state.left } else { state.left && !horiz_conflict },
        right: if allow_opposite_directions { state.right } else { state.right && !horiz_conflict },
        up: if allow_opposite_directions { state.up } else { state.up && !vert_conflict },
        down: if allow_opposite_directions { state.down } else { state.down && !vert_conflict },
    }
}

/// Sets the buttons of `joypad` from the keys held in `state`.
pub fn apply_input(joypad: &mut ControllerState, state: &ControllerState, allow_opposite_directions: bool)
    ensures
        *final(joypad) == resolved_input(*state, allow_opposite_directions),
{
    joypad.a = state.a;
    joypad.b = state.b;
    joypad.start = state.start;
    joypad.select = state.select;

    let (left, right, up, down) = if allow_opposite_directions {
        (state.left, state.right, state.up, state.down)
    } else {
        let horiz_conflict = state.left && state.right;
        let vert_conflict = state.up && state.down;
        (
            state.left && !horiz_conflict,
            state.right && !horiz_conflict,
            state.up && !vert_conflict,
            state.down && !vert_conflict,
        )
    };

    joypad.left = left;
    joypad.right = right;
    joypad.up = up;
    joypad.down = down;
}

/// Without permission for opposite directions the pad never shows left with
/// right or up with down, and a direction pressed without its opposite goes through.
pub proof fn law_no_opposite_directions(state: ControllerState)
    ensures
        !(resolved_input(state, false).left && resolved_input(state, false).right),
        !(resolved_input(state, false).up && resolved_input(state, false).down),
        state.left && !state.right ==> resolved_input(state, false).left,
        state.right && !state.left ==> resolved_input(state, false).right,
        state.up && !state.down ==> resolved_input(state, false).up,
        state.down && !state.up ==> resolved_input(state, false).down,
        resolved_input(state, true) == state,
{
}

/// The keyboard keys that the emulator window reads, by their physical
/// position; every other key is `Other`.
#[derive(Clone, Copy, Debug, PartialEq, Eq, Structural)]
pub enum KeyboardKey {
    KeyZ,
    KeyX,
    KeyC,
    KeyV,
    ArrowUp,
    ArrowDown,
    ArrowLeft,
    ArrowRight,
    Other,
}

/// The held keys after `key` goes down (`is_pressed`) or up: Z is A, X is
/// B, C is Start, V is Select and the arrows are the directions; other keys
/// change nothing.
pub open spec fn keys_after(state: ControllerState, key: KeyboardKey, is_pressed: bool) -> ControllerState {
    match key {
        KeyboardKey::KeyZ => ControllerState { a: is_pressed, ..state },
        KeyboardKey::KeyX => ControllerState { b: is_pressed, ..state },
        KeyboardKey::KeyC => ControllerState { start: is_pressed, ..state },
        KeyboardKey::KeyV => ControllerState { select: is_pressed, ..state },
        KeyboardKey::ArrowUp => ControllerState { up: is_pressed, ..state },
        KeyboardKey::ArrowDown => ControllerState { down: is_pressed, ..state },
        KeyboardKey::ArrowLeft => ControllerState { left: is_pressed, ..state },
        KeyboardKey::ArrowRight => ControllerState { right: is_pressed, ..state },
        KeyboardKey::Other => state,
    }
}

/// Records a key going down or up in the held keys `input_state`.
pub fn apply_key(input_state: &mut ControllerState, key: KeyboardKey, is_pressed: bool)
    ensures
        *final(input_state) == keys_after(*old(input_state), key, is_pressed),
{
    match key {
        KeyboardKey::KeyZ => input_state.a = is_pressed,
        KeyboardKey::KeyX => input_state.b = is_pressed,
        KeyboardKey::KeyC => input_state.start = is_pressed,
        KeyboardKey::KeyV => input_state.select = is_pressed,
        KeyboardKey::ArrowUp => input_state.up = is_pressed,
        KeyboardKey::ArrowDown => input_state.down = is_pressed,
        KeyboardKey::ArrowLeft => input_state.left = is_pressed,
        KeyboardKey::ArrowRight => input_state.right = is_pressed,
        KeyboardKey::Other => {},
    }
}

/// The last event of a key decides its button: a press followed by a
/// release leaves what the release alone leaves, and the other way round;
/// each key moves only its own button.
pub proof fn law_key_press_release(state: ControllerState, key: KeyboardKey)
    ensures
        keys_after(keys_after(state, key, true), key, false) == keys_after(state, key, false),
        keys_after(keys_after(state, key, false), key, true) == keys_after(state, key, true),
        key != KeyboardKey::KeyZ ==> keys_after(state, key, true).a == state.a,
        key != KeyboardKey::ArrowLeft ==> keys_after(state, key, true).left == state.left,
{
}

} // verus!
