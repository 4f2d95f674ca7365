use vstd::prelude::*;

verus! {

/// The keys the application reacts to.
#[derive(Clone, Copy, PartialEq, Eq, Structural, Debug)]
pub enum Key {
    Escape,
    W,
    S,
    A,
    D,
    Q,
    Z,
    Other,
}

/// A movement key and whether it is held down.
#[derive(Clone, Copy, PartialEq, Eq, Structural, Debug)]
pub struct InputKey {
    pub key_down: bool,
    pub key: Key,
}

/// The state of the six camera-movement keys.
#[derive(Clone, Copy, PartialEq, Eq, Structural, Debug)]
pub struct InputModel {
    pub forward_key: InputKey,
    pub back_key: InputKey,
    pub left_key: InputKey,
    pub right_key: InputKey,
    pub up_key: InputKey,
    pub down_key: InputKey,
}

/// Whether the event loop goes on.
#[derive(Clone, Copy, PartialEq, Eq, Structural, Debug)]
pub enum LoopControl {
    Continue,
    Exit,
}

/// The direction of camera movement along each camera axis, each -1, 0 or 1:
/// along the look vector, along look × up, and along the up vector.
#[derive(Clone, Copy, PartialEq, Eq, Structural, Debug)]
pub struct MoveAxes {
    pub look: i8,
    pub cross: i8,
    pub up: i8,
}

impl InputKey {
    /// The key, released.
    pub fn new(key: Key) -> (r: InputKey)
        ensures
            r == (InputKey { key_down: false, key }),
    {
        InputKey { key_down: false, key }
    }
}

impl InputModel {
    /// W, S, A, D, Q and Z move forward, back, left, right, up and down; all released.
    pub fn default() -> (r: InputModel)
        ensures
            r == (InputModel {
                forward_key: InputKey { key_down: false, key: Key::W },
                back_key: InputKey { key_down: false, key: Key::S },
                left_key: InputKey { key_down: false, key: Key::A },
                right_key: InputKey { key_down: false, key: Key::D },
                up_key: InputKey { key_down: false, key: Key::Q },
                down_key: InputKey { key_down: false, key: Key::Z },
            }),
    {
        InputModel {
            forward_key: InputKey::new(Key::W),
            back_key: InputKey::new(Key::S),
            left_key: InputKey::new(Key::A),
            right_key: InputKey::new(Key::D),
            up_key: InputKey::new(Key::Q),
            down_key: InputKey::new(Key::Z),
        }
    }
}

/// What a key event does to the key state, and whether the loop ends.
pub open spec fn key_spec(key: Option<Key>, pressed: bool, m: InputModel) -> (InputModel, LoopControl) {
    match key {
        Some(Key::Escape) => if pressed {
            (m, LoopControl::Exit)
        } else {
            (m, LoopControl::Continue)
        },
        Some(Key::W) => (InputModel { forward_key: InputKey { key_down: pressed, ..m.forward_key }, ..m }, LoopControl::Continue),
        Some(Key::S) => (InputModel { back_key: InputKey { key_down: pressed, ..m.back_key }, ..m }, LoopControl::Continue),
        Some(Key::A) => (InputModel { left_key: InputKey { key_down: pressed, ..m.left_key }, ..m }, LoopControl::Continue),
        Some(Key::D) => (InputModel { right_key: InputKey { key_down: pressed, ..m.right_key }, ..m }, LoopControl::Continue),
        Some(Key::Q) => (InputModel { up_key: InputKey { key_down: pressed, ..m.up_key }, ..m }, LoopControl::Continue),
        Some(Key::Z) => (InputModel { down_key: InputKey { key_down: pressed, ..m.down_key }, ..m }, LoopControl::Continue),
        _ => (m, LoopControl::Continue),
    }
}

/// Handles one key event: Escape pressed ends the loop; a movement key
/// records whether it is now down; any other key does nothing.
pub fn key_handler(key: Option<Key>, pressed: bool, input_model: &mut InputModel) -> (r: LoopControl)
    ensures
        (*final(input_model), r) == key_spec(key, pressed, *old(input_model)),
{
    match key {
        Some(Key::Escape) => {
            if pressed {
                LoopControl::Exit
            } else {
                LoopControl::Continue
            }
        },
        Some(Key::W) => {
            input_model.forward_key.key_down = pressed;
            LoopControl::Continue
        },
        Some(Key::S) => {
            input_model.back_key.key_down = pressed;
            LoopControl::Continue
        },
        Some(Key::A) => {
            input_model.left_key.key_down = pressed;
            LoopControl::Continue
        },
        Some(Key::D) => {
            input_model.right_key.key_down = pressed;
            LoopControl::Continue
        },
        Some(Key::Q) => {
            input_model.up_key.key_down = pressed;
            LoopControl::Continue
        },
        Some(Key::Z) => {
            input_model.down_key.key_down = pressed;
            LoopControl::Continue
        },
        _ => LoopControl::Continue,
    }
}

pub open spec fn axis(positive: bool, negative: bool) -> i8 {
    if positive && !negative {
        1i8
    } else if negative && !positive {
        -1i8
    } else {
        0i8
    }
}

fn axis_of(positive: bool, negative: bool) -> (r: i8)
    ensures
        r == axis(positive, negative),
{
    if positive && !negative {
        1
    } else if negative && !positive {
        -1
    } else {
        0
    }
}

/// The camera movement the held keys ask for: forward moves against the
/// look vector and back along it, right along look × up, up along the up
/// vector; opposite keys cancel.
pub fn movement(input_model: &InputModel) -> (r: MoveAxes)
    ensures
        r.look == axis(input_model.back_key.key_down, input_model.forward_key.key_down),
        r.cross == axis(input_model.right_key.key_down, input_model.left_key.key_down),
        r.up == axis(input_model.up_key.key_down, input_model.down_key.key_down),
{
    MoveAxes {
        look: axis_of(input_model.back_key.key_down, input_model.forward_key.key_down),
        cross: axis_of(input_model.right_key.key_down, input_model.left_key.key_down),
        up: axis_of(input_model.up_key.key_down, input_model.down_key.key_down),
    }
}

} // verus!
