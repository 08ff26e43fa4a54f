use vstd::prelude::*;
use std::collections::HashMap;
use crate::controller::{ControllerButtons, ControllerInput};

verus! {

broadcast use vstd::std_specs::hash::group_hash_axioms;

/// Represents a button press at a specific point in time
#[derive(Debug, Clone, Copy, PartialEq, Eq, Structural)]
pub struct ButtonPress {
    /// the button
    pub button: ControllerInput,
    /// the cycle on which the input happened
    pub cycle: u64,
}

/// Represents a sequence of inputs with the cycles offsets at which the recording / replay started
#[derive(Debug)]
pub struct InputBuffer {
    /// when the recording / replay started
    pub cycle_offset: u64,
    /// input sequence
    pub input: Vec<ButtonPress>,
}

impl InputBuffer {
    /// create an empty buffer
    pub fn new() -> (r: Self)
        ensures
            r.cycle_offset == 0,
            r.input@ == Seq::<ButtonPress>::empty(),
    {
        InputBuffer { cycle_offset: 0, input: Vec::new() }
    }
}

/// Meta representation of user Input
#[derive(Debug, Clone, Copy, PartialEq, Eq, Structural)]
pub enum UserInput {
    TileMap,
    TileView,
    SpriteView,
    PaletteView,
    Fps,
    ShowGrid,
    RecordInput,
    ReplayInput,
    Pause,
    SaveState,
    LoadSaveState,
    RewindView,
    FastForward,
    SlowDown,
    Exit { window_id: u32 },
    RewindLeft,
    RewindRight,
    RewindLoad,
    Nes(ControllerButtons),
    NesFull(ControllerInput),
}

/// An input event of the window system, with keys and buttons as their numeric codes.
#[derive(Debug, Clone, Copy, PartialEq, Eq, Structural)]
pub enum InputEvent {
    Quit,
    WindowClose { window_id: u32 },
    ControllerButtonDown { button: i32, which: u32 },
    ControllerButtonUp { button: i32, which: u32 },
    KeyDown { keycode: Option<i32> },
    KeyUp { keycode: Option<i32> },
    Other,
}

/// A controller button from a key map, tied to controller 1 or 2 and to a press or release.
pub open spec fn converted(input: UserInput, controller_1: bool, down: bool) -> UserInput {
    match input {
        UserInput::Nes(button) => UserInput::NesFull(
            if controller_1 {
                ControllerInput::Controller1(down, button)
            } else {
                ControllerInput::Controller2(down, button)
            },
        ),
        other => other,
    }
}

/// What `map` binds `key` to, as a sequence of at most one input.
pub open spec fn lookup(map: Map<i32, UserInput>, key: i32) -> Seq<UserInput> {
    if map.contains_key(key) {
        seq![map[key]]
    } else {
        Seq::empty()
    }
}

/// `inputs` converted for controller 1 or 2, press or release.
pub open spec fn converted_all(inputs: Seq<UserInput>, controller_1: bool, down: bool) -> Seq<UserInput> {
    inputs.map_values(|u: UserInput| converted(u, controller_1, down))
}

/// The user inputs an event stands for: closing windows; gamepad 0 through the system and first
/// controller maps, gamepad 1 through the second; keys through the second map (controller 2),
/// then the system and first maps (controller 1). Releases only go through the controller maps.
pub open spec fn spec_parse_user_input(
    key_map_1: Map<i32, UserInput>,
    key_map_2: Map<i32, UserInput>,
    key_map_system: Map<i32, UserInput>,
    controller_map_1: Map<i32, UserInput>,
    controller_map_2: Map<i32, UserInput>,
    controller_map_system: Map<i32, UserInput>,
    event: InputEvent,
) -> Seq<UserInput> {
    match event {
        InputEvent::Quit => seq![UserInput::Exit { window_id: 0 }],
        InputEvent::WindowClose { window_id } => seq![UserInput::Exit { window_id }],
        InputEvent::ControllerButtonDown { button, which } => if which == 0 {
            converted_all(lookup(controller_map_system, button) + lookup(controller_map_1, button), true, true)
        } else if which == 1 {
            converted_all(lookup(controller_map_2, button), false, true)
        } else {
            Seq::empty()
        },
        InputEvent::ControllerButtonUp { button, which } => if which == 0 {
            converted_all(lookup(controller_map_1, button), true, false)
        } else if which == 1 {
            converted_all(lookup(controller_map_2, button), false, false)
        } else {
            Seq::empty()
        },
        InputEvent::KeyDown { keycode: Some(key) } => converted_all(lookup(key_map_2, key), false, true)
            + converted_all(lookup(key_map_system, key) + lookup(key_map_1, key), true, true),
        InputEvent::KeyUp { keycode: Some(key) } => converted_all(lookup(key_map_2, key), false, false)
            + converted_all(lookup(key_map_1, key), true, false),
        _ => Seq::empty(),
    }
}

impl UserInput {
    fn convert_nes_controller_input(self, controller_1: bool, down: bool) -> (r: UserInput)
        ensures
            r == converted(self, controller_1, down),
    {
        match self {
            UserInput::Nes(button) => {
                if controller_1 {
                    UserInput::NesFull(ControllerInput::Controller1(down, button))
                } else {
                    UserInput::NesFull(ControllerInput::Controller2(down, button))
                }
            },
            input => input,
        }
    }
}

/// Appends what `map` binds `key` to, converted, to `out`.
fn push_lookup(out: &mut Vec<UserInput>, map: &HashMap<i32, UserInput>, key: i32, controller_1: bool, down: bool)
    ensures
        final(out)@ == old(out)@ + converted_all(lookup(map@, key), controller_1, down),
{
    match map.get(&key) {
        Some(input) => {
            let v = *input;
            out.push(v.convert_nes_controller_input(controller_1, down));
            assert(converted_all(lookup(map@, key), controller_1, down) =~= seq![converted(v, controller_1, down)]);
        },
        None => {
            assert(converted_all(lookup(map@, key), controller_1, down) =~= Seq::<UserInput>::empty());
        },
    }
}

/// transforms user input from keyboard or other sources to UserInput based on the keymaps
pub fn parse_user_input(
    key_map_1: &HashMap<i32, UserInput>,
    key_map_2: &HashMap<i32, UserInput>,
    key_map_system: &HashMap<i32, UserInput>,
    controller_map_1: &HashMap<i32, UserInput>,
    controller_map_2: &HashMap<i32, UserInput>,
    controller_map_system: &HashMap<i32, UserInput>,
    event: InputEvent,
) -> (r: Vec<UserInput>)
    ensures
        r@ == spec_parse_user_input(
            key_map_1@,
            key_map_2@,
            key_map_system@,
            controller_map_1@,
            controller_map_2@,
            controller_map_system@,
            event,
        ),
{
    let mut out: Vec<UserInput> = Vec::new();
    match event {
        InputEvent::Quit => {
            out.push(UserInput::Exit { window_id: 0 });
        },
        InputEvent::WindowClose { window_id } => {
            out.push(UserInput::Exit { window_id });
        },
        InputEvent::ControllerButtonDown { button, which } => {
            if which == 0 {
                push_lookup(&mut out, controller_map_system, button, true, true);
                push_lookup(&mut out, controller_map_1, button, true, true);
                assert(converted_all(lookup(controller_map_system@, button) + lookup(controller_map_1@, button), true, true)
                    =~= converted_all(lookup(controller_map_system@, button), true, true) + converted_all(lookup(controller_map_1@, button), true, true));
            } else if which == 1 {
                push_lookup(&mut out, controller_map_2, button, false, true);
            }
        },
        InputEvent::ControllerButtonUp { button, which } => {
            if which == 0 {
                push_lookup(&mut out, controller_map_1, button, true, false);
            } else if which == 1 {
                push_lookup(&mut out, controller_map_2, button, false, false);
            }
        },
        InputEvent::KeyDown { keycode: Some(key) } => {
            push_lookup(&mut out, key_map_2, key, false, true);
            push_lookup(&mut out, key_map_system, key, true, true);
            push_lookup(&mut out, key_map_1, key, true, true);
            assert(converted_all(lookup(key_map_system@, key) + lookup(key_map_1@, key), true, true)
                =~= converted_all(lookup(key_map_system@, key), true, true) + converted_all(lookup(key_map_1@, key), true, true));
        },
        InputEvent::KeyUp { keycode: Some(key) } => {
            push_lookup(&mut out, key_map_2, key, false, false);
            push_lookup(&mut out, key_map_1, key, true, false);
        },
        _ => {},
    }
    assert(out@ =~= spec_parse_user_input(
        key_map_1@,
        key_map_2@,
        key_map_system@,
        controller_map_1@,
        controller_map_2@,
        controller_map_system@,
        event,
    ));
    out
}

} // verus!
