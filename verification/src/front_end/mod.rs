use vstd::prelude::*;
use crate::controller::{Controller, ControllerInput};
use crate::front_end::input::{ButtonPress, UserInput};

pub mod input;

verus! {

/// What the front end shows and does. The speed multiplier is a whole number from 1 to 50.
#[derive(Debug, Clone, Copy, PartialEq, Eq, Structural)]
pub struct Actions {
    pub should_quit: bool,
    pub pause: bool,
    pub show_tile_map: bool,
    pub show_tiles: bool,
    pub show_palette: bool,
    pub show_sprites: bool,
    pub show_fps: bool,
    pub show_grid: bool,
    pub speed_multiplier: u32,
    pub rewind_mode: bool,
    pub record_input: bool,
    pub replay_input: bool,
}

impl Actions {
    pub fn new() -> (r: Self)
        ensures
            r == (Actions {
                should_quit: false,
                pause: false,
                show_tile_map: false,
                show_tiles: false,
                show_palette: false,
                show_sprites: false,
                show_fps: false,
                show_grid: false,
                speed_multiplier: 1,
                rewind_mode: false,
                record_input: false,
                replay_input: false,
            }),
    {
        Self {
            should_quit: false,
            pause: false,
            show_tile_map: false,
            show_tiles: false,
            show_palette: false,
            show_sprites: false,
            show_fps: false,
            show_grid: false,
            speed_multiplier: 1,
            rewind_mode: false,
            record_input: false,
            replay_input: false,
        }
    }
}

/// The ids of the front end's windows.
#[derive(Debug, Clone, Copy, PartialEq, Eq, Structural)]
pub struct WindowIds {
    pub main: u32,
    pub tile: u32,
    pub tile_map: u32,
    pub sprite: u32,
    pub palette: u32,
}

/// The state the front end's input handling changes: its actions, the rewind slot counted back
/// from the newest, and the controller inputs waiting for the emulator.
#[derive(Debug)]
pub struct FrontEndInputState {
    pub actions: Actions,
    pub rewind_slot: usize,
    pub nes_controller_input: Vec<ControllerInput>,
}

/// What the front end has to do outside its own state after an input.
#[derive(Debug, Clone, Copy, PartialEq, Eq, Structural)]
pub enum FrontEndEffect {
    Nothing,
    /// write the recorded inputs out; recording stops
    SaveInputRecording,
    /// read the recorded inputs in, newest last; replay starts
    LoadInputReplay,
    SaveState,
    LoadSaveState,
    /// run the emulator at this speed
    SetSpeed(u32),
    /// continue from the rewind buffer entry with this index
    LoadRewindSlot(usize),
}

/// `v` kept within 1..=50.
pub open spec fn clamp_speed(v: int) -> u32 {
    if v < 1 { 1 } else if v > 50 { 50 } else { v as u32 }
}

/// What an input does to the actions and the rewind slot, and what is left to do outside:
/// view toggles flip; recording and replay exclude each other and save or load the recording;
/// pausing out of rewind mode leaves it; the speed moves by one within 1..=50; closing the main
/// window (or an unknown one) quits and closing a view hides it; the rewind slot moves back
/// (up to the oldest entry, `writer_head - 1`) or forward (down to 0); loading a rewind slot in
/// rewind mode continues from it, unpauses and leaves rewind mode.
pub open spec fn spec_handle_user_input(
    input: UserInput,
    a: Actions,
    slot: usize,
    writer_head: usize,
    windows: WindowIds,
) -> (Actions, usize, FrontEndEffect) {
    match input {
        UserInput::TileMap => (Actions { show_tile_map: !a.show_tile_map, ..a }, slot, FrontEndEffect::Nothing),
        UserInput::TileView => (Actions { show_tiles: !a.show_tiles, ..a }, slot, FrontEndEffect::Nothing),
        UserInput::SpriteView => (Actions { show_sprites: !a.show_sprites, ..a }, slot, FrontEndEffect::Nothing),
        UserInput::PaletteView => (Actions { show_palette: !a.show_palette, ..a }, slot, FrontEndEffect::Nothing),
        UserInput::Fps => (Actions { show_fps: !a.show_fps, ..a }, slot, FrontEndEffect::Nothing),
        UserInput::ShowGrid => (Actions { show_grid: !a.show_grid, ..a }, slot, FrontEndEffect::Nothing),
        UserInput::RecordInput => if a.replay_input {
            (a, slot, FrontEndEffect::Nothing)
        } else {
            (
                Actions { record_input: !a.record_input, ..a },
                slot,
                if a.record_input { FrontEndEffect::SaveInputRecording } else { FrontEndEffect::Nothing },
            )
        },
        UserInput::ReplayInput => if a.record_input {
            (a, slot, FrontEndEffect::Nothing)
        } else {
            (
                Actions { replay_input: !a.replay_input, ..a },
                slot,
                if !a.replay_input { FrontEndEffect::LoadInputReplay } else { FrontEndEffect::Nothing },
            )
        },
        UserInput::Pause => if a.rewind_mode && a.pause {
            (Actions { pause: false, rewind_mode: false, ..a }, 0, FrontEndEffect::Nothing)
        } else {
            (Actions { pause: !a.pause, ..a }, slot, FrontEndEffect::Nothing)
        },
        UserInput::SaveState => (a, slot, FrontEndEffect::SaveState),
        UserInput::LoadSaveState => (a, slot, FrontEndEffect::LoadSaveState),
        UserInput::RewindView => (
            Actions { rewind_mode: !a.rewind_mode, pause: !a.rewind_mode, ..a },
            0,
            FrontEndEffect::Nothing,
        ),
        UserInput::FastForward => {
            let speed = clamp_speed(a.speed_multiplier + 1);
            (Actions { speed_multiplier: speed, ..a }, slot, FrontEndEffect::SetSpeed(speed))
        },
        UserInput::SlowDown => {
            let speed = clamp_speed(a.speed_multiplier - 1);
            (Actions { speed_multiplier: speed, ..a }, slot, FrontEndEffect::SetSpeed(speed))
        },
        UserInput::Exit { window_id } => (
            if window_id == windows.main {
                Actions { should_quit: true, ..a }
            } else if window_id == windows.tile {
                Actions { show_tiles: false, ..a }
            } else if window_id == windows.tile_map {
                Actions { show_tile_map: false, ..a }
            } else if window_id == windows.sprite {
                Actions { show_sprites: false, ..a }
            } else if window_id == windows.palette {
                Actions { show_palette: false, ..a }
            } else {
                Actions { should_quit: true, ..a }
            },
            slot,
            FrontEndEffect::Nothing,
        ),
        UserInput::RewindLeft => (
            a,
            if slot + 1 > writer_head - 1 { (writer_head - 1) as usize } else { (slot + 1) as usize },
            FrontEndEffect::Nothing,
        ),
        UserInput::RewindRight => (a, if slot >= 1 { (slot - 1) as usize } else { 0 }, FrontEndEffect::Nothing),
        UserInput::RewindLoad => if a.rewind_mode {
            (
                Actions { rewind_mode: false, pause: false, ..a },
                0,
                FrontEndEffect::LoadRewindSlot(if writer_head >= slot + 1 { (writer_head - (slot + 1)) as usize } else { 0 }),
            )
        } else {
            (a, slot, FrontEndEffect::Nothing)
        },
        UserInput::NesFull(_) => (a, slot, FrontEndEffect::Nothing),
        UserInput::Nes(_) => (a, slot, FrontEndEffect::Nothing),
    }
}

/// handles user input
/// Updates the front end's state for `user_input` and returns what is left to do outside it.
/// `rewind_writer_head` is the number of entries the rewind buffer received so far.
#[verifier::rlimit(100)]
#[verifier::spinoff_prover]
pub fn handle_user_input(
    user_input: &UserInput,
    state: &mut FrontEndInputState,
    rewind_writer_head: usize,
    windows: &WindowIds,
) -> (r: FrontEndEffect)
    requires
        !(*user_input is Nes),
        *user_input is RewindLeft ==> rewind_writer_head > 0,
        (*user_input is RewindLeft || *user_input is RewindLoad) ==> old(state).rewind_slot < usize::MAX,
    ensures
        ({
            let (a, slot, effect) = spec_handle_user_input(
                *user_input,
                old(state).actions,
                old(state).rewind_slot,
                rewind_writer_head,
                *windows,
            );
            &&& final(state).actions == a
            &&& final(state).rewind_slot == slot
            &&& r == effect
            &&& final(state).nes_controller_input@ == (match *user_input {
                UserInput::NesFull(c) => old(state).nes_controller_input@.push(c),
                _ => old(state).nes_controller_input@,
            })
        }),
{
    match user_input {
        UserInput::TileMap => {
            state.actions.show_tile_map = !state.actions.show_tile_map;
            FrontEndEffect::Nothing
        },
        UserInput::TileView => {
            state.actions.show_tiles = !state.actions.show_tiles;
            FrontEndEffect::Nothing
        },
        UserInput::SpriteView => {
            state.actions.show_sprites = !state.actions.show_sprites;
            FrontEndEffect::Nothing
        },
        UserInput::PaletteView => {
            state.actions.show_palette = !state.actions.show_palette;
            FrontEndEffect::Nothing
        },
        UserInput::Fps => {
            state.actions.show_fps = !state.actions.show_fps;
            FrontEndEffect::Nothing
        },
        UserInput::ShowGrid => {
            state.actions.show_grid = !state.actions.show_grid;
            FrontEndEffect::Nothing
        },
        UserInput::RecordInput => {
            let mut effect = FrontEndEffect::Nothing;
            if !state.actions.replay_input {
                if state.actions.record_input {
                    effect = FrontEndEffect::SaveInputRecording;
                }
                state.actions.record_input = !state.actions.record_input;
            }
            effect
        },
        UserInput::ReplayInput => {
            let mut effect = FrontEndEffect::Nothing;
            if !state.actions.record_input {
                if !state.actions.replay_input {
                    effect = FrontEndEffect::LoadInputReplay;
                }
                state.actions.replay_input = !state.actions.replay_input;
            }
            effect
        },
        UserInput::Pause => {
            state.actions.pause = !state.actions.pause;
            if state.actions.rewind_mode && !state.actions.pause {
                state.actions.rewind_mode = false;
                state.rewind_slot = 0;
            }
            FrontEndEffect::Nothing
        },
        UserInput::SaveState => FrontEndEffect::SaveState,
        UserInput::LoadSaveState => FrontEndEffect::LoadSaveState,
        UserInput::RewindView => {
            state.actions.rewind_mode = !state.actions.rewind_mode;
            state.actions.pause = state.actions.rewind_mode;
            state.rewind_slot = 0;
            FrontEndEffect::Nothing
        },
        UserInput::FastForward => {
            let speed = state.actions.speed_multiplier.saturating_add(1);
            state.actions.speed_multiplier = if speed < 1 { 1 } else if speed > 50 { 50 } else { speed };
            FrontEndEffect::SetSpeed(state.actions.speed_multiplier)
        },
        UserInput::SlowDown => {
            let speed = if state.actions.speed_multiplier >= 1 { state.actions.speed_multiplier - 1 } else { 0 };
            state.actions.speed_multiplier = if speed < 1 { 1 } else if speed > 50 { 50 } else { speed };
            FrontEndEffect::SetSpeed(state.actions.speed_multiplier)
        },
        UserInput::Exit { window_id } => {
            if *window_id == windows.main {
                state.actions.should_quit = true;
            } else if *window_id == windows.tile {
                state.actions.show_tiles = false;
            } else if *window_id == windows.tile_map {
                state.actions.show_tile_map = false;
            } else if *window_id == windows.sprite {
                state.actions.show_sprites = false;
            } else if *window_id == windows.palette {
                state.actions.show_palette = false;
            } else {
                state.actions.should_quit = true;
            }
            FrontEndEffect::Nothing
        },
        UserInput::RewindLeft => {
            let next = state.rewind_slot + 1;
            let oldest = rewind_writer_head - 1;
            state.rewind_slot = if next > oldest { oldest } else { next };
            FrontEndEffect::Nothing
        },
        UserInput::RewindRight => {
            state.rewind_slot = state.rewind_slot.saturating_sub(1);
            FrontEndEffect::Nothing
        },
        UserInput::RewindLoad => {
            if state.actions.rewind_mode {
                let slot = rewind_writer_head.saturating_sub(state.rewind_slot + 1);
                state.rewind_slot = 0;
                state.actions.rewind_mode = false;
                state.actions.pause = false;
                FrontEndEffect::LoadRewindSlot(slot)
            } else {
                FrontEndEffect::Nothing
            }
        },
        UserInput::NesFull(controller_input) => {
            state.nes_controller_input.push(*controller_input);
            FrontEndEffect::Nothing
        },
        UserInput::Nes(_) => FrontEndEffect::Nothing,
    }
}

/// Presses or releases a button of the controller the input names.
pub fn register_input(controller_1: &mut Controller, controller_2: &mut Controller, button: ControllerInput)
    ensures
        match button {
            ControllerInput::Controller1(pressed, key) => final(controller_1).button_state.bits == (if pressed {
                old(controller_1).button_state.bits | key.bits
            } else {
                old(controller_1).button_state.bits & !key.bits
            }) && final(controller_1).strobe == old(controller_1).strobe
                && final(controller_1).button_index == old(controller_1).button_index
                && *final(controller_2) == *old(controller_2),
            ControllerInput::Controller2(pressed, key) => final(controller_2).button_state.bits == (if pressed {
                old(controller_2).button_state.bits | key.bits
            } else {
                old(controller_2).button_state.bits & !key.bits
            }) && final(controller_2).strobe == old(controller_2).strobe
                && final(controller_2).button_index == old(controller_2).button_index
                && *final(controller_1) == *old(controller_1),
        },
{
    match button {
        ControllerInput::Controller1(pressed, key) => controller_1.set_button_state(pressed, key.bits),
        ControllerInput::Controller2(pressed, key) => controller_2.set_button_state(pressed, key.bits),
    }
}

/// The inputs that reach the controllers at `cycle`, in order. While replaying, the newest
/// recorded press (the last of `replay_buffer`) is taken once its cycle has come, replay ending
/// with the buffer, and live inputs are dropped. Otherwise the live inputs are taken, and
/// recorded with `cycle` while recording.
pub open spec fn spec_controller_inputs(
    inputs: Seq<ControllerInput>,
    replay_buffer: Seq<ButtonPress>,
    recording: Seq<ButtonPress>,
    actions: Actions,
    cycle: u64,
) -> (Seq<ControllerInput>, Seq<ButtonPress>, Seq<ButtonPress>, Actions) {
    let replay = actions.replay_input;
    let takes = replay && replay_buffer.len() > 0 && replay_buffer.last().cycle <= cycle;
    let rest = if takes { replay_buffer.drop_last() } else { replay_buffer };
    let a = if takes && rest.len() == 0 { Actions { replay_input: false, ..actions } } else { actions };
    let replayed = if takes { seq![replay_buffer.last().button] } else { Seq::empty() };
    if replay {
        (replayed, rest, recording, a)
    } else {
        (
            inputs,
            rest,
            if actions.record_input {
                recording + inputs.map_values(|b: ControllerInput| ButtonPress { button: b, cycle })
            } else {
                recording
            },
            a,
        )
    }
}

/// Decides which inputs reach the controllers at `cycle` and updates the replay buffer, the
/// recording and the actions accordingly; the pending live inputs are consumed.
pub fn controller_inputs_for_cycle(
    state: &mut FrontEndInputState,
    replay_buffer: &mut Vec<ButtonPress>,
    recording: &mut Vec<ButtonPress>,
    cycle: u64,
) -> (r: Vec<ControllerInput>)
    ensures
        ({
            let (out, rest, rec, a) = spec_controller_inputs(
                old(state).nes_controller_input@,
                old(replay_buffer)@,
                old(recording)@,
                old(state).actions,
                cycle,
            );
            &&& r@ == out
            &&& final(replay_buffer)@ == rest
            &&& final(recording)@ == rec
            &&& final(state).actions == a
            &&& final(state).rewind_slot == old(state).rewind_slot
            &&& final(state).nes_controller_input@ == Seq::<ControllerInput>::empty()
        }),
{
    let mut inputs: Vec<ControllerInput> = Vec::new();
    std::mem::swap(&mut inputs, &mut state.nes_controller_input);
    let replay = state.actions.replay_input;
    let mut out: Vec<ControllerInput> = Vec::new();
    let n = replay_buffer.len();
    if replay && n > 0 && replay_buffer[n - 1].cycle <= cycle {
        let input = replay_buffer.pop();
        match input {
            Some(press) => out.push(press.button),
            None => {},
        }
        if replay_buffer.len() == 0 {
            state.actions.replay_input = false;
        }
    }
    if !replay {
        let ghost rec0 = recording@;
        let mut i: usize = 0;
        while i < inputs.len()
            invariant
                i <= inputs@.len(),
                out@ == inputs@.subrange(0, i as int),
                recording@ == (if state.actions.record_input {
                    rec0 + inputs@.subrange(0, i as int).map_values(|b: ControllerInput| ButtonPress { button: b, cycle })
                } else {
                    rec0
                }),
            decreases inputs@.len() - i,
        {
            let button = inputs[i];
            if state.actions.record_input {
                recording.push(ButtonPress { button, cycle });
            }
            out.push(button);
            proof {
                assert(inputs@.subrange(0, i + 1) =~= inputs@.subrange(0, i as int).push(button));
                assert(inputs@.subrange(0, i + 1).map_values(|b: ControllerInput| ButtonPress { button: b, cycle })
                    =~= inputs@.subrange(0, i as int).map_values(|b: ControllerInput| ButtonPress { button: b, cycle }).push(ButtonPress { button, cycle }));
            }
            i = i + 1;
        }
        assert(inputs@.subrange(0, inputs@.len() as int) =~= inputs@);
    }
    out
}

} // verus!
