use std::collections::HashMap;

use nes_rs::controller::{Controller, ControllerButtons, ControllerInput};
use nes_rs::front_end::input::{parse_user_input, ButtonPress, InputEvent, UserInput};
use nes_rs::front_end::{
    controller_inputs_for_cycle, handle_user_input, register_input, Actions, FrontEndEffect, FrontEndInputState,
    WindowIds,
};

fn windows() -> WindowIds {
    WindowIds { main: 1, tile: 2, tile_map: 3, sprite: 4, palette: 5 }
}

fn state() -> FrontEndInputState {
    FrontEndInputState { actions: Actions::new(), rewind_slot: 0, nes_controller_input: Vec::new() }
}

fn a_button() -> ControllerButtons {
    ControllerButtons { bits: ControllerButtons::A }
}

#[test]
fn key_down_goes_through_both_controller_maps() {
    let mut key_map_1 = HashMap::new();
    key_map_1.insert(10, UserInput::Nes(a_button()));
    let mut key_map_2 = HashMap::new();
    key_map_2.insert(10, UserInput::Nes(a_button()));
    let mut system = HashMap::new();
    system.insert(11, UserInput::Pause);
    let empty = HashMap::new();
    let out = parse_user_input(&key_map_1, &key_map_2, &system, &empty, &empty, &empty, InputEvent::KeyDown {
        keycode: Some(10),
    });
    assert_eq!(out, vec![
        UserInput::NesFull(ControllerInput::Controller2(true, a_button())),
        UserInput::NesFull(ControllerInput::Controller1(true, a_button())),
    ]);
    let out = parse_user_input(&key_map_1, &key_map_2, &system, &empty, &empty, &empty, InputEvent::KeyDown {
        keycode: Some(11),
    });
    assert_eq!(out, vec![UserInput::Pause]);
    // releases ignore the system map
    let out = parse_user_input(&key_map_1, &key_map_2, &system, &empty, &empty, &empty, InputEvent::KeyUp {
        keycode: Some(11),
    });
    assert!(out.is_empty());
}

#[test]
fn window_close_and_quit_become_exit() {
    let empty = HashMap::new();
    let out = parse_user_input(&empty, &empty, &empty, &empty, &empty, &empty, InputEvent::WindowClose { window_id: 4 });
    assert_eq!(out, vec![UserInput::Exit { window_id: 4 }]);
    let out = parse_user_input(&empty, &empty, &empty, &empty, &empty, &empty, InputEvent::Quit);
    assert_eq!(out, vec![UserInput::Exit { window_id: 0 }]);
}

#[test]
fn gamepad_one_uses_the_second_controller_map() {
    let mut pad_2 = HashMap::new();
    pad_2.insert(3, UserInput::Nes(a_button()));
    let empty = HashMap::new();
    let out = parse_user_input(&empty, &empty, &empty, &empty, &pad_2, &empty, InputEvent::ControllerButtonUp {
        button: 3,
        which: 1,
    });
    assert_eq!(out, vec![UserInput::NesFull(ControllerInput::Controller2(false, a_button()))]);
}

#[test]
fn speed_stays_between_1_and_50() {
    let mut s = state();
    assert_eq!(handle_user_input(&UserInput::SlowDown, &mut s, 0, &windows()), FrontEndEffect::SetSpeed(1));
    assert_eq!(handle_user_input(&UserInput::FastForward, &mut s, 0, &windows()), FrontEndEffect::SetSpeed(2));
    s.actions.speed_multiplier = 50;
    assert_eq!(handle_user_input(&UserInput::FastForward, &mut s, 0, &windows()), FrontEndEffect::SetSpeed(50));
    assert_eq!(s.actions.speed_multiplier, 50);
}

#[test]
fn recording_and_replay_exclude_each_other() {
    let mut s = state();
    assert_eq!(handle_user_input(&UserInput::RecordInput, &mut s, 0, &windows()), FrontEndEffect::Nothing);
    assert!(s.actions.record_input);
    assert_eq!(handle_user_input(&UserInput::ReplayInput, &mut s, 0, &windows()), FrontEndEffect::Nothing);
    assert!(!s.actions.replay_input);
    assert_eq!(handle_user_input(&UserInput::RecordInput, &mut s, 0, &windows()), FrontEndEffect::SaveInputRecording);
    assert!(!s.actions.record_input);
    assert_eq!(handle_user_input(&UserInput::ReplayInput, &mut s, 0, &windows()), FrontEndEffect::LoadInputReplay);
    assert!(s.actions.replay_input);
}

#[test]
fn rewind_slot_moves_within_the_buffer_and_loads() {
    let mut s = state();
    handle_user_input(&UserInput::RewindView, &mut s, 3, &windows());
    assert!(s.actions.rewind_mode && s.actions.pause);
    for _ in 0..5 {
        handle_user_input(&UserInput::RewindLeft, &mut s, 3, &windows());
    }
    assert_eq!(s.rewind_slot, 2);
    handle_user_input(&UserInput::RewindRight, &mut s, 3, &windows());
    assert_eq!(s.rewind_slot, 1);
    assert_eq!(handle_user_input(&UserInput::RewindLoad, &mut s, 3, &windows()), FrontEndEffect::LoadRewindSlot(1));
    assert!(!s.actions.rewind_mode && !s.actions.pause);
    assert_eq!(s.rewind_slot, 0);
}

#[test]
fn closing_windows_hides_views_or_quits() {
    let mut s = state();
    s.actions.show_sprites = true;
    handle_user_input(&UserInput::Exit { window_id: 4 }, &mut s, 0, &windows());
    assert!(!s.actions.show_sprites);
    assert!(!s.actions.should_quit);
    handle_user_input(&UserInput::Exit { window_id: 1 }, &mut s, 0, &windows());
    assert!(s.actions.should_quit);
}

#[test]
fn controller_inputs_are_queued_recorded_and_replayed() {
    let mut s = state();
    let press = ControllerInput::Controller1(true, a_button());
    handle_user_input(&UserInput::NesFull(press), &mut s, 0, &windows());
    s.actions.record_input = true;
    let mut replay = Vec::new();
    let mut recording = Vec::new();
    let out = controller_inputs_for_cycle(&mut s, &mut replay, &mut recording, 7);
    assert_eq!(out, vec![press]);
    assert_eq!(recording, vec![ButtonPress { button: press, cycle: 7 }]);
    assert!(s.nes_controller_input.is_empty());

    s.actions.record_input = false;
    s.actions.replay_input = true;
    let mut replay = vec![ButtonPress { button: press, cycle: 20 }];
    assert!(controller_inputs_for_cycle(&mut s, &mut replay, &mut recording, 10).is_empty());
    assert_eq!(controller_inputs_for_cycle(&mut s, &mut replay, &mut recording, 20), vec![press]);
    assert!(replay.is_empty());
    assert!(!s.actions.replay_input);
}

#[test]
fn register_input_sets_and_clears_buttons() {
    let mut c1 = Controller::new();
    let mut c2 = Controller::new();
    register_input(&mut c1, &mut c2, ControllerInput::Controller2(true, a_button()));
    assert_eq!(c2.button_state.bits, ControllerButtons::A);
    assert_eq!(c1.button_state.bits, 0);
    register_input(&mut c1, &mut c2, ControllerInput::Controller2(false, a_button()));
    assert_eq!(c2.button_state.bits, 0);
}

#[test]
fn fast_forward_from_any_speed_stays_at_50() {
    let mut s = state();
    s.actions.speed_multiplier = u32::MAX;
    assert_eq!(handle_user_input(&UserInput::FastForward, &mut s, 0, &windows()), FrontEndEffect::SetSpeed(50));
    s.rewind_slot = usize::MAX;
    assert_eq!(handle_user_input(&UserInput::Fps, &mut s, 0, &windows()), FrontEndEffect::Nothing);
}
