use nes_rs::controller::{Controller, ControllerButtons};

#[test]
fn test_strobe_mode() {
    let mut controller = Controller::new();
    controller.write(1);
    controller.set_button_state(true, ControllerButtons::A);
    for _x in 0..10 {
        assert_eq!(controller.read(), 1);
    }
}

#[test]
fn test_strobe_mode_on_off() {
    let mut controller = Controller::new();

    controller.write(0);
    controller.set_button_state(true, ControllerButtons::RIGHT);
    controller.set_button_state(true, ControllerButtons::LEFT);
    controller.set_button_state(true, ControllerButtons::SELECT);
    controller.set_button_state(true, ControllerButtons::B);

    for _ in 0..=4 {
        assert_eq!(controller.read(), 0);
        assert_eq!(controller.read(), 1);
        assert_eq!(controller.read(), 1);
        assert_eq!(controller.read(), 0);
        assert_eq!(controller.read(), 0);
        assert_eq!(controller.read(), 0);
        assert_eq!(controller.read(), 1);
        assert_eq!(controller.read(), 1);

        for _x in 0..10 {
            assert_eq!(controller.read(), 1);
        }
        controller.write(1);
        controller.write(0);
    }
}

#[test]
fn released_button_reads_zero() {
    let mut controller = Controller::new();
    controller.set_button_state(true, ControllerButtons::A);
    controller.set_button_state(false, ControllerButtons::A);
    controller.write(1);
    assert_eq!(controller.read(), 0);
}
