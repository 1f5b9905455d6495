use ves_host::keyboard::{
    console_to_port, controller_to_port, InputPorts, Keyboard, PressedButtons, Provenance,
    RESET_KEY,
};

fn released() -> PressedButtons {
    PressedButtons::default()
}

#[test]
fn new_keyboard_has_every_control_released() {
    let keyboard = Keyboard::new();
    assert_eq!(keyboard.pressed_buttons(), released());
    assert_eq!(keyboard.cycle_count(), 0);
    assert_eq!(Provenance::default(), Provenance::Unset);
    assert_eq!(console_to_port(&released()), 0b0000_1111);
    assert_eq!(controller_to_port(&released()), 0b1111_1111);
}

#[test]
fn each_console_button_pulls_its_own_bit_low() {
    let expected = [0b0000_1110u8, 0b0000_1101, 0b0000_1011, 0b0000_0111];
    for code in 1u8..=4 {
        let mut keyboard = Keyboard::new();
        assert!(!keyboard.press(code, Provenance::FromKey));
        let buttons = keyboard.pressed_buttons();
        assert_eq!(console_to_port(&buttons), expected[(code - 1) as usize]);
        assert_eq!(controller_to_port(&buttons), 0b1111_1111);
    }
}

#[test]
fn each_controller_key_pulls_its_own_bit_low() {
    // push, pull, left, right, forward, backward, clock, anticlock
    let expected = [
        (5u8, 0b0111_1111u8),
        (6, 0b1011_1111),
        (7, 0b1111_1101),
        (8, 0b1111_1110),
        (9, 0b1111_0111),
        (10, 0b1111_1011),
        (11, 0b1101_1111),
        (12, 0b1110_1111),
    ];
    for (code, port) in expected {
        let mut keyboard = Keyboard::new();
        assert!(!keyboard.press(code, Provenance::FromKey));
        let buttons = keyboard.pressed_buttons();
        assert_eq!(controller_to_port(&buttons), port);
        assert_eq!(console_to_port(&buttons), 0b0000_1111);
    }
}

#[test]
fn several_held_controls_combine_in_the_ports() {
    let mut keyboard = Keyboard::new();
    keyboard.press(1, Provenance::FromKey);
    keyboard.press(3, Provenance::FromKey);
    keyboard.press(8, Provenance::FromKey);
    keyboard.press(5, Provenance::FromKey);
    keyboard.press(12, Provenance::FromKey);
    let buttons = keyboard.pressed_buttons();
    assert_eq!(console_to_port(&buttons), 0b0000_1010);
    assert_eq!(controller_to_port(&buttons), 0b0110_1110);
}

#[test]
fn key_down_then_up_releases_the_control() {
    for code in 1u8..=12 {
        let mut keyboard = Keyboard::new();
        keyboard.press(2, Provenance::FromKey);
        keyboard.press(6, Provenance::FromKey);
        let before = keyboard.pressed_buttons();
        let mut without = before;
        without.set(code, Provenance::Unset);

        keyboard.press(code, Provenance::FromKey);
        let down = keyboard.pressed_buttons();
        let mut held = before;
        held.set(code, Provenance::FromKey);
        assert_eq!(down, held);

        keyboard.press(code, Provenance::Unset);
        let up = keyboard.pressed_buttons();
        assert_eq!(up, without);
        assert_eq!(console_to_port(&up), console_to_port(&without));
        assert_eq!(controller_to_port(&up), controller_to_port(&without));
        if code != 2 && code != 6 {
            assert_eq!(up, before);
            assert_ne!(
                (console_to_port(&down), controller_to_port(&down)),
                (console_to_port(&up), controller_to_port(&up))
            );
        }
    }
}

#[test]
fn set_ignores_identifiers_that_name_no_control() {
    let mut buttons = released();
    buttons.set(0, Provenance::FromKey);
    buttons.set(13, Provenance::FromKey);
    buttons.set(255, Provenance::FromKey);
    assert_eq!(buttons, released());
    buttons.set(7, Provenance::FromPointer);
    assert_eq!(buttons.left, Provenance::FromPointer);
}

#[test]
fn pointer_sign_maps_to_directions() {
    let mut keyboard = Keyboard::new();
    keyboard.move_pointer(-3, 0);
    let b = keyboard.pressed_buttons();
    assert_eq!(b.left, Provenance::FromPointer);
    assert_eq!(b.right, Provenance::Unset);
    assert_eq!(b.forward, Provenance::Unset);
    assert_eq!(b.backward, Provenance::Unset);

    keyboard.move_pointer(7, -1);
    let b = keyboard.pressed_buttons();
    assert_eq!(b.left, Provenance::Unset);
    assert_eq!(b.right, Provenance::FromPointer);
    assert_eq!(b.forward, Provenance::FromPointer);
    assert_eq!(b.backward, Provenance::Unset);

    keyboard.move_pointer(0, 2);
    let b = keyboard.pressed_buttons();
    assert_eq!(b.right, Provenance::Unset);
    assert_eq!(b.forward, Provenance::Unset);
    assert_eq!(b.backward, Provenance::FromPointer);
}

#[test]
fn pointer_dead_zone_clears_both_sides() {
    let mut keyboard = Keyboard::new();
    keyboard.move_pointer(i32::MIN, i32::MAX);
    keyboard.move_pointer(0, 0);
    assert_eq!(keyboard.pressed_buttons(), released());
}

#[test]
fn pointer_never_overrides_a_key() {
    for code in 7u8..=10 {
        let mut keyboard = Keyboard::new();
        keyboard.move_pointer(4, 4);
        keyboard.press(code, Provenance::FromKey);
        let held = keyboard.pressed_buttons();
        for (x, y) in [(-1, -1), (1, 1), (0, 0), (-5, 9), (i32::MAX, i32::MIN)] {
            keyboard.move_pointer(x, y);
            assert_eq!(keyboard.pressed_buttons(), held);
            keyboard.run_refresh_cycle(x, y, 0);
            assert_eq!(keyboard.pressed_buttons(), held);
        }
        // after the key comes up the pointer takes over again
        keyboard.press(code, Provenance::Unset);
        keyboard.press(7, Provenance::Unset);
        keyboard.press(8, Provenance::Unset);
        keyboard.press(9, Provenance::Unset);
        keyboard.press(10, Provenance::Unset);
        keyboard.move_pointer(-1, 1);
        let b = keyboard.pressed_buttons();
        assert_eq!(b.left, Provenance::FromPointer);
        assert_eq!(b.backward, Provenance::FromPointer);
    }
}

#[test]
fn wheel_is_read_on_every_third_refresh() {
    let mut keyboard = Keyboard::new();
    let mut reads = 0;
    let mut changes = 0;
    for tick in 1..=30 {
        let due = keyboard.wheel_due();
        assert_eq!(due, tick % 3 == 0);
        let before = keyboard.pressed_buttons();
        // the wheel turns one way and the other in turn, never resting
        let wheel = if (tick / 3) % 2 == 0 { -2 } else { 2 };
        keyboard.run_refresh_cycle(0, 0, wheel);
        let after = keyboard.pressed_buttons();
        if due {
            reads += 1;
        } else {
            assert_eq!(after.anticlock, before.anticlock);
            assert_eq!(after.clock, before.clock);
        }
        if after.anticlock != before.anticlock || after.clock != before.clock {
            changes += 1;
        }
        assert_eq!(keyboard.cycle_count(), (tick % 3) as u8);
    }
    assert_eq!(reads, 10);
    assert_eq!(changes, 10);
}

#[test]
fn wheel_sign_maps_to_rotation() {
    let mut keyboard = Keyboard::new();
    keyboard.turn_wheel(5);
    keyboard.turn_wheel(5);
    assert_eq!(keyboard.pressed_buttons(), released());
    keyboard.turn_wheel(5);
    assert_eq!(keyboard.pressed_buttons().anticlock, Provenance::FromPointer);
    assert_eq!(keyboard.pressed_buttons().clock, Provenance::Unset);
    keyboard.turn_wheel(-1);
    keyboard.turn_wheel(-1);
    keyboard.turn_wheel(-1);
    assert_eq!(keyboard.pressed_buttons().anticlock, Provenance::Unset);
    assert_eq!(keyboard.pressed_buttons().clock, Provenance::FromPointer);
    keyboard.turn_wheel(0);
    keyboard.turn_wheel(0);
    keyboard.turn_wheel(0);
    assert_eq!(keyboard.pressed_buttons(), released());
}

#[test]
fn wheel_waits_while_a_key_holds_rotation() {
    let mut keyboard = Keyboard::new();
    keyboard.turn_wheel(1);
    keyboard.turn_wheel(1);
    assert!(keyboard.wheel_due());
    keyboard.press(11, Provenance::FromKey);
    assert!(!keyboard.wheel_due());
    for _ in 0..5 {
        keyboard.turn_wheel(1);
        assert_eq!(keyboard.cycle_count(), 2);
        assert_eq!(keyboard.pressed_buttons().clock, Provenance::FromKey);
        assert_eq!(keyboard.pressed_buttons().anticlock, Provenance::Unset);
    }
    keyboard.press(11, Provenance::Unset);
    assert!(keyboard.wheel_due());
    keyboard.turn_wheel(1);
    assert_eq!(keyboard.pressed_buttons().anticlock, Provenance::FromPointer);
    assert_eq!(keyboard.cycle_count(), 0);
}

#[test]
fn hard_reset_clears_every_control() {
    let mut keyboard = Keyboard::new();
    for code in 1u8..=12 {
        keyboard.press(code, Provenance::FromKey);
    }
    assert_eq!(console_to_port(&keyboard.pressed_buttons()), 0);
    assert_eq!(controller_to_port(&keyboard.pressed_buttons()), 0);
    let reset = keyboard.press(RESET_KEY, Provenance::FromKey);
    assert!(reset);
    assert_eq!(keyboard.pressed_buttons(), released());
    assert_eq!(console_to_port(&keyboard.pressed_buttons()), 0b0000_1111);
    assert_eq!(controller_to_port(&keyboard.pressed_buttons()), 0b1111_1111);

    let mut keyboard = Keyboard::new();
    keyboard.move_pointer(1, 1);
    keyboard.turn_wheel(1);
    keyboard.press(3, Provenance::FromKey);
    let (code, press) = Keyboard::get_keypress(255, 1).unwrap();
    assert!(keyboard.press(code, press));
    assert_eq!(keyboard.pressed_buttons(), released());
    // the wheel's cycle is no control and goes on
    assert_eq!(keyboard.cycle_count(), 1);
}

#[test]
fn reset_key_going_up_changes_nothing() {
    let mut keyboard = Keyboard::new();
    keyboard.press(4, Provenance::FromKey);
    keyboard.press(9, Provenance::FromKey);
    let before = keyboard.pressed_buttons();
    let reset = keyboard.press(RESET_KEY, Provenance::Unset);
    assert!(!reset);
    assert_eq!(keyboard.pressed_buttons(), before);
}

#[test]
fn refresh_applies_pointer_then_wheel() {
    let mut keyboard = Keyboard::new();
    keyboard.run_refresh_cycle(0, 0, 0);
    keyboard.run_refresh_cycle(0, 0, 0);
    // third refresh: the pointer sets left and backward, the wheel turns
    // clockwise
    keyboard.run_refresh_cycle(-1, 1, -1);
    let b = keyboard.pressed_buttons();
    assert_eq!(b.left, Provenance::FromPointer);
    assert_eq!(b.right, Provenance::Unset);
    assert_eq!(b.backward, Provenance::FromPointer);
    assert_eq!(b.clock, Provenance::FromPointer);
    assert_eq!(b.anticlock, Provenance::Unset);
    assert_eq!(keyboard.cycle_count(), 0);
}

#[test]
fn key_between_refreshes_has_the_last_word() {
    let mut keyboard = Keyboard::new();
    keyboard.run_refresh_cycle(-1, 0, 0);
    assert_eq!(keyboard.pressed_buttons().left, Provenance::FromPointer);
    // the key takes the control over on the instruction it arrives with
    assert!(!keyboard.press(7, Provenance::FromKey));
    assert_eq!(keyboard.pressed_buttons().left, Provenance::FromKey);
    assert_eq!(keyboard.run_cycle(0, 0).controller, 0b1111_1101);
    keyboard.run_refresh_cycle(1, 0, 0);
    assert_eq!(keyboard.pressed_buttons().left, Provenance::FromKey);
    assert_eq!(keyboard.pressed_buttons().right, Provenance::Unset);
    assert!(!keyboard.press(7, Provenance::Unset));
    assert_eq!(keyboard.run_cycle(0, 0).controller, 0b1111_1111);
    keyboard.run_refresh_cycle(1, 0, 0);
    assert_eq!(keyboard.pressed_buttons().right, Provenance::FromPointer);
}

#[test]
fn get_keypress_decodes_the_press_type() {
    assert_eq!(Keyboard::get_keypress(7, 1), Some((7, Provenance::FromKey)));
    assert_eq!(Keyboard::get_keypress(7, 0), Some((7, Provenance::Unset)));
    assert_eq!(Keyboard::get_keypress(255, 1), Some((255, Provenance::FromKey)));
    assert_eq!(Keyboard::get_keypress(255, 2), Some((255, Provenance::Unset)));
    assert_eq!(Keyboard::get_keypress(12, 257), Some((12, Provenance::Unset)));
    assert_eq!(Keyboard::get_keypress(1, -1), Some((1, Provenance::Unset)));
}

#[test]
fn get_keypress_refuses_identifiers_outside_the_set() {
    // 300 is neither the reset identifier nor 44, 263 is not 7
    for code in [0i64, 13, 254, 256, 263, 300, 511, 65_791, -1, -255, i64::MAX, i64::MIN] {
        assert_eq!(Keyboard::get_keypress(code, 1), None, "code {}", code);
        assert_eq!(Keyboard::get_keypress(code, 0), None, "code {}", code);
        assert!(!Keyboard::is_recognized(code));
    }
}

#[test]
fn recognized_identifiers() {
    for code in -600i64..=600 {
        let expected = (1..=12).contains(&code) || code == 255;
        assert_eq!(Keyboard::is_recognized(code), expected, "code {}", code);
        assert_eq!(Keyboard::get_keypress(code, 1).is_some(), expected, "code {}", code);
    }
}

#[test]
fn run_cycle_drives_the_ports_while_the_core_listens() {
    let mut keyboard = Keyboard::new();
    keyboard.press(2, Provenance::FromKey);
    keyboard.press(8, Provenance::FromKey);
    let ports = keyboard.run_cycle(0b1010_0101, 0b0000_0000);
    assert_eq!(
        ports,
        InputPorts { console: 0b1010_1101, controller: 0b1111_1110, held: 0b1111_1111 }
    );
}

#[test]
fn run_cycle_holds_the_third_port_at_zero_while_the_core_writes_video() {
    let mut keyboard = Keyboard::new();
    keyboard.press(2, Provenance::FromKey);
    keyboard.press(8, Provenance::FromKey);
    // bit 6 on the processor's side: the button bytes follow the controls
    // all the same
    let ports = keyboard.run_cycle(0b0000_0000, 0b0100_0000);
    assert_eq!(ports, InputPorts { console: 0b0000_1101, controller: 0b1111_1110, held: 0 });
    // bit 6 on the board's side
    let ports = keyboard.run_cycle(0b0100_1111, 0b0000_0000);
    assert_eq!(ports, InputPorts { console: 0b0100_1101, controller: 0b1111_1110, held: 0 });
    // with every controller line released the byte is all-ones, not zero
    let ports = Keyboard::new().run_cycle(0b0000_0000, 0b0100_0000);
    assert_eq!(ports, InputPorts { console: 0b0000_1111, controller: 0b1111_1111, held: 0 });
    // other bits of the status ports do not count
    let ports = Keyboard::new().run_cycle(0b1011_0000, 0b1011_1111);
    assert_eq!(
        ports,
        InputPorts { console: 0b1011_1111, controller: 0b1111_1111, held: 0b1111_1111 }
    );
}
