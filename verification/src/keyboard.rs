//! Input arbitration: the twelve logical controls, the precedence of physical
//! keys over pointer motion, and the active-low bytes handed to the core.

use vstd::prelude::*;

verus! {

/// Which input source last set a control.
#[derive(Clone, Copy, Debug, PartialEq, Eq, Structural)]
pub enum Provenance {
    /// The control is released.
    Unset,
    /// The control is held by a physical key.
    FromKey,
    /// The control is held by pointer or wheel motion.
    FromPointer,
}

impl Default for Provenance {
    fn default() -> (p: Self)
        ensures
            p == Provenance::Unset,
    {
        Provenance::Unset
    }
}

/// The state of the twelve logical controls.
#[derive(Clone, Copy, Debug, PartialEq, Eq, Structural)]
pub struct PressedButtons {
    pub console1: Provenance,
    pub console2: Provenance,
    pub console3: Provenance,
    pub console4: Provenance,
    pub left: Provenance,
    pub right: Provenance,
    pub backward: Provenance,
    pub forward: Provenance,
    pub anticlock: Provenance,
    pub clock: Provenance,
    pub push: Provenance,
    pub pull: Provenance,
}

/// Key identifier that asks for a hard reset.
pub const RESET_KEY: u8 = 255;

/// The wheel is read on every `WHEEL_DIVISOR`-th refresh.
pub const WHEEL_DIVISOR: u8 = 3;

impl PressedButtons {
    /// Every control released.
    pub open spec fn released() -> PressedButtons {
        PressedButtons {
            console1: Provenance::Unset,
            console2: Provenance::Unset,
            console3: Provenance::Unset,
            console4: Provenance::Unset,
            left: Provenance::Unset,
            right: Provenance::Unset,
            backward: Provenance::Unset,
            forward: Provenance::Unset,
            anticlock: Provenance::Unset,
            clock: Provenance::Unset,
            push: Provenance::Unset,
            pull: Provenance::Unset,
        }
    }

    /// The control that key identifier `code` stands for; identifiers
    /// outside `1..=12` stand for none and read as released.
    pub open spec fn control(self, code: u8) -> Provenance {
        if code == 1 {
            self.console1
        } else if code == 2 {
            self.console2
        } else if code == 3 {
            self.console3
        } else if code == 4 {
            self.console4
        } else if code == 5 {
            self.push
        } else if code == 6 {
            self.pull
        } else if code == 7 {
            self.left
        } else if code == 8 {
            self.right
        } else if code == 9 {
            self.forward
        } else if code == 10 {
            self.backward
        } else if code == 11 {
            self.clock
        } else if code == 12 {
            self.anticlock
        } else {
            Provenance::Unset
        }
    }

    /// These controls with the one that `code` stands for set to `value`;
    /// an identifier outside `1..=12` changes nothing.
    pub open spec fn with_control(self, code: u8, value: Provenance) -> PressedButtons {
        PressedButtons {
            console1: if code == 1 {
                value
            } else {
                self.console1
            },
            console2: if code == 2 {
                value
            } else {
                self.console2
            },
            console3: if code == 3 {
                value
            } else {
                self.console3
            },
            console4: if code == 4 {
                value
            } else {
                self.console4
            },
            left: if code == 7 {
                value
            } else {
                self.left
            },
            right: if code == 8 {
                value
            } else {
                self.right
            },
            backward: if code == 10 {
                value
            } else {
                self.backward
            },
            forward: if code == 9 {
                value
            } else {
                self.forward
            },
            anticlock: if code == 12 {
                value
            } else {
                self.anticlock
            },
            clock: if code == 11 {
                value
            } else {
                self.clock
            },
            push: if code == 5 {
                value
            } else {
                self.push
            },
            pull: if code == 6 {
                value
            } else {
                self.pull
            },
        }
    }

    /// Sets the control that `code` stands for to `value`; an identifier
    /// outside `1..=12` changes nothing.
    pub fn set(&mut self, code: u8, value: Provenance)
        ensures
            *final(self) == old(self).with_control(code, value),
    {
        match code {
            1 => self.console1 = value,
            2 => self.console2 = value,
            3 => self.console3 = value,
            4 => self.console4 = value,
            5 => self.push = value,
            6 => self.pull = value,
            7 => self.left = value,
            8 => self.right = value,
            9 => self.forward = value,
            10 => self.backward = value,
            11 => self.clock = value,
            12 => self.anticlock = value,
            _ => (),
        }
    }
}

impl Default for PressedButtons {
    fn default() -> (buttons: Self)
        ensures
            buttons == PressedButtons::released(),
    {
        PressedButtons {
            console1: Provenance::Unset,
            console2: Provenance::Unset,
            console3: Provenance::Unset,
            console4: Provenance::Unset,
            left: Provenance::Unset,
            right: Provenance::Unset,
            backward: Provenance::Unset,
            forward: Provenance::Unset,
            anticlock: Provenance::Unset,
            clock: Provenance::Unset,
            push: Provenance::Unset,
            pull: Provenance::Unset,
        }
    }
}

/// Whether `code` names one of the twelve controls.
pub open spec fn names_control(code: u8) -> bool {
    1 <= code <= 12
}

/// Whether `code`, the identifier as the host gave it, is one the arbiter
/// accepts: one of the twelve controls or the reset identifier.
pub open spec fn recognized(code: int) -> bool {
    1 <= code <= 12 || code == RESET_KEY
}

/// The key event that a polled pair stands for: the identifier, and a key
/// going down for press type 1, going up for any other. A pair with an
/// identifier that is not recognized stands for no event; it breaks the
/// protocol with the event source.
pub open spec fn key_event(code: int, press_type: int) -> Option<(u8, Provenance)> {
    if recognized(code) {
        Some(
            (
                code as u8,
                if press_type == 1 {
                    Provenance::FromKey
                } else {
                    Provenance::Unset
                },
            ),
        )
    } else {
        None
    }
}

/// Whether a key event asks for a hard reset: the reset identifier, going
/// down.
pub open spec fn is_hard_reset(code: u8, press: Provenance) -> bool {
    code == RESET_KEY && press != Provenance::Unset
}

/// Whether a physical key holds one of the four directional controls.
pub open spec fn directional_locked(buttons: PressedButtons) -> bool {
    ||| buttons.left is FromKey
    ||| buttons.right is FromKey
    ||| buttons.forward is FromKey
    ||| buttons.backward is FromKey
}

/// Whether a physical key holds one of the two rotational controls.
pub open spec fn rotational_locked(buttons: PressedButtons) -> bool {
    buttons.anticlock is FromKey || buttons.clock is FromKey
}

/// Pointer-derived state of the control on the `negative` or positive side
/// of an axis.
pub open spec fn from_motion(delta: int, negative: bool) -> Provenance {
    if (negative && delta < 0) || (!negative && delta > 0) {
        Provenance::FromPointer
    } else {
        Provenance::Unset
    }
}

/// The controls after a pointer delta: untouched while a key holds any
/// direction, else each axis follows the sign of its delta.
pub open spec fn after_pointer(buttons: PressedButtons, x: int, y: int) -> PressedButtons {
    if directional_locked(buttons) {
        buttons
    } else {
        PressedButtons {
            left: from_motion(x, true),
            right: from_motion(x, false),
            forward: from_motion(y, true),
            backward: from_motion(y, false),
            ..buttons
        }
    }
}

/// The controls after a sampled wheel delta: a positive delta turns
/// anticlockwise, a negative one clockwise, zero releases both.
pub open spec fn after_wheel(buttons: PressedButtons, wheel: int) -> PressedButtons {
    PressedButtons {
        anticlock: from_motion(wheel, false),
        clock: from_motion(wheel, true),
        ..buttons
    }
}

/// The controls after a key event.
pub open spec fn after_key(buttons: PressedButtons, code: u8, press: Provenance) -> PressedButtons {
    if is_hard_reset(code, press) {
        PressedButtons::released()
    } else {
        buttons.with_control(code, press)
    }
}

/// What a control adds to an active-low byte: its bit while it is released,
/// nothing while it is held.
pub open spec fn line(control: Provenance, weight: int) -> int {
    if control is Unset {
        weight
    } else {
        0
    }
}

/// The low nibble for the four console buttons, bit `i` low while button
/// `i + 1` is held.
pub open spec fn console_port(buttons: PressedButtons) -> int {
    line(buttons.console1, 1) + line(buttons.console2, 2) + line(buttons.console3, 4) + line(
        buttons.console4,
        8,
    )
}

/// The byte for the eight hand-controller lines, from bit 0 upwards: right,
/// left, backward, forward, anticlockwise, clockwise, pull, push.
pub open spec fn controller_port(buttons: PressedButtons) -> int {
    line(buttons.right, 1) + line(buttons.left, 2) + line(buttons.backward, 4) + line(
        buttons.forward,
        8,
    ) + line(buttons.anticlock, 16) + line(buttons.clock, 32) + line(buttons.pull, 64) + line(
        buttons.push,
        128,
    )
}

/// Encodes the four console buttons as an active-low nibble.
pub fn console_to_port(pressed_buttons: &PressedButtons) -> (value: u8)
    ensures
        value == console_port(*pressed_buttons),
{
    let mut value: u8 = 0b00001111;
    if pressed_buttons.console1 != Provenance::Unset {
        assert(value & 0b00001110 == value - 1) by (bit_vector)
            requires
                value == 0x0f,
        ;
        value &= 0b00001110;
    }
    if pressed_buttons.console2 != Provenance::Unset {
        assert(value & 0b00001101 == value - 2) by (bit_vector)
            requires
                0x0e <= value <= 0x0f,
        ;
        value &= 0b00001101;
    }
    if pressed_buttons.console3 != Provenance::Unset {
        assert(value & 0b00001011 == value - 4) by (bit_vector)
            requires
                0x0c <= value <= 0x0f,
        ;
        value &= 0b00001011;
    }
    if pressed_buttons.console4 != Provenance::Unset {
        assert(value & 0b00000111 == value - 8) by (bit_vector)
            requires
                0x08 <= value <= 0x0f,
        ;
        value &= 0b00000111;
    }
    value
}

/// Encodes the eight hand-controller lines as an active-low byte.
pub fn controller_to_port(pressed_buttons: &PressedButtons) -> (value: u8)
    ensures
        value == controller_port(*pressed_buttons),
{
    let mut value: u8 = 0b11111111;
    if pressed_buttons.right != Provenance::Unset {
        assert(value & 0b11111110 == value - 1) by (bit_vector)
            requires
                value == 0xff,
        ;
        value &= 0b11111110;
    }
    if pressed_buttons.left != Provenance::Unset {
        assert(value & 0b11111101 == value - 2) by (bit_vector)
            requires
                value >= 0xfe,
        ;
        value &= 0b11111101;
    }
    if pressed_buttons.backward != Provenance::Unset {
        assert(value & 0b11111011 == value - 4) by (bit_vector)
            requires
                value >= 0xfc,
        ;
        value &= 0b11111011;
    }
    if pressed_buttons.forward != Provenance::Unset {
        assert(value & 0b11110111 == value - 8) by (bit_vector)
            requires
                value >= 0xf8,
        ;
        value &= 0b11110111;
    }
    if pressed_buttons.anticlock != Provenance::Unset {
        assert(value & 0b11101111 == value - 16) by (bit_vector)
            requires
                value >= 0xf0,
        ;
        value &= 0b11101111;
    }
    if pressed_buttons.clock != Provenance::Unset {
        assert(value & 0b11011111 == value - 32) by (bit_vector)
            requires
                value >= 0xe0,
        ;
        value &= 0b11011111;
    }
    if pressed_buttons.pull != Provenance::Unset {
        assert(value & 0b10111111 == value - 64) by (bit_vector)
            requires
                value >= 0xc0,
        ;
        value &= 0b10111111;
    }
    if pressed_buttons.push != Provenance::Unset {
        assert(value & 0b01111111 == value - 128) by (bit_vector)
            requires
                value >= 0x80,
        ;
        value &= 0b01111111;
    }
    value
}

/// Abstract state of the arbiter.
pub struct KeyboardState {
    /// The twelve controls.
    pub buttons: PressedButtons,
    /// Refreshes counted since the wheel was last read.
    pub cycle: nat,
}

/// What the host hands over on one refresh.
pub struct RefreshInput {
    /// Horizontal pointer delta; only its sign is read.
    pub x: int,
    /// Vertical pointer delta; only its sign is read.
    pub y: int,
    /// Wheel delta, read only on a refresh on which the wheel is due.
    pub wheel: int,
}

/// What reaches the arbiter: the pointer and the wheel on a refresh, a key
/// event on an instruction.
pub enum InputEvent {
    /// A refresh with its pointer and wheel deltas.
    Refresh(RefreshInput),
    /// A key event: identifier and new state of the key.
    Key(u8, Provenance),
}

/// Whether the wheel is read on the next refresh: no key holds a rotational
/// control and this is the `WHEEL_DIVISOR`-th refresh since the last read.
pub open spec fn wheel_due(state: KeyboardState) -> bool {
    !rotational_locked(state.buttons) && state.cycle + 1 == WHEEL_DIVISOR
}

/// The state after the wheel's turn on a refresh.
pub open spec fn wheel_tick(state: KeyboardState, wheel: int) -> KeyboardState {
    if rotational_locked(state.buttons) {
        state
    } else if state.cycle + 1 == WHEEL_DIVISOR {
        KeyboardState { buttons: after_wheel(state.buttons, wheel), cycle: 0 }
    } else {
        KeyboardState { buttons: state.buttons, cycle: state.cycle + 1 }
    }
}

/// The state after a whole refresh: the pointer first, then the wheel.
pub open spec fn refresh_tick(state: KeyboardState, input: RefreshInput) -> KeyboardState {
    let moved = KeyboardState {
        buttons: after_pointer(state.buttons, input.x, input.y),
        cycle: state.cycle,
    };
    wheel_tick(moved, input.wheel)
}

/// The state after one event.
pub open spec fn after_event(state: KeyboardState, event: InputEvent) -> KeyboardState {
    match event {
        InputEvent::Refresh(input) => refresh_tick(state, input),
        InputEvent::Key(code, press) => KeyboardState {
            buttons: after_key(state.buttons, code, press),
            cycle: state.cycle,
        },
    }
}

/// The three bytes driven into the core's input ports on an instruction.
#[derive(Clone, Copy, Debug, PartialEq, Eq, Structural)]
pub struct InputPorts {
    /// Port 0: the core's high nibble kept, the console buttons below it.
    pub console: u8,
    /// Port 1: the eight hand-controller lines.
    pub controller: u8,
    /// Port 4: held at all-ones while the core listens, at zero while it
    /// writes to video.
    pub held: u8,
}

/// Bit 6 of port 0 on either side of the bus: the core is writing to video.
pub open spec fn writing_video(cpu_port0: u8, port0: u8) -> bool {
    (cpu_port0 | port0) & 0b01000000 != 0
}

/// The bytes for the input ports: the two button bytes follow the controls
/// on every instruction; the third port is zero while the core writes to
/// video and all-ones otherwise.
pub open spec fn input_ports(buttons: PressedButtons, port0: u8, cpu_port0: u8) -> InputPorts {
    let console = (port0 & 0b11110000) | (console_port(buttons) as u8);
    InputPorts {
        console,
        controller: controller_port(buttons) as u8,
        held: if writing_video(cpu_port0, console) {
            0
        } else {
            0b11111111
        },
    }
}

/// The input arbiter.
pub struct Keyboard {
    pressed_buttons: PressedButtons,
    cycle_count: u8,
}

impl View for Keyboard {
    type V = KeyboardState;

    closed spec fn view(&self) -> KeyboardState {
        KeyboardState { buttons: self.pressed_buttons, cycle: self.cycle_count as nat }
    }
}

impl Keyboard {
    #[verifier::type_invariant]
    spec fn counts_below_divisor(self) -> bool {
        self.cycle_count < WHEEL_DIVISOR
    }

    /// An arbiter with every control released.
    pub fn new() -> (keyboard: Self)
        ensures
            keyboard@ == (KeyboardState { buttons: PressedButtons::released(), cycle: 0 }),
    {
        Keyboard { pressed_buttons: PressedButtons::default(), cycle_count: 0 }
    }

    /// The current state of the controls.
    pub fn pressed_buttons(&self) -> (buttons: PressedButtons)
        ensures
            buttons == self@.buttons,
    {
        self.pressed_buttons
    }

    /// Refreshes counted since the wheel was last read; always below
    /// [`WHEEL_DIVISOR`].
    pub fn cycle_count(&self) -> (count: u8)
        ensures
            count == self@.cycle,
            count < WHEEL_DIVISOR,
    {
        proof {
            use_type_invariant(self);
        }
        self.cycle_count
    }

    /// Decodes a polled pair, each number as the host gave it: `press_type`
    /// 1 is a key going down, anything else a key going up. Returns `None`
    /// for an identifier that is not recognized, whatever its size: the
    /// host must treat that as fatal.
    pub fn get_keypress(code: i64, press_type: i64) -> (event: Option<(u8, Provenance)>)
        ensures
            event == key_event(code as int, press_type as int),
            event matches Some((scan_code, _)) ==> scan_code == code && recognized(
                scan_code as int,
            ),
    {
        if !Self::is_recognized(code) {
            return None;
        }
        if press_type == 1 {
            Some((code as u8, Provenance::FromKey))
        } else {
            Some((code as u8, Provenance::Unset))
        }
    }

    /// Whether `code`, the identifier as the host gave it, is one that
    /// [`Keyboard::press`] accepts.
    pub fn is_recognized(code: i64) -> (known: bool)
        ensures
            known == recognized(code as int),
    {
        (1 <= code && code <= 12) || code == 255
    }

    /// The bytes for the core's input ports, from the controls as they stand,
    /// the board's port 0 and the processor's port 0.
    pub fn run_cycle(&self, port0: u8, cpu_port0: u8) -> (ports: InputPorts)
        ensures
            ports == input_ports(self@.buttons, port0, cpu_port0),
    {
        let console: u8 = (port0 & 0b11110000) | console_to_port(&self.pressed_buttons);
        let controller: u8 = controller_to_port(&self.pressed_buttons);
        if (cpu_port0 | console) & 0b01000000 == 0 {
            InputPorts { console, controller, held: 0b11111111 }
        } else {
            InputPorts { console, controller, held: 0 }
        }
    }

    /// Applies a pointer delta to the directional controls.
    pub fn move_pointer(&mut self, x: i32, y: i32)
        ensures
            final(self)@ == (KeyboardState {
                buttons: after_pointer(old(self)@.buttons, x as int, y as int),
                cycle: old(self)@.cycle,
            }),
    {
        let mut buttons = self.pressed_buttons;
        if buttons.left != Provenance::FromKey && buttons.right != Provenance::FromKey
            && buttons.forward != Provenance::FromKey && buttons.backward
            != Provenance::FromKey {
            if x < 0 {
                buttons.left = Provenance::FromPointer;
                buttons.right = Provenance::Unset;
            } else if x > 0 {
                buttons.left = Provenance::Unset;
                buttons.right = Provenance::FromPointer;
            } else {
                buttons.left = Provenance::Unset;
                buttons.right = Provenance::Unset;
            }
            if y < 0 {
                buttons.forward = Provenance::FromPointer;
                buttons.backward = Provenance::Unset;
            } else if y > 0 {
                buttons.forward = Provenance::Unset;
                buttons.backward = Provenance::FromPointer;
            } else {
                buttons.forward = Provenance::Unset;
                buttons.backward = Provenance::Unset;
            }
        }
        proof {
            use_type_invariant(&*self);
        }
        self.pressed_buttons = buttons;
    }

    /// Whether the next refresh reads the wheel. The host polls the wheel
    /// only when this holds, so that deltas between reads are not lost.
    pub fn wheel_due(&self) -> (due: bool)
        ensures
            due == wheel_due(self@),
    {
        proof {
            use_type_invariant(self);
        }
        self.pressed_buttons.anticlock != Provenance::FromKey && self.pressed_buttons.clock
            != Provenance::FromKey && self.cycle_count + 1 == WHEEL_DIVISOR
    }

    /// Counts one refresh for the wheel and, when it is due, applies `wheel`
    /// to the rotational controls.
    pub fn turn_wheel(&mut self, wheel: i32)
        ensures
            final(self)@ == wheel_tick(old(self)@, wheel as int),
    {
        proof {
            use_type_invariant(&*self);
        }
        if self.pressed_buttons.anticlock != Provenance::FromKey && self.pressed_buttons.clock
            != Provenance::FromKey {
            let count: u8 = self.cycle_count + 1;
            if count == WHEEL_DIVISOR {
                if wheel > 0 {
                    self.pressed_buttons.anticlock = Provenance::FromPointer;
                    self.pressed_buttons.clock = Provenance::Unset;
                } else if wheel < 0 {
                    self.pressed_buttons.anticlock = Provenance::Unset;
                    self.pressed_buttons.clock = Provenance::FromPointer;
                } else {
                    self.pressed_buttons.anticlock = Provenance::Unset;
                    self.pressed_buttons.clock = Provenance::Unset;
                }
                self.cycle_count = 0;
            } else {
                self.cycle_count = count;
            }
        }
    }

    /// Applies a key event. Returns whether the core must be reset.
    pub fn press(&mut self, scan_code: u8, press_type: Provenance) -> (reset: bool)
        requires
            recognized(scan_code as int),
        ensures
            reset == is_hard_reset(scan_code, press_type),
            final(self)@ == (KeyboardState {
                buttons: after_key(old(self)@.buttons, scan_code, press_type),
                cycle: old(self)@.cycle,
            }),
    {
        proof {
            use_type_invariant(&*self);
        }
        if scan_code == RESET_KEY && press_type != Provenance::Unset {
            self.pressed_buttons = PressedButtons::default();
            true
        } else {
            let mut buttons = self.pressed_buttons;
            buttons.set(scan_code, press_type);
            self.pressed_buttons = buttons;
            false
        }
    }

    /// One refresh of the arbiter: the pointer delta, then the wheel's
    /// turn. `wheel` is read only if the wheel is due.
    pub fn run_refresh_cycle(&mut self, x: i32, y: i32, wheel: i32)
        ensures
            final(self)@ == refresh_tick(
                old(self)@,
                (RefreshInput { x: x as int, y: y as int, wheel: wheel as int }),
            ),
    {
        self.move_pointer(x, y);
        self.turn_wheel(wheel);
    }
}

/// The state after a run of events, oldest first.
pub open spec fn after_events(state: KeyboardState, events: Seq<InputEvent>) -> KeyboardState
    decreases events.len(),
{
    if events.len() == 0 {
        state
    } else {
        after_event(after_events(state, events.drop_last()), events.last())
    }
}

/// How many events of a run are refreshes.
pub open spec fn refreshes(events: Seq<InputEvent>) -> nat
    decreases events.len(),
{
    if events.len() == 0 {
        0
    } else {
        refreshes(events.drop_last()) + if events.last() is Refresh {
            1nat
        } else {
            0nat
        }
    }
}

/// How many refreshes of a run read the wheel.
pub open spec fn wheel_reads(state: KeyboardState, events: Seq<InputEvent>) -> nat
    decreases events.len(),
{
    if events.len() == 0 {
        0
    } else {
        let before = after_events(state, events.drop_last());
        wheel_reads(state, events.drop_last()) + if events.last() is Refresh && wheel_due(
            before,
        ) {
            1nat
        } else {
            0nat
        }
    }
}

/// Whether an event is a key taking hold of a rotational control.
pub open spec fn grabs_rotation(event: InputEvent) -> bool {
    event matches InputEvent::Key(code, press) && (code == 11 || code == 12) && press is FromKey
}

/// The weight of the console-port bit driven by the control that `code`
/// names; 0 for the controls on the other port.
pub open spec fn console_weight(code: u8) -> int {
    if code == 1 {
        1
    } else if code == 2 {
        2
    } else if code == 3 {
        4
    } else if code == 4 {
        8
    } else {
        0
    }
}

/// The weight of the controller-port bit driven by the control that `code`
/// names; 0 for the console buttons.
pub open spec fn controller_weight(code: u8) -> int {
    if code == 8 {
        1
    } else if code == 7 {
        2
    } else if code == 10 {
        4
    } else if code == 9 {
        8
    } else if code == 12 {
        16
    } else if code == 11 {
        32
    } else if code == 6 {
        64
    } else if code == 5 {
        128
    } else {
        0
    }
}

/// A control reads back what it was set to.
proof fn lemma_set_then_read(buttons: PressedButtons, code: u8, value: Provenance)
    requires
        names_control(code),
    ensures
        buttons.with_control(code, value).control(code) == value,
{
}

/// Setting a control twice is setting it to the second value.
proof fn lemma_set_twice(buttons: PressedButtons, code: u8, first: Provenance, second: Provenance)
    ensures
        buttons.with_control(code, first).with_control(code, second) == buttons.with_control(
            code,
            second,
        ),
{
}

/// A held console button takes exactly its own bit out of the console
/// nibble.
proof fn lemma_held_button_pulls_low(buttons: PressedButtons, code: u8, held: Provenance)
    requires
        names_control(code),
        held != Provenance::Unset,
    ensures
        console_port(buttons.with_control(code, Provenance::Unset)) == console_port(
            buttons.with_control(code, held),
        ) + console_weight(code),
{
}

/// A held controller line takes exactly its own bit out of the controller
/// byte.
proof fn lemma_held_line_pulls_low(buttons: PressedButtons, code: u8, held: Provenance)
    requires
        names_control(code),
        held != Provenance::Unset,
    ensures
        controller_port(buttons.with_control(code, Provenance::Unset)) == controller_port(
            buttons.with_control(code, held),
        ) + controller_weight(code),
{
}

/// A key that goes down and comes up again leaves its control released and
/// every other control as it was, and the control's bit in the port bytes,
/// low while the key was down, is high again.
pub proof fn lemma_key_down_up_releases(buttons: PressedButtons, code: u8)
    requires
        names_control(code),
    ensures
        ({
            let down = after_key(buttons, code, Provenance::FromKey);
            let up = after_key(down, code, Provenance::Unset);
            &&& down.control(code) is FromKey
            &&& up.control(code) is Unset
            &&& up == buttons.with_control(code, Provenance::Unset)
            &&& console_port(up) == console_port(down) + console_weight(code)
            &&& controller_port(up) == controller_port(down) + controller_weight(code)
        }),
{
    let down = buttons.with_control(code, Provenance::FromKey);
    let up = buttons.with_control(code, Provenance::Unset);
    assert(after_key(down, code, Provenance::Unset) == up) by {
        lemma_set_twice(buttons, code, Provenance::FromKey, Provenance::Unset);
    }
    assert(down.control(code) is FromKey && up.control(code) is Unset) by {
        lemma_set_then_read(buttons, code, Provenance::FromKey);
        lemma_set_then_read(buttons, code, Provenance::Unset);
    }
    lemma_held_button_pulls_low(buttons, code, Provenance::FromKey);
    lemma_held_line_pulls_low(buttons, code, Provenance::FromKey);
}

/// The reset identifier going down releases every control, whatever was
/// held, drives every port bit high and asks for a reset of the core.
pub proof fn lemma_hard_reset_clears(buttons: PressedButtons, press: Provenance)
    requires
        press != Provenance::Unset,
    ensures
        is_hard_reset(RESET_KEY, press),
        after_key(buttons, RESET_KEY, press) == PressedButtons::released(),
        forall|code: u8| #[trigger] after_key(buttons, RESET_KEY, press).control(code) is Unset,
        console_port(after_key(buttons, RESET_KEY, press)) == 0b00001111,
        controller_port(after_key(buttons, RESET_KEY, press)) == 0b11111111,
{
}

/// Pointer motion never takes a directional control away from a key: while
/// a key holds any direction the pointer changes nothing, and it never
/// touches the other eight controls.
pub proof fn lemma_pointer_respects_keys(buttons: PressedButtons, x: int, y: int)
    ensures
        directional_locked(buttons) ==> after_pointer(buttons, x, y) == buttons,
        forall|code: u8| #[trigger]
            buttons.control(code) is FromKey ==> after_pointer(buttons, x, y).control(
                code,
            ) is FromKey,
        forall|code: u8|
            !(7 <= code <= 10) ==> #[trigger] after_pointer(buttons, x, y).control(code)
                == buttons.control(code),
{
}

/// A whole refresh leaves every key-held control with its key.
pub proof fn lemma_refresh_respects_keys(state: KeyboardState, input: RefreshInput, code: u8)
    requires
        state.buttons.control(code) is FromKey,
    ensures
        refresh_tick(state, input).buttons.control(code) is FromKey,
{
}

/// On a refresh that does not read the wheel, the rotational controls keep
/// their state.
pub proof fn lemma_rotation_holds_between_reads(state: KeyboardState, input: RefreshInput)
    requires
        !wheel_due(state),
    ensures
        refresh_tick(state, input).buttons.anticlock == state.buttons.anticlock,
        refresh_tick(state, input).buttons.clock == state.buttons.clock,
{
}

/// An event that is no key taking hold of a rotational control leaves the
/// rotational controls free, and advances the wheel's cycle by one if it is
/// a refresh.
proof fn lemma_event_advances_cycle(state: KeyboardState, event: InputEvent)
    requires
        state.cycle < WHEEL_DIVISOR,
        !rotational_locked(state.buttons),
        !grabs_rotation(event),
    ensures
        !rotational_locked(after_event(state, event).buttons),
        event is Refresh ==> after_event(state, event).cycle == (state.cycle + 1) % (
        WHEEL_DIVISOR as nat),
        !(event is Refresh) ==> after_event(state, event).cycle == state.cycle,
        wheel_due(state) <==> state.cycle + 1 == WHEEL_DIVISOR,
{
}

/// Across a run of events in which no key takes hold of a rotational
/// control, the wheel is read on every third refresh and on no other:
/// counted from a fresh cycle, `n` refreshes read it `n / 3` times.
pub proof fn lemma_wheel_read_every_third(state: KeyboardState, events: Seq<InputEvent>)
    requires
        state.cycle < WHEEL_DIVISOR,
        !rotational_locked(state.buttons),
        forall|i: int| 0 <= i < events.len() ==> !grabs_rotation(#[trigger] events[i]),
    ensures
        wheel_reads(state, events) == (state.cycle + refreshes(events)) / (WHEEL_DIVISOR as nat),
        after_events(state, events).cycle == (state.cycle + refreshes(events)) % (
        WHEEL_DIVISOR as nat),
        !rotational_locked(after_events(state, events).buttons),
    decreases events.len(),
{
    if events.len() > 0 {
        let earlier = events.drop_last();
        lemma_wheel_read_every_third(state, earlier);
        lemma_event_advances_cycle(after_events(state, earlier), events.last());
    }
}

} // verus!
