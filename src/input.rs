use vstd::prelude::*;

verus! {

/// An axis counts as pushed past this value, in thousandths of full travel.
pub const AXIS_THRESHOLD: i32 = 500;

/// The actions asked for on one tick.
#[derive(Clone, Copy, Debug, PartialEq, Eq, Structural)]
pub struct Controller {
    pub left: bool,
    pub right: bool,
    pub rotate_left: bool,
    pub rotate_right: bool,
    pub rotate_180: bool,
    pub hard_drop: bool,
    pub soft_drop: bool,
    pub hold: bool,
}

/// A gamepad input that can be bound to an action: a button, or an axis
/// pushed one way. Buttons and axes go by the codes the gamepad layer gives
/// them.
#[derive(Clone, Copy, Debug, PartialEq, Eq, Structural)]
pub enum GamepadControl {
    Button(u32),
    NegativeAxis(u32),
    PositiveAxis(u32),
}

/// One binding for each action, and one for the reset gesture.
#[derive(Clone, Copy, Debug, PartialEq, Eq)]
pub struct Config<T> {
    pub left: T,
    pub right: T,
    pub rotate_left: T,
    pub rotate_right: T,
    pub rotate_180: T,
    pub hard_drop: T,
    pub soft_drop: T,
    pub hold: T,
    pub reset: T,
}

/// What a connected gamepad reports: the buttons held down, and each axis
/// with its position in thousandths of full travel (negative one way,
/// positive the other).
#[derive(Clone, Debug)]
pub struct GamepadState {
    pub buttons: Vec<u32>,
    pub axes: Vec<(u32, i32)>,
}

/// The input devices at one instant: the keys held down, by key code, and
/// the gamepad if one is connected.
#[derive(Clone, Debug)]
pub struct DeviceState {
    pub keys: Vec<u32>,
    pub gamepad: Option<GamepadState>,
}

/// The gamepad control is active.
pub open spec fn control_active(g: GamepadState, c: GamepadControl) -> bool {
    match c {
        GamepadControl::Button(b) => g.buttons@.contains(b),
        GamepadControl::PositiveAxis(a) => exists|i: int|
            0 <= i < g.axes@.len() && (#[trigger] g.axes@[i]).0 == a && g.axes@[i].1
                > AXIS_THRESHOLD,
        GamepadControl::NegativeAxis(a) => exists|i: int|
            0 <= i < g.axes@.len() && (#[trigger] g.axes@[i]).0 == a && g.axes@[i].1
                < -AXIS_THRESHOLD,
    }
}

/// The action bound to `key` and `control` is asked for: the key is down,
/// or a gamepad is connected and the control is active on it.
pub open spec fn input_pressed(d: DeviceState, key: u32, control: GamepadControl) -> bool {
    d.keys@.contains(key) || (d.gamepad is Some && control_active(d.gamepad.unwrap(), control))
}

/// A player's bindings, on the keyboard and on a gamepad.
#[derive(Clone, Copy, Debug)]
pub struct UserInput {
    pub keyboard: Config<u32>,
    pub gamepad: Config<GamepadControl>,
}

/// The actions the bindings read from the devices.
pub open spec fn controller_of(u: UserInput, d: DeviceState) -> Controller {
    Controller {
        left: input_pressed(d, u.keyboard.left, u.gamepad.left),
        right: input_pressed(d, u.keyboard.right, u.gamepad.right),
        rotate_left: input_pressed(d, u.keyboard.rotate_left, u.gamepad.rotate_left),
        rotate_right: input_pressed(d, u.keyboard.rotate_right, u.gamepad.rotate_right),
        rotate_180: input_pressed(d, u.keyboard.rotate_180, u.gamepad.rotate_180),
        hard_drop: input_pressed(d, u.keyboard.hard_drop, u.gamepad.hard_drop),
        soft_drop: input_pressed(d, u.keyboard.soft_drop, u.gamepad.soft_drop),
        hold: input_pressed(d, u.keyboard.hold, u.gamepad.hold),
    }
}

/// Something that turns the state of the input devices into actions each
/// tick: the player's bindings, or a scripted driver.
pub trait InputSource {
    /// The actions asked for.
    fn controller(&self, device: &DeviceState) -> Controller;

    /// Whether the reset action is held.
    fn reset_held(&self, device: &DeviceState) -> bool;
}

/// A change in which gamepads are connected, by gamepad id.
#[derive(Clone, Copy, Debug, PartialEq, Eq, Structural)]
pub enum GamepadEvent {
    Connected(usize),
    Disconnected(usize),
    /// Any other gamepad event; it does not change which pad is used.
    Other,
}

/// The gamepad in use after an event: the first to connect is taken while
/// none is in use, and it is dropped when it disconnects.
pub open spec fn gamepad_after(current: Option<usize>, e: GamepadEvent) -> Option<usize> {
    match e {
        GamepadEvent::Connected(id) => if current is None {
            Some(id)
        } else {
            current
        },
        GamepadEvent::Disconnected(id) => if current == Some(id) {
            None
        } else {
            current
        },
        GamepadEvent::Other => current,
    }
}

/// Follows the gamepad in use through the pending gamepad events, in order.
pub fn track_gamepad(current: Option<usize>, events: &Vec<GamepadEvent>) -> (r: Option<usize>)
    ensures
        r == gamepads_after(current, events@),
{
    let mut pad = current;
    let mut i: usize = 0;
    while i < events.len()
        invariant
            i <= events@.len(),
            pad == gamepads_after(current, events@.take(i as int)),
        decreases events@.len() - i,
    {
        pad = match events[i] {
            GamepadEvent::Connected(id) => if pad.is_none() {
                Some(id)
            } else {
                pad
            },
            GamepadEvent::Disconnected(id) => if pad == Some(id) {
                None
            } else {
                pad
            },
            GamepadEvent::Other => pad,
        };
        assert(events@.take(i + 1).drop_last() =~= events@.take(i as int));
        i += 1;
    }
    assert(events@.take(events@.len() as int) =~= events@);
    pad
}

/// The gamepad in use after a sequence of events.
pub open spec fn gamepads_after(current: Option<usize>, es: Seq<GamepadEvent>) -> Option<usize>
    decreases es.len(),
{
    if es.len() == 0 {
        current
    } else {
        gamepad_after(gamepads_after(current, es.drop_last()), es.last())
    }
}

fn contains_code(codes: &Vec<u32>, code: u32) -> (r: bool)
    ensures
        r == codes@.contains(code),
{
    let mut i: usize = 0;
    while i < codes.len()
        invariant
            i <= codes@.len(),
            forall|j: int| 0 <= j < i ==> codes@[j] != code,
        decreases codes@.len() - i,
    {
        if codes[i] == code {
            assert(codes@[i as int] == code);
            return true;
        }
        i += 1;
    }
    false
}

fn axis_past(axes: &Vec<(u32, i32)>, axis: u32, positive: bool) -> (r: bool)
    ensures
        positive ==> r == exists|i: int|
            0 <= i < axes@.len() && (#[trigger] axes@[i]).0 == axis && axes@[i].1 > AXIS_THRESHOLD,
        !positive ==> r == exists|i: int|
            0 <= i < axes@.len() && (#[trigger] axes@[i]).0 == axis && axes@[i].1
                < -AXIS_THRESHOLD,
{
    let mut i: usize = 0;
    while i < axes.len()
        invariant
            i <= axes@.len(),
            forall|j: int|
                0 <= j < i ==> !((#[trigger] axes@[j]).0 == axis && (if positive {
                    axes@[j].1 > AXIS_THRESHOLD
                } else {
                    axes@[j].1 < -AXIS_THRESHOLD
                })),
        decreases axes@.len() - i,
    {
        let (a, v) = axes[i];
        if a == axis && (if positive {
            v > AXIS_THRESHOLD
        } else {
            v < -AXIS_THRESHOLD
        }) {
            return true;
        }
        i += 1;
    }
    false
}

impl UserInput {
    /// Whether the action bound to `keyboard` and `gamepad` is asked for.
    pub fn read_input(&self, device: &DeviceState, keyboard: u32, gamepad: GamepadControl) -> (r:
        bool)
        ensures
            r == input_pressed(*device, keyboard, gamepad),
    {
        if contains_code(&device.keys, keyboard) {
            return true;
        }
        match &device.gamepad {
            None => false,
            Some(g) => match gamepad {
                GamepadControl::Button(b) => contains_code(&g.buttons, b),
                GamepadControl::PositiveAxis(a) => axis_past(&g.axes, a, true),
                GamepadControl::NegativeAxis(a) => axis_past(&g.axes, a, false),
            },
        }
    }

    /// The actions the bindings read from the devices.
    pub fn controller(&self, device: &DeviceState) -> (r: Controller)
        ensures
            r == controller_of(*self, *device),
    {
        Controller {
            left: self.read_input(device, self.keyboard.left, self.gamepad.left),
            right: self.read_input(device, self.keyboard.right, self.gamepad.right),
            rotate_left: self.read_input(device, self.keyboard.rotate_left, self.gamepad.rotate_left),
            rotate_right: self.read_input(
                device,
                self.keyboard.rotate_right,
                self.gamepad.rotate_right,
            ),
            rotate_180: self.read_input(device, self.keyboard.rotate_180, self.gamepad.rotate_180),
            hard_drop: self.read_input(device, self.keyboard.hard_drop, self.gamepad.hard_drop),
            soft_drop: self.read_input(device, self.keyboard.soft_drop, self.gamepad.soft_drop),
            hold: self.read_input(device, self.keyboard.hold, self.gamepad.hold),
        }
    }

    /// Whether the reset action is held.
    pub fn reset_held(&self, device: &DeviceState) -> (r: bool)
        ensures
            r == input_pressed(*device, self.keyboard.reset, self.gamepad.reset),
    {
        self.read_input(device, self.keyboard.reset, self.gamepad.reset)
    }
}

impl InputSource for UserInput {
    fn controller(&self, device: &DeviceState) -> Controller {
        UserInput::controller(self, device)
    }

    fn reset_held(&self, device: &DeviceState) -> bool {
        UserInput::reset_held(self, device)
    }
}

} // verus!
