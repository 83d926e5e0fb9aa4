use practris::input::{
    track_gamepad, Config, Controller, DeviceState, GamepadControl, GamepadEvent, GamepadState, InputSource,
    UserInput,
};
use practris::piece::CellColor;
use practris::skin::{color_to_tex_index, Skin};

fn bindings() -> UserInput {
    UserInput {
        keyboard: Config {
            left: 1,
            right: 2,
            rotate_left: 3,
            rotate_right: 4,
            rotate_180: 5,
            hard_drop: 6,
            soft_drop: 7,
            hold: 8,
            reset: 9,
        },
        gamepad: Config {
            left: GamepadControl::Button(11),
            right: GamepadControl::Button(12),
            rotate_left: GamepadControl::NegativeAxis(0),
            rotate_right: GamepadControl::PositiveAxis(0),
            rotate_180: GamepadControl::Button(15),
            hard_drop: GamepadControl::Button(16),
            soft_drop: GamepadControl::Button(17),
            hold: GamepadControl::Button(18),
            reset: GamepadControl::Button(19),
        },
    }
}

#[test]
fn keyboard_only() {
    let u = bindings();
    let d = DeviceState { keys: vec![1, 6, 42], gamepad: None };
    let c = u.controller(&d);
    assert_eq!(
        c,
        Controller {
            left: true,
            right: false,
            rotate_left: false,
            rotate_right: false,
            rotate_180: false,
            hard_drop: true,
            soft_drop: false,
            hold: false,
        }
    );
    assert!(!u.reset_held(&d));
}

#[test]
fn gamepad_buttons_and_axes() {
    let u = bindings();
    let d = DeviceState {
        keys: vec![],
        gamepad: Some(GamepadState { buttons: vec![12, 19], axes: vec![(0, -700), (1, 900)] }),
    };
    let c = InputSource::controller(&u, &d);
    assert!(c.right);
    assert!(c.rotate_left);
    assert!(!c.rotate_right);
    assert!(!c.left);
    assert!(InputSource::reset_held(&u, &d));
    let weak = DeviceState { keys: vec![], gamepad: Some(GamepadState { buttons: vec![], axes: vec![(0, 500)] }) };
    assert!(!u.controller(&weak).rotate_right);
    assert!(!u.read_input(&weak, 3, GamepadControl::NegativeAxis(0)));
    let strong = DeviceState { keys: vec![], gamepad: Some(GamepadState { buttons: vec![], axes: vec![(0, 501)] }) };
    assert!(u.controller(&strong).rotate_right);
}

#[test]
fn texture_slots() {
    assert_eq!(color_to_tex_index(CellColor::Z), Some(0));
    assert_eq!(color_to_tex_index(CellColor::I), Some(4));
    assert_eq!(color_to_tex_index(CellColor::Garbage), Some(9));
    assert_eq!(color_to_tex_index(CellColor::Unclearable), Some(7));
    assert_eq!(color_to_tex_index(CellColor::Empty), None);
    let skin = Skin::Basic(7u8);
    assert_eq!(*skin.texture(), 7);
    assert_eq!(skin.tex_index(CellColor::T), Some(6));
}

#[test]
fn first_connected_gamepad_is_used_until_it_leaves() {
    let events = vec![
        GamepadEvent::Connected(3),
        GamepadEvent::Connected(5),
        GamepadEvent::Other,
        GamepadEvent::Disconnected(5),
    ];
    assert_eq!(track_gamepad(None, &events), Some(3));
    let gone = vec![GamepadEvent::Disconnected(3), GamepadEvent::Connected(8)];
    assert_eq!(track_gamepad(Some(3), &gone), Some(8));
    assert_eq!(track_gamepad(Some(3), &vec![GamepadEvent::Disconnected(3)]), None);
    assert_eq!(track_gamepad(Some(2), &vec![]), Some(2));
}
