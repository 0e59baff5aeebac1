//! The devices with which players steer, for menus that let them choose.
use vstd::prelude::*;
use vstd::string::StringExecFns;

verus! {

/// A key of the keyboard, as far as the stock keyboard layouts use it.
#[derive(Debug, PartialEq, Eq, Clone, Copy, Hash, Structural)]
pub enum Key {
    Left,
    Right,
    Up,
    Down,
    Space,
    Return,
    Escape,
    A,
    B,
    D,
    G,
    P,
    S,
    V,
    W,
}

/// A gamepad, or a part of the keyboard that stands in for one.
#[derive(Debug, PartialEq, Eq, Clone, Copy, Hash)]
pub enum ControlDevice {
    Gamepad { gamepad_id: usize },
    Keyboard {
        title: &'static str,
        description: &'static str,
        keyboard_id: usize,
        left: Key,
        right: Key,
        top: Key,
        bottom: Key,
        action1: Key,
        action2: Key,
        start: Key,
        cancel: Key,
    },
}

/// The character of the decimal digit `digit`.
pub open spec fn digit_char(digit: nat) -> char {
    if digit == 0 {
        '0'
    } else if digit == 1 {
        '1'
    } else if digit == 2 {
        '2'
    } else if digit == 3 {
        '3'
    } else if digit == 4 {
        '4'
    } else if digit == 5 {
        '5'
    } else if digit == 6 {
        '6'
    } else if digit == 7 {
        '7'
    } else if digit == 8 {
        '8'
    } else {
        '9'
    }
}

/// The decimal digits of `n`, the most significant first and without
/// leading zeros.
pub open spec fn decimal(n: nat) -> Seq<char>
    decreases n,
{
    if n < 10 {
        seq![digit_char(n)]
    } else {
        decimal(n / 10).push(digit_char(n % 10))
    }
}

/// The text of one decimal digit.
fn digit_text(digit: usize) -> (text: &'static str)
    requires
        digit < 10,
    ensures
        text@ == seq![digit_char(digit as nat)],
{
    proof {
        reveal_strlit("0");
        reveal_strlit("1");
        reveal_strlit("2");
        reveal_strlit("3");
        reveal_strlit("4");
        reveal_strlit("5");
        reveal_strlit("6");
        reveal_strlit("7");
        reveal_strlit("8");
        reveal_strlit("9");
    }
    let text = if digit == 0 {
        "0"
    } else if digit == 1 {
        "1"
    } else if digit == 2 {
        "2"
    } else if digit == 3 {
        "3"
    } else if digit == 4 {
        "4"
    } else if digit == 5 {
        "5"
    } else if digit == 6 {
        "6"
    } else if digit == 7 {
        "7"
    } else if digit == 8 {
        "8"
    } else {
        "9"
    };
    assert(text@ =~= seq![digit_char(digit as nat)]);
    text
}

/// Writes `n` in decimal digits.
fn decimal_text(n: usize) -> (text: String)
    ensures
        text@ == decimal(n as nat),
    decreases n,
{
    if n < 10 {
        digit_text(n).to_owned()
    } else {
        let mut text = decimal_text(n / 10);
        text.append(digit_text(n % 10));
        text
    }
}

impl ControlDevice {
    /// The number by which the device is told from the others.
    pub open spec fn spec_id(&self) -> usize {
        match *self {
            ControlDevice::Gamepad { gamepad_id } => gamepad_id,
            ControlDevice::Keyboard { keyboard_id, .. } => keyboard_id,
        }
    }

    /// The number by which the device is told from the others.
    #[verifier::when_used_as_spec(spec_id)]
    pub fn id(&self) -> (id: usize)
        ensures
            id == self.spec_id(),
    {
        match self {
            ControlDevice::Gamepad { gamepad_id } => *gamepad_id,
            ControlDevice::Keyboard { keyboard_id, .. } => *keyboard_id,
        }
    }

    /// The name under which a menu lists the device: `Gamepad` and its
    /// number, or the title of the keyboard layout.
    pub open spec fn name(self) -> Seq<char> {
        match self {
            ControlDevice::Gamepad { gamepad_id } => "Gamepad "@ + decimal(gamepad_id as nat),
            ControlDevice::Keyboard { title, .. } => title@,
        }
    }

    /// The name under which a menu lists the device.
    pub fn to_string(&self) -> (name: String)
        ensures
            name@ == self.name(),
    {
        match self {
            ControlDevice::Gamepad { gamepad_id } => {
                let mut name = "Gamepad ".to_owned();
                name.append(decimal_text(*gamepad_id).as_str());
                name
            },
            ControlDevice::Keyboard { title, .. } => (*title).to_owned(),
        }
    }

    /// The cursor keys, with space and `G` to act.
    pub fn keyboard1() -> (device: ControlDevice)
        ensures
            device == (ControlDevice::Keyboard {
                title: "Keyboard 1",
                description: "Cursor Keys + N + M",
                keyboard_id: (usize::MAX - 32) as usize,
                left: Key::Left,
                right: Key::Right,
                top: Key::Up,
                bottom: Key::Down,
                action1: Key::Space,
                action2: Key::G,
                start: Key::Return,
                cancel: Key::Escape,
            }),
    {
        ControlDevice::Keyboard {
            title: "Keyboard 1",
            description: "Cursor Keys + N + M",
            keyboard_id: usize::MAX - 32,
            left: Key::Left,
            right: Key::Right,
            top: Key::Up,
            bottom: Key::Down,
            action1: Key::Space,
            action2: Key::G,
            start: Key::Return,
            cancel: Key::Escape,
        }
    }

    /// `W`, `A`, `S` and `D`, with `B` and `V` to act.
    pub fn keyboard2() -> (device: ControlDevice)
        ensures
            device == (ControlDevice::Keyboard {
                title: "Keyboard 2",
                description: "WASD + B + V",
                keyboard_id: (usize::MAX - 31) as usize,
                left: Key::A,
                right: Key::D,
                top: Key::W,
                bottom: Key::S,
                action1: Key::B,
                action2: Key::V,
                start: Key::Return,
                cancel: Key::Escape,
            }),
    {
        ControlDevice::Keyboard {
            title: "Keyboard 2",
            description: "WASD + B + V",
            keyboard_id: usize::MAX - 31,
            left: Key::A,
            right: Key::D,
            top: Key::W,
            bottom: Key::S,
            action1: Key::B,
            action2: Key::V,
            start: Key::Return,
            cancel: Key::Escape,
        }
    }

    /// A third keyboard, for which no keys are left.
    pub fn keyboard3() -> (device: ControlDevice)
        ensures
            device == (ControlDevice::Keyboard {
                title: "Keyboard 3",
                description: "Out of Keys",
                keyboard_id: (usize::MAX - 30) as usize,
                left: Key::P,
                right: Key::P,
                top: Key::P,
                bottom: Key::P,
                action1: Key::P,
                action2: Key::P,
                start: Key::P,
                cancel: Key::P,
            }),
    {
        ControlDevice::Keyboard {
            title: "Keyboard 3",
            description: "Out of Keys",
            keyboard_id: usize::MAX - 30,
            left: Key::P,
            right: Key::P,
            top: Key::P,
            bottom: Key::P,
            action1: Key::P,
            action2: Key::P,
            start: Key::P,
            cancel: Key::P,
        }
    }

    /// A fourth keyboard, for which no keys are left.
    pub fn keyboard4() -> (device: ControlDevice)
        ensures
            device == (ControlDevice::Keyboard {
                title: "Keyboard 4",
                description: "Out of Keys",
                keyboard_id: (usize::MAX - 29) as usize,
                left: Key::P,
                right: Key::P,
                top: Key::P,
                bottom: Key::P,
                action1: Key::P,
                action2: Key::P,
                start: Key::P,
                cancel: Key::P,
            }),
    {
        ControlDevice::Keyboard {
            title: "Keyboard 4",
            description: "Out of Keys",
            keyboard_id: usize::MAX - 29,
            left: Key::P,
            right: Key::P,
            top: Key::P,
            bottom: Key::P,
            action1: Key::P,
            action2: Key::P,
            start: Key::P,
            cancel: Key::P,
        }
    }
}

} // verus!
