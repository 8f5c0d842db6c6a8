use vstd::prelude::*;

verus! {

/// libretro joypad id of the B button.
pub const RETRO_DEVICE_ID_JOYPAD_B: u32 = 0;

/// libretro joypad id of the Y button.
pub const RETRO_DEVICE_ID_JOYPAD_Y: u32 = 1;

/// libretro joypad id of the Select button.
pub const RETRO_DEVICE_ID_JOYPAD_SELECT: u32 = 2;

/// libretro joypad id of the Start button.
pub const RETRO_DEVICE_ID_JOYPAD_START: u32 = 3;

/// libretro joypad id of the d-pad up direction.
pub const RETRO_DEVICE_ID_JOYPAD_UP: u32 = 4;

/// libretro joypad id of the d-pad down direction.
pub const RETRO_DEVICE_ID_JOYPAD_DOWN: u32 = 5;

/// libretro joypad id of the d-pad left direction.
pub const RETRO_DEVICE_ID_JOYPAD_LEFT: u32 = 6;

/// libretro joypad id of the d-pad right direction.
pub const RETRO_DEVICE_ID_JOYPAD_RIGHT: u32 = 7;

/// libretro joypad id of the A button.
pub const RETRO_DEVICE_ID_JOYPAD_A: u32 = 8;

/// libretro joypad id of the X button.
pub const RETRO_DEVICE_ID_JOYPAD_X: u32 = 9;

/// libretro joypad id of the L shoulder button.
pub const RETRO_DEVICE_ID_JOYPAD_L: u32 = 10;

/// libretro joypad id of the R shoulder button.
pub const RETRO_DEVICE_ID_JOYPAD_R: u32 = 11;

/// libretro joypad id of the L2 trigger.
pub const RETRO_DEVICE_ID_JOYPAD_L2: u32 = 12;

/// libretro joypad id of the R2 trigger.
pub const RETRO_DEVICE_ID_JOYPAD_R2: u32 = 13;

/// libretro joypad id of the left stick click.
pub const RETRO_DEVICE_ID_JOYPAD_L3: u32 = 14;

/// libretro joypad id of the right stick click.
pub const RETRO_DEVICE_ID_JOYPAD_R3: u32 = 15;

/// Reserved joypad id: asks for every button at once, packed into one bitmask.
pub const RETRO_DEVICE_ID_JOYPAD_MASK: u32 = 256;

/// libretro device class of a joypad.
pub const RETRO_DEVICE_JOYPAD: u32 = 1;

/// A button as the gamepad backend names it.
#[derive(Clone, Copy, Debug, PartialEq, Eq, Structural)]
pub enum NativeButton {
    South,
    East,
    North,
    West,
    C,
    Z,
    LeftTrigger,
    LeftTrigger2,
    RightTrigger,
    RightTrigger2,
    Select,
    Start,
    Mode,
    LeftThumb,
    RightThumb,
    DPadUp,
    DPadDown,
    DPadLeft,
    DPadRight,
    Unknown,
}

/// One binding of the key map: a backend button, the libretro id it stands for,
/// and whether it was held at the last refresh.
#[derive(Clone, Copy, Debug, PartialEq, Eq, Structural)]
pub struct GamepadKeyMap {
    pub native: NativeButton,
    pub retro: u32,
    pub pressed: bool,
}

/// The entry of a fresh key map: not pressed.
pub open spec fn unpressed(native: NativeButton, retro: u32) -> GamepadKeyMap {
    GamepadKeyMap { native, retro, pressed: false }
}

/// The fixed bindings every gamepad starts with, all released.
pub open spec fn default_key_map() -> Seq<GamepadKeyMap> {
    seq![
        unpressed(NativeButton::DPadDown, RETRO_DEVICE_ID_JOYPAD_DOWN),
        unpressed(NativeButton::DPadLeft, RETRO_DEVICE_ID_JOYPAD_LEFT),
        unpressed(NativeButton::DPadUp, RETRO_DEVICE_ID_JOYPAD_UP),
        unpressed(NativeButton::DPadRight, RETRO_DEVICE_ID_JOYPAD_RIGHT),
        unpressed(NativeButton::South, RETRO_DEVICE_ID_JOYPAD_B),
        unpressed(NativeButton::East, RETRO_DEVICE_ID_JOYPAD_A),
        unpressed(NativeButton::North, RETRO_DEVICE_ID_JOYPAD_X),
        unpressed(NativeButton::West, RETRO_DEVICE_ID_JOYPAD_Y),
        unpressed(NativeButton::LeftTrigger, RETRO_DEVICE_ID_JOYPAD_L),
        unpressed(NativeButton::RightTrigger, RETRO_DEVICE_ID_JOYPAD_R),
        unpressed(NativeButton::LeftTrigger2, RETRO_DEVICE_ID_JOYPAD_L2),
        unpressed(NativeButton::RightTrigger2, RETRO_DEVICE_ID_JOYPAD_R2),
        unpressed(NativeButton::LeftThumb, RETRO_DEVICE_ID_JOYPAD_L3),
        unpressed(NativeButton::RightThumb, RETRO_DEVICE_ID_JOYPAD_R3),
        unpressed(NativeButton::Start, RETRO_DEVICE_ID_JOYPAD_START),
        unpressed(NativeButton::Select, RETRO_DEVICE_ID_JOYPAD_SELECT),
    ]
}

/// Display name of a backend button.
pub open spec fn native_button_name(native: NativeButton) -> Seq<char> {
    match native {
        NativeButton::DPadUp => "DPad-up"@,
        NativeButton::DPadDown => "DPad-down"@,
        NativeButton::DPadLeft => "DPad-left"@,
        NativeButton::DPadRight => "DPad-right"@,
        NativeButton::South => "B"@,
        NativeButton::East => "A"@,
        NativeButton::North => "X"@,
        NativeButton::West => "Y"@,
        NativeButton::LeftTrigger => "L"@,
        NativeButton::RightTrigger => "R"@,
        NativeButton::LeftTrigger2 => "L2"@,
        NativeButton::RightTrigger2 => "R2"@,
        NativeButton::LeftThumb => "LeftThumb"@,
        NativeButton::RightThumb => "RightThumb"@,
        NativeButton::Start => "Start"@,
        NativeButton::Select => "Select"@,
        NativeButton::Mode => "mode"@,
        _ => "Chave desconhecida"@,
    }
}

/// Display name of a libretro joypad id.
pub open spec fn retro_button_name(retro: u32) -> Seq<char> {
    if retro == RETRO_DEVICE_ID_JOYPAD_DOWN {
        "Retro DPad-down"@
    } else if retro == RETRO_DEVICE_ID_JOYPAD_UP {
        "Retro DPad-up"@
    } else if retro == RETRO_DEVICE_ID_JOYPAD_LEFT {
        "Retro DPad-left"@
    } else if retro == RETRO_DEVICE_ID_JOYPAD_RIGHT {
        "Retro DPad-right"@
    } else if retro == RETRO_DEVICE_ID_JOYPAD_B {
        "Retro B"@
    } else if retro == RETRO_DEVICE_ID_JOYPAD_A {
        "Retro A"@
    } else if retro == RETRO_DEVICE_ID_JOYPAD_X {
        "Retro X"@
    } else if retro == RETRO_DEVICE_ID_JOYPAD_Y {
        "Retro Y"@
    } else if retro == RETRO_DEVICE_ID_JOYPAD_L {
        "Retro L"@
    } else if retro == RETRO_DEVICE_ID_JOYPAD_R {
        "Retro R"@
    } else if retro == RETRO_DEVICE_ID_JOYPAD_L2 {
        "Retro L2"@
    } else if retro == RETRO_DEVICE_ID_JOYPAD_R2 {
        "Retro R2"@
    } else if retro == RETRO_DEVICE_ID_JOYPAD_L3 {
        "Retro L3"@
    } else if retro == RETRO_DEVICE_ID_JOYPAD_R3 {
        "Retro R3"@
    } else if retro == RETRO_DEVICE_ID_JOYPAD_START {
        "Retro Start"@
    } else if retro == RETRO_DEVICE_ID_JOYPAD_SELECT {
        "Retro Select"@
    } else {
        "Chave desconhecida"@
    }
}

impl GamepadKeyMap {
    pub fn new(native: NativeButton, retro: u32) -> (r: GamepadKeyMap)
        ensures
            r == unpressed(native, retro),
    {
        GamepadKeyMap { native, retro, pressed: false }
    }

    /// The key map a newly connected gamepad starts with.
    pub fn get_default_key_maps() -> (r: Vec<GamepadKeyMap>)
        ensures
            r@ == default_key_map(),
    {
        let r = vec![
            GamepadKeyMap::new(NativeButton::DPadDown, RETRO_DEVICE_ID_JOYPAD_DOWN),
            GamepadKeyMap::new(NativeButton::DPadLeft, RETRO_DEVICE_ID_JOYPAD_LEFT),
            GamepadKeyMap::new(NativeButton::DPadUp, RETRO_DEVICE_ID_JOYPAD_UP),
            GamepadKeyMap::new(NativeButton::DPadRight, RETRO_DEVICE_ID_JOYPAD_RIGHT),
            GamepadKeyMap::new(NativeButton::South, RETRO_DEVICE_ID_JOYPAD_B),
            GamepadKeyMap::new(NativeButton::East, RETRO_DEVICE_ID_JOYPAD_A),
            GamepadKeyMap::new(NativeButton::North, RETRO_DEVICE_ID_JOYPAD_X),
            GamepadKeyMap::new(NativeButton::West, RETRO_DEVICE_ID_JOYPAD_Y),
            GamepadKeyMap::new(NativeButton::LeftTrigger, RETRO_DEVICE_ID_JOYPAD_L),
            GamepadKeyMap::new(NativeButton::RightTrigger, RETRO_DEVICE_ID_JOYPAD_R),
            GamepadKeyMap::new(NativeButton::LeftTrigger2, RETRO_DEVICE_ID_JOYPAD_L2),
            GamepadKeyMap::new(NativeButton::RightTrigger2, RETRO_DEVICE_ID_JOYPAD_R2),
            GamepadKeyMap::new(NativeButton::LeftThumb, RETRO_DEVICE_ID_JOYPAD_L3),
            GamepadKeyMap::new(NativeButton::RightThumb, RETRO_DEVICE_ID_JOYPAD_R3),
            GamepadKeyMap::new(NativeButton::Start, RETRO_DEVICE_ID_JOYPAD_START),
            GamepadKeyMap::new(NativeButton::Select, RETRO_DEVICE_ID_JOYPAD_SELECT),
        ];
        assert(r@ =~= default_key_map());
        r
    }

    pub fn get_key_name_from_retro_button(retro: u32) -> (r: &'static str)
        ensures
            r@ == retro_button_name(retro),
    {
        if retro == RETRO_DEVICE_ID_JOYPAD_DOWN {
            "Retro DPad-down"
        } else if retro == RETRO_DEVICE_ID_JOYPAD_UP {
            "Retro DPad-up"
        } else if retro == RETRO_DEVICE_ID_JOYPAD_LEFT {
            "Retro DPad-left"
        } else if retro == RETRO_DEVICE_ID_JOYPAD_RIGHT {
            "Retro DPad-right"
        } else if retro == RETRO_DEVICE_ID_JOYPAD_B {
            "Retro B"
        } else if retro == RETRO_DEVICE_ID_JOYPAD_A {
            "Retro A"
        } else if retro == RETRO_DEVICE_ID_JOYPAD_X {
            "Retro X"
        } else if retro == RETRO_DEVICE_ID_JOYPAD_Y {
            "Retro Y"
        } else if retro == RETRO_DEVICE_ID_JOYPAD_L {
            "Retro L"
        } else if retro == RETRO_DEVICE_ID_JOYPAD_R {
            "Retro R"
        } else if retro == RETRO_DEVICE_ID_JOYPAD_L2 {
            "Retro L2"
        } else if retro == RETRO_DEVICE_ID_JOYPAD_R2 {
            "Retro R2"
        } else if retro == RETRO_DEVICE_ID_JOYPAD_L3 {
            "Retro L3"
        } else if retro == RETRO_DEVICE_ID_JOYPAD_R3 {
            "Retro R3"
        } else if retro == RETRO_DEVICE_ID_JOYPAD_START {
            "Retro Start"
        } else if retro == RETRO_DEVICE_ID_JOYPAD_SELECT {
            "Retro Select"
        } else {
            "Chave desconhecida"
        }
    }

    pub fn get_key_name_from_native_button(native: &NativeButton) -> (r: &'static str)
        ensures
            r@ == native_button_name(*native),
    {
        match native {
            NativeButton::DPadUp => "DPad-up",
            NativeButton::DPadDown => "DPad-down",
            NativeButton::DPadLeft => "DPad-left",
            NativeButton::DPadRight => "DPad-right",
            NativeButton::South => "B",
            NativeButton::East => "A",
            NativeButton::North => "X",
            NativeButton::West => "Y",
            NativeButton::LeftTrigger => "L",
            NativeButton::RightTrigger => "R",
            NativeButton::LeftTrigger2 => "L2",
            NativeButton::RightTrigger2 => "R2",
            NativeButton::LeftThumb => "LeftThumb",
            NativeButton::RightThumb => "RightThumb",
            NativeButton::Start => "Start",
            NativeButton::Select => "Select",
            NativeButton::Mode => "mode",
            _ => "Chave desconhecida",
        }
    }
}

} // verus!
