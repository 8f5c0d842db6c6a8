use retro_ab_gamepad::devices_manager::DevicesRequireFunctions;
use retro_ab_gamepad::key_map::{
    GamepadKeyMap, NativeButton, RETRO_DEVICE_ID_JOYPAD_A, RETRO_DEVICE_ID_JOYPAD_B,
    RETRO_DEVICE_ID_JOYPAD_DOWN, RETRO_DEVICE_ID_JOYPAD_L3, RETRO_DEVICE_ID_JOYPAD_MASK,
    RETRO_DEVICE_ID_JOYPAD_R3, RETRO_DEVICE_ID_JOYPAD_SELECT, RETRO_DEVICE_ID_JOYPAD_START,
    RETRO_DEVICE_JOYPAD,
};
use retro_ab_gamepad::retro_gamepad::{holds_button, RetroGamePad};

#[test]
fn libretro_ids_have_their_abi_values() {
    assert_eq!(RETRO_DEVICE_ID_JOYPAD_B, 0);
    assert_eq!(RETRO_DEVICE_ID_JOYPAD_SELECT, 2);
    assert_eq!(RETRO_DEVICE_ID_JOYPAD_START, 3);
    assert_eq!(RETRO_DEVICE_ID_JOYPAD_DOWN, 5);
    assert_eq!(RETRO_DEVICE_ID_JOYPAD_A, 8);
    assert_eq!(RETRO_DEVICE_ID_JOYPAD_L3, 14);
    assert_eq!(RETRO_DEVICE_ID_JOYPAD_R3, 15);
    assert_eq!(RETRO_DEVICE_ID_JOYPAD_MASK, 256);
    assert_eq!(RETRO_DEVICE_JOYPAD, 1);
}

#[test]
fn default_key_map_binds_sixteen_distinct_ids_released() {
    let km = GamepadKeyMap::get_default_key_maps();
    assert_eq!(km.len(), 16);
    let mut ids: Vec<u32> = km.iter().map(|k| k.retro).collect();
    ids.sort();
    assert_eq!(ids, (0u32..16).collect::<Vec<u32>>());
    assert!(km.iter().all(|k| !k.pressed));
    assert_eq!(km[0], GamepadKeyMap::new(NativeButton::DPadDown, RETRO_DEVICE_ID_JOYPAD_DOWN));
    assert_eq!(km[4].native, NativeButton::South);
    assert_eq!(km[4].retro, RETRO_DEVICE_ID_JOYPAD_B);
    assert_eq!(km[5].native, NativeButton::East);
    assert_eq!(km[5].retro, RETRO_DEVICE_ID_JOYPAD_A);
}

#[test]
fn native_button_names() {
    assert_eq!(GamepadKeyMap::get_key_name_from_native_button(&NativeButton::DPadUp), "DPad-up");
    assert_eq!(GamepadKeyMap::get_key_name_from_native_button(&NativeButton::South), "B");
    assert_eq!(GamepadKeyMap::get_key_name_from_native_button(&NativeButton::East), "A");
    assert_eq!(GamepadKeyMap::get_key_name_from_native_button(&NativeButton::LeftTrigger2), "L2");
    assert_eq!(
        GamepadKeyMap::get_key_name_from_native_button(&NativeButton::RightThumb),
        "RightThumb"
    );
    assert_eq!(GamepadKeyMap::get_key_name_from_native_button(&NativeButton::Mode), "mode");
    assert_eq!(
        GamepadKeyMap::get_key_name_from_native_button(&NativeButton::C),
        "Chave desconhecida"
    );
    assert_eq!(
        GamepadKeyMap::get_key_name_from_native_button(&NativeButton::Unknown),
        "Chave desconhecida"
    );
}

#[test]
fn retro_button_names() {
    assert_eq!(GamepadKeyMap::get_key_name_from_retro_button(5), "Retro DPad-down");
    assert_eq!(GamepadKeyMap::get_key_name_from_retro_button(0), "Retro B");
    assert_eq!(GamepadKeyMap::get_key_name_from_retro_button(8), "Retro A");
    assert_eq!(GamepadKeyMap::get_key_name_from_retro_button(14), "Retro L3");
    assert_eq!(GamepadKeyMap::get_key_name_from_retro_button(2), "Retro Select");
    assert_eq!(GamepadKeyMap::get_key_name_from_retro_button(16), "Chave desconhecida");
    assert_eq!(GamepadKeyMap::get_key_name_from_retro_button(256), "Chave desconhecida");
}

#[test]
fn new_gamepad_draws_a_version_four_identifier() {
    let a = RetroGamePad::new(3, "pad".to_string(), 0, RETRO_DEVICE_JOYPAD);
    let b = RetroGamePad::new(3, "pad".to_string(), 0, RETRO_DEVICE_JOYPAD);
    assert_eq!((a.id >> 76) & 0xf, 4);
    assert_eq!((a.id >> 62) & 0x3, 2);
    assert_ne!(a.id, b.id);
    assert_eq!(a.inner_id, 3);
    assert_eq!(a.name, "pad");
    assert_eq!(a.retro_port, 0);
    assert_eq!(a.retro_type, RETRO_DEVICE_JOYPAD);
    assert_eq!(a.key_map, GamepadKeyMap::get_default_key_maps());
}

#[test]
fn key_state_and_mask_of_a_gamepad() {
    let mut g = RetroGamePad::new(1, "pad".to_string(), 0, RETRO_DEVICE_JOYPAD);
    assert_eq!(g.get_key_bitmask(), 0);
    g.update_key_pressed(&vec![NativeButton::East]);
    assert_eq!(g.get_key_pressed(8), 1);
    assert_eq!(g.get_key_pressed(0), 0);
    assert_eq!(g.get_key_pressed(-1), 0);
    assert_eq!(g.get_key_pressed(300), 0);
    assert_eq!(g.get_key_bitmask(), 256);
    g.update_key_pressed(&vec![NativeButton::RightThumb, NativeButton::South]);
    assert_eq!(g.get_key_pressed(8), 0);
    assert_eq!(g.get_key_pressed(15), 1);
    assert_eq!(g.get_key_bitmask() as u16, 0x8001);
    assert_eq!(g.get_key_bitmask(), -32767);
}

#[test]
fn mask_holds_only_bound_ids() {
    let mut g = RetroGamePad::new(1, "pad".to_string(), 0, RETRO_DEVICE_JOYPAD);
    let all = vec![
        NativeButton::South,
        NativeButton::East,
        NativeButton::North,
        NativeButton::West,
        NativeButton::C,
        NativeButton::Z,
        NativeButton::LeftTrigger,
        NativeButton::LeftTrigger2,
        NativeButton::RightTrigger,
        NativeButton::RightTrigger2,
        NativeButton::Select,
        NativeButton::Start,
        NativeButton::Mode,
        NativeButton::LeftThumb,
        NativeButton::RightThumb,
        NativeButton::DPadUp,
        NativeButton::DPadDown,
        NativeButton::DPadLeft,
        NativeButton::DPadRight,
        NativeButton::Unknown,
    ];
    g.update_key_pressed(&all);
    assert_eq!(g.get_key_bitmask() as u16, 0xffff);
    for id in 0..16i16 {
        assert_eq!(g.get_key_pressed(id), 1);
    }
    g.update_key_pressed(&vec![NativeButton::C, NativeButton::Mode]);
    assert_eq!(g.get_key_bitmask(), 0);
}

#[test]
fn holds_button_looks_through_the_list() {
    assert!(holds_button(&vec![NativeButton::C, NativeButton::Z], NativeButton::Z));
    assert!(!holds_button(&vec![NativeButton::C, NativeButton::Z], NativeButton::South));
    assert!(!holds_button(&Vec::new(), NativeButton::South));
}

#[test]
fn duplicate_keeps_every_field() {
    let mut g = RetroGamePad::new(9, "copy me".to_string(), 1, RETRO_DEVICE_JOYPAD);
    g.update_key_pressed(&vec![NativeButton::Start]);
    let d = g.duplicate();
    assert_eq!(d.id, g.id);
    assert_eq!(d.inner_id, 9);
    assert_eq!(d.name, "copy me");
    assert_eq!(d.retro_port, 1);
    assert_eq!(d.key_map, g.key_map);
}
