use retro_ab_gamepad::devices_manager::{
    DevicesManager, GamepadEvent, GamepadEventKind, PressedSnapshot,
};
use retro_ab_gamepad::key_map::NativeButton;

#[test]
fn mask_agrees_with_single_queries_after_every_poll() {
    let mut registry = DevicesManager::new();
    registry.update_state(
        &vec![GamepadEvent { id: 1, event: GamepadEventKind::Connected(Some("pad".to_string())) }],
        &Vec::new(),
    );
    let patterns = [
        vec![NativeButton::East],
        vec![NativeButton::South, NativeButton::RightThumb, NativeButton::Start],
        Vec::new(),
        vec![NativeButton::C, NativeButton::Mode, NativeButton::DPadLeft],
    ];
    let expected: [u16; 4] = [1 << 8, (1 << 0) | (1 << 15) | (1 << 3), 0, 1 << 6];
    for round in 0..200usize {
        let events = vec![GamepadEvent {
            id: 1,
            event: GamepadEventKind::ButtonPressed(NativeButton::East),
        }];
        let snapshots =
            vec![PressedSnapshot { id: 1, held: patterns[round % patterns.len()].clone() }];
        registry.update_state(&events, &snapshots);
        let mask = registry.get_input_state(0, 256) as u16;
        let mut from_buttons: u16 = 0;
        for id in 0..16i16 {
            if registry.get_input_state(0, id) == 1 {
                from_buttons |= 1 << id;
            }
        }
        assert_eq!(mask, from_buttons);
        assert_eq!(mask, expected[round % expected.len()]);
    }
}
