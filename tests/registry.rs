use retro_ab_gamepad::devices_manager::{
    DeviceRubble, DeviceState, DeviceType, DevicesManager, GamepadEvent, GamepadEventKind,
    PressedSnapshot, RumbleEffect, DEFAULT_MAX_PORT,
};
use retro_ab_gamepad::key_map::{NativeButton, RETRO_DEVICE_JOYPAD};

fn connect(id: usize, name: &str) -> GamepadEvent {
    GamepadEvent { id, event: GamepadEventKind::Connected(Some(name.to_string())) }
}

fn disconnect(id: usize) -> GamepadEvent {
    GamepadEvent { id, event: GamepadEventKind::Disconnected }
}

fn press(id: usize, button: NativeButton) -> GamepadEvent {
    GamepadEvent { id, event: GamepadEventKind::ButtonPressed(button) }
}

fn ports(m: &DevicesManager) -> Vec<i16> {
    m.get_gamepads().iter().map(|g| g.retro_port).collect()
}

#[test]
fn new_registry_is_empty_with_default_bound() {
    let m = DevicesManager::new();
    assert!(m.get_gamepads().is_empty());
    assert_eq!(m.max_port(), DEFAULT_MAX_PORT);
    assert_eq!(DEFAULT_MAX_PORT, 2);
}

#[test]
fn connect_registers_a_gamepad_and_notifies() {
    let mut m = DevicesManager::new();
    let (state, device) = m.handle_connect(10, "Pad One".to_string());
    assert!(matches!(state, DeviceState::Connected));
    assert_eq!(device.name, "Pad One");
    assert_eq!(device.retro_port, 0);
    assert_eq!(device.retro_type, RETRO_DEVICE_JOYPAD);
    assert!(matches!(device.device_type, DeviceType::Gamepad));
    let list = m.get_gamepads();
    assert_eq!(list.len(), 1);
    assert_eq!(list[0].inner_id, 10);
    assert_eq!(list[0].id, device.id);
    assert_eq!(list[0].key_map.len(), 16);
}

#[test]
fn ports_are_distinct_and_bounded_over_many_connections() {
    let mut m = DevicesManager::new();
    m.set_max_port(4);
    for id in 0..4usize {
        m.handle_connect(id, format!("pad {}", id));
    }
    assert_eq!(ports(&m), vec![0, 1, 2, 3]);
    m.handle_disconnect(1);
    m.handle_connect(10, "late".to_string());
    let p = ports(&m);
    let assigned: Vec<i16> = p.iter().copied().filter(|&x| x != -1).collect();
    let mut sorted = assigned.clone();
    sorted.sort();
    sorted.dedup();
    assert_eq!(sorted.len(), assigned.len());
    assert!(assigned.iter().all(|&x| x >= 0 && x < 4));
}

#[test]
fn exhaustion_hands_out_the_sentinel() {
    let mut m = DevicesManager::new();
    let (_, a) = m.handle_connect(1, "a".to_string());
    let (_, b) = m.handle_connect(2, "b".to_string());
    let (_, c) = m.handle_connect(3, "c".to_string());
    assert_eq!(a.retro_port, 0);
    assert_eq!(b.retro_port, 1);
    assert_eq!(c.retro_port, -1);
    let (_, d) = m.handle_connect(4, "d".to_string());
    assert_eq!(d.retro_port, -1);
}

#[test]
fn zero_ports_gives_only_the_sentinel() {
    let mut m = DevicesManager::new();
    m.set_max_port(0);
    let (_, a) = m.handle_connect(1, "a".to_string());
    assert_eq!(a.retro_port, -1);
    assert_eq!(m.get_input_state(-1, 0), 0);
}

#[test]
fn reconnect_does_not_reuse_a_held_port() {
    let mut m = DevicesManager::new();
    m.set_max_port(4);
    m.handle_connect(1, "a".to_string());
    m.handle_connect(2, "b".to_string());
    m.handle_connect(3, "c".to_string());
    assert_eq!(ports(&m), vec![0, 1, 2]);
    // the highest port frees and is handed out again
    m.handle_disconnect(3);
    let (_, d) = m.handle_connect(4, "d".to_string());
    assert_eq!(d.retro_port, 2);
    // a port below the highest is not reused: allocation goes on from the top
    m.handle_disconnect(1);
    let (_, e) = m.handle_connect(5, "e".to_string());
    assert_eq!(e.retro_port, 3);
    let (_, f) = m.handle_connect(6, "f".to_string());
    assert_eq!(f.retro_port, -1);
    assert_eq!(ports(&m), vec![1, 2, 3, -1]);
}

#[test]
fn shrinking_the_bound_keeps_assigned_ports() {
    let mut m = DevicesManager::new();
    m.set_max_port(3);
    m.handle_connect(1, "a".to_string());
    m.handle_connect(2, "b".to_string());
    m.handle_connect(3, "c".to_string());
    m.set_max_port(1);
    assert_eq!(m.max_port(), 1);
    assert_eq!(ports(&m), vec![0, 1, 2]);
    let (_, d) = m.handle_connect(4, "d".to_string());
    assert_eq!(d.retro_port, -1);
}

#[test]
fn disconnect_of_unknown_identity_is_a_no_op() {
    let mut m = DevicesManager::new();
    m.handle_connect(1, "a".to_string());
    assert!(m.handle_disconnect(99).is_none());
    assert_eq!(m.get_gamepads().len(), 1);
}

#[test]
fn disconnect_reports_the_removed_snapshot() {
    let mut m = DevicesManager::new();
    let (_, a) = m.handle_connect(1, "a".to_string());
    m.handle_connect(2, "b".to_string());
    let (state, device) = m.handle_disconnect(1).unwrap();
    assert!(matches!(state, DeviceState::Disconnected));
    assert_eq!(device.id, a.id);
    assert_eq!(device.name, "a");
    assert_eq!(device.retro_port, 0);
    let list = m.get_gamepads();
    assert_eq!(list.len(), 1);
    assert_eq!(list[0].inner_id, 2);
}

#[test]
fn button_event_names_the_button_and_leaves_state_alone() {
    let mut m = DevicesManager::new();
    m.handle_connect(1, "a".to_string());
    m.handle_connect(2, "b".to_string());
    let (state, device) = m.handle_button_event(2, NativeButton::North).unwrap();
    match state {
        DeviceState::ButtonPressed(name) => assert_eq!(name, "X"),
        _ => panic!("expected a button notification"),
    }
    assert_eq!(device.name, "b");
    assert_eq!(device.retro_port, 1);
    assert_eq!(m.get_input_state(1, 9), 0);
    assert!(m.handle_button_event(7, NativeButton::North).is_none());
}

#[test]
fn bitmask_round_trip_with_a_pressed_and_b_released() {
    let mut m = DevicesManager::new();
    m.handle_connect(1, "a".to_string());
    m.refresh_pressed_state(1, &vec![NativeButton::East]);
    assert_eq!(m.get_input_state(0, 256), 1 << 8);
    assert_eq!(m.get_input_state(0, 8), 1);
    assert_eq!(m.get_input_state(0, 0), 0);
}

#[test]
fn unknown_and_sentinel_ports_read_zero() {
    let mut m = DevicesManager::new();
    m.set_max_port(1);
    m.handle_connect(1, "a".to_string());
    m.handle_connect(2, "b".to_string());
    m.refresh_pressed_state(2, &vec![NativeButton::East]);
    assert_eq!(m.get_input_state(-1, 8), 0);
    assert_eq!(m.get_input_state(-1, 256), 0);
    assert_eq!(m.get_input_state(5, 8), 0);
    assert_eq!(m.get_input_state(0, 8), 0);
}

#[test]
fn refresh_touches_only_the_given_identity() {
    let mut m = DevicesManager::new();
    m.handle_connect(1, "a".to_string());
    m.handle_connect(2, "b".to_string());
    m.refresh_pressed_state(2, &vec![NativeButton::Start, NativeButton::DPadUp]);
    assert_eq!(m.get_input_state(0, 3), 0);
    assert_eq!(m.get_input_state(1, 3), 1);
    assert_eq!(m.get_input_state(1, 4), 1);
    assert_eq!(m.get_input_state(1, 256), (1 << 3) | (1 << 4));
    m.refresh_pressed_state(2, &Vec::new());
    assert_eq!(m.get_input_state(1, 256), 0);
}

#[test]
fn poll_delivers_connect_press_disconnect_in_order() {
    let mut m = DevicesManager::new();
    let events = vec![connect(7, "Pad"), press(7, NativeButton::South), disconnect(7)];
    let notes = m.update_state(&events, &Vec::new());
    assert_eq!(notes.len(), 3);
    assert!(matches!(notes[0].0, DeviceState::Connected));
    match &notes[1].0 {
        DeviceState::ButtonPressed(name) => assert_eq!(name, "B"),
        _ => panic!("expected a button notification"),
    }
    assert!(matches!(notes[2].0, DeviceState::Disconnected));
    for (_, device) in &notes {
        assert_eq!(device.id, notes[0].1.id);
        assert_eq!(device.name, "Pad");
        assert_eq!(device.retro_port, 0);
    }
    assert!(m.get_gamepads().is_empty());
}

#[test]
fn poll_refreshes_gamepads_named_in_the_batch() {
    let mut m = DevicesManager::new();
    m.update_state(&vec![connect(1, "a"), connect(2, "b")], &Vec::new());
    let snapshots = vec![
        PressedSnapshot { id: 1, held: vec![NativeButton::East] },
        PressedSnapshot { id: 2, held: vec![NativeButton::West] },
    ];
    let notes = m.update_state(&vec![press(1, NativeButton::East)], &snapshots);
    assert_eq!(notes.len(), 1);
    assert_eq!(m.get_input_state(0, 8), 1);
    // gamepad 2 was not in the batch, so its snapshot is not applied
    assert_eq!(m.get_input_state(1, 1), 0);
}

#[test]
fn poll_skips_connections_the_backend_no_longer_lists_and_other_events() {
    let mut m = DevicesManager::new();
    let events = vec![
        GamepadEvent { id: 1, event: GamepadEventKind::Connected(None) },
        GamepadEvent { id: 1, event: GamepadEventKind::Other },
        disconnect(1),
    ];
    let notes = m.update_state(&events, &Vec::new());
    assert!(notes.is_empty());
    assert!(m.get_gamepads().is_empty());
}

#[test]
fn rumble_is_forwarded_only_to_an_addressed_port() {
    let mut m = DevicesManager::new();
    m.handle_connect(1, "a".to_string());
    assert!(m.apply_rumble(DeviceRubble { port: 0, effect: RumbleEffect::Strong, strength: 100 }));
    assert!(!m.apply_rumble(DeviceRubble { port: 1, effect: RumbleEffect::Weak, strength: 1 }));
    assert!(!m.apply_rumble(DeviceRubble { port: 70000, effect: RumbleEffect::Weak, strength: 1 }));
}

#[test]
fn device_snapshot_copies_the_gamepad() {
    let mut m = DevicesManager::new();
    m.handle_connect(4, "snap".to_string());
    let g = &m.get_gamepads()[0];
    let d = retro_ab_gamepad::devices_manager::Device::from_gamepad(g);
    assert_eq!(d.id, g.id);
    assert_eq!(d.name, "snap");
    assert_eq!(d.retro_port, 0);
    assert_eq!(d.retro_type, RETRO_DEVICE_JOYPAD);
    assert!(matches!(d.device_type, DeviceType::Gamepad));
}
