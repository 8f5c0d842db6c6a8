use retro_ab_gamepad::devices_manager::{
    DeviceRubble, DeviceState, GamepadEvent, GamepadEventKind, PressedSnapshot, RumbleEffect,
};
use retro_ab_gamepad::key_map::NativeButton;
use retro_ab_gamepad::state_thread::{EventThread, LogLevel};
use retro_ab_gamepad::{
    input_poll_callback, input_state_callback, rumble_callback, RetroAbController,
};

#[test]
fn event_thread_starts_stopped() {
    let t = EventThread::new();
    assert!(!t.is_running());
    assert_eq!(t.generation(), 0);
    assert!(!t.keeps_running(0));
}

#[test]
fn stop_twice_is_stop_once() {
    let mut t = EventThread::new();
    t.resume().unwrap();
    t.stop();
    assert!(!t.is_running());
    let generation = t.generation();
    t.stop();
    assert!(!t.is_running());
    assert_eq!(t.generation(), generation);
}

#[test]
fn stop_before_any_start_is_safe() {
    let mut t = EventThread::new();
    t.stop();
    assert!(!t.is_running());
    assert_eq!(t.generation(), 0);
}

#[test]
fn resume_while_running_is_refused_without_a_new_task() {
    let mut t = EventThread::new();
    assert!(t.resume().is_ok());
    assert_eq!(t.generation(), 1);
    let err = t.resume().unwrap_err();
    assert_eq!(err.level, LogLevel::Warn);
    assert!(!err.message.is_empty());
    assert!(t.is_running());
    assert_eq!(t.generation(), 1);
    assert!(t.keeps_running(1));
}

#[test]
fn restart_retires_the_old_task() {
    let mut t = EventThread::new();
    t.resume().unwrap();
    t.stop();
    t.resume().unwrap();
    assert_eq!(t.generation(), 2);
    assert!(!t.keeps_running(1));
    assert!(t.keeps_running(2));
}

#[test]
fn recovery_stops_and_reports_an_error() {
    let mut t = EventThread::new();
    t.resume().unwrap();
    let err = t.recover();
    assert_eq!(err.level, LogLevel::Error);
    assert!(!t.is_running());
    assert!(!t.keeps_running(1));
    assert!(t.resume().is_ok());
}

#[test]
fn controller_starts_with_its_task_running() {
    let mut c = RetroAbController::new();
    assert_eq!(c.thread_generation(), 1);
    assert!(c.keeps_running(1));
    assert!(c.get_list().is_empty());
    assert_eq!(c.resume_thread_events().unwrap_err().level, LogLevel::Warn);
    assert_eq!(c.thread_generation(), 1);
}

#[test]
fn controller_hands_polling_to_the_core_and_back() {
    let mut c = RetroAbController::new();
    c.stop_thread_events();
    assert!(!c.keeps_running(1));
    c.stop_thread_events();
    assert!(!c.keeps_running(1));
    assert!(c.resume_thread_events().is_ok());
    assert_eq!(c.thread_generation(), 2);
    assert!(c.keeps_running(2));
    let err = c.recover_thread_events();
    assert_eq!(err.level, LogLevel::Error);
    assert!(!c.keeps_running(2));
}

#[test]
fn core_callbacks_poll_and_read_state() {
    let mut c = RetroAbController::new();
    c.set_max_port(4);
    let events = vec![
        GamepadEvent { id: 3, event: GamepadEventKind::Connected(Some("first".to_string())) },
        GamepadEvent { id: 8, event: GamepadEventKind::Connected(Some("second".to_string())) },
        GamepadEvent { id: 8, event: GamepadEventKind::ButtonPressed(NativeButton::Start) },
    ];
    let snapshots = vec![PressedSnapshot { id: 8, held: vec![NativeButton::Start] }];
    let notes = input_poll_callback(&mut c, &events, &snapshots);
    assert_eq!(notes.len(), 3);
    match &notes[2].0 {
        DeviceState::ButtonPressed(name) => assert_eq!(name, "Start"),
        _ => panic!("expected a button notification"),
    }
    assert_eq!(notes[2].1.retro_port, 1);
    assert_eq!(input_state_callback(&c, 1, 1, 0, 3), 1);
    assert_eq!(input_state_callback(&c, 1, 1, 0, 256), 1 << 3);
    assert_eq!(input_state_callback(&c, 0, 1, 0, 3), 0);
    assert_eq!(input_state_callback(&c, 2, 1, 0, 3), 0);
    assert!(c.apply_rumble(DeviceRubble { port: 1, effect: RumbleEffect::Strong, strength: 9 }));
    assert!(!c.apply_rumble(DeviceRubble { port: 2, effect: RumbleEffect::Strong, strength: 9 }));
    assert!(rumble_callback(&c, 0, RumbleEffect::Weak, 1));
    assert!(!rumble_callback(&c, 5, RumbleEffect::Weak, 1));
    assert!(!rumble_callback(&c, 65536, RumbleEffect::Weak, 1));
    assert_eq!(c.get_list().len(), 2);
    let gone = vec![GamepadEvent { id: 3, event: GamepadEventKind::Disconnected }];
    let notes = input_poll_callback(&mut c, &gone, &Vec::new());
    assert_eq!(notes.len(), 1);
    assert!(matches!(notes[0].0, DeviceState::Disconnected));
    assert_eq!(notes[0].1.name, "first");
    assert_eq!(c.get_list().len(), 1);
}
