//! Gamepad input for a libretro core: a registry of connected gamepads that hands each one a
//! port, maps backend buttons to libretro joypad ids, answers the core's input queries, and
//! tells a listener about connections, disconnections and button presses. The hand-over of
//! polling between a background task and the core is a small state machine.
//!
//! The library works on plain values: the caller drains the gamepad backend and passes the
//! events, and the buttons each gamepad holds, to `DevicesManager::update_state`.

pub mod devices_manager;
pub mod key_map;
pub mod laws;
pub mod retro_ab_controller;
pub mod retro_gamepad;
pub mod state_thread;

pub use retro_ab_controller::{
    input_poll_callback, input_state_callback, rumble_callback, RetroAbController,
};
