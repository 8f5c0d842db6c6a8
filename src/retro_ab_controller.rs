use vstd::prelude::*;

use crate::devices_manager::{
    events_view, gamepads_view, input_state_spec, notifications_view, poll_spec,
    snapshots_view, DeviceRubble, DevicesManager, DevicesManagerView, GamepadEvent,
    Notification, PressedSnapshot, RumbleEffect, DEFAULT_MAX_PORT,
};
use crate::retro_gamepad::{RetroGamePad, RetroGamePadView};
use crate::state_thread::{
    keeps_running_spec, resume_spec, stop_spec, ErroHandle, EventThread, EventThreadView,
    LogLevel,
};

verus! {

/// The registry together with the ownership of its input events.
#[derive(Debug)]
pub struct RetroAbController {
    devices: DevicesManager,
    event_thread: EventThread,
}

pub struct RetroAbControllerView {
    pub devices: DevicesManagerView,
    pub event_thread: EventThreadView,
}

impl View for RetroAbController {
    type V = RetroAbControllerView;

    closed spec fn view(&self) -> RetroAbControllerView {
        RetroAbControllerView { devices: self.devices@, event_thread: self.event_thread@ }
    }
}

impl RetroAbController {
    pub closed spec fn wf(&self) -> bool {
        self.devices.wf()
    }

    /// An empty registry whose background task is to start polling at once.
    pub fn new() -> (r: RetroAbController)
        ensures
            r.wf(),
            r@.devices.gamepads == Seq::<RetroGamePadView>::empty(),
            r@.devices.max_ports == DEFAULT_MAX_PORT,
            r@.event_thread == (EventThreadView { running: true, generation: 1 }),
    {
        let mut event_thread = EventThread::new();
        let started = event_thread.resume();
        assert(started is Ok);
        RetroAbController { devices: DevicesManager::new(), event_thread }
    }

    /// A copy of every connected gamepad.
    pub fn get_list(&self) -> (r: Vec<RetroGamePad>)
        ensures
            gamepads_view(r@) == self@.devices.gamepads,
    {
        self.devices.get_gamepads()
    }

    /// Bounds the ports later connections get.
    pub fn set_max_port(&mut self, max: usize)
        requires
            old(self).wf(),
        ensures
            final(self).wf(),
            final(self)@.devices.gamepads == old(self)@.devices.gamepads,
            final(self)@.devices.max_ports == max,
            final(self)@.event_thread == old(self)@.event_thread,
    {
        self.devices.set_max_port(max);
    }

    /// Lets the core take over polling: the background task ends at its next wake.
    pub fn stop_thread_events(&mut self)
        requires
            old(self).wf(),
        ensures
            final(self).wf(),
            final(self)@.devices == old(self)@.devices,
            final(self)@.event_thread == stop_spec(old(self)@.event_thread),
    {
        self.event_thread.stop();
    }

    /// Hands polling back to a new background task; refused with a warning while one runs.
    /// On `Ok` the caller starts the task for generation `thread_generation()`.
    pub fn resume_thread_events(&mut self) -> (r: Result<(), ErroHandle>)
        requires
            old(self).wf(),
        ensures
            final(self).wf(),
            final(self)@.devices == old(self)@.devices,
            final(self)@.event_thread == resume_spec(old(self)@.event_thread).0,
            r is Ok <==> resume_spec(old(self)@.event_thread).1,
            r matches Err(e) ==> e.level == LogLevel::Warn,
    {
        self.event_thread.resume()
    }

    /// Recovery after the lock around this controller was found broken: stops polling and
    /// reports the failure.
    pub fn recover_thread_events(&mut self) -> (r: ErroHandle)
        requires
            old(self).wf(),
        ensures
            final(self).wf(),
            final(self)@.devices == old(self)@.devices,
            final(self)@.event_thread == stop_spec(old(self)@.event_thread),
            r.level == LogLevel::Error,
    {
        self.event_thread.recover()
    }

    /// The generation a background task started now belongs to.
    pub fn thread_generation(&self) -> (r: u64)
        ensures
            r == self@.event_thread.generation,
    {
        self.event_thread.generation()
    }

    /// Checked by the background task of `generation` at each wake.
    pub fn keeps_running(&self, generation: u64) -> (r: bool)
        ensures
            r == keeps_running_spec(self@.event_thread, generation),
    {
        self.event_thread.keeps_running(generation)
    }

    /// Whether a gamepad answers on the requested port, so that the request can go on to the
    /// backend's actuator.
    pub fn apply_rumble(&self, rubble: DeviceRubble) -> (r: bool)
        ensures
            r == (rubble.port <= i16::MAX && crate::devices_manager::first_by_port(
                self@.devices.gamepads,
                rubble.port as i16,
            ) is Some),
    {
        self.devices.apply_rumble(rubble)
    }
}

/// The core's poll: one pass of the poll engine over the drained batch.
pub fn input_poll_callback(
    controller: &mut RetroAbController,
    events: &Vec<GamepadEvent>,
    snapshots: &Vec<PressedSnapshot>,
) -> (r: Vec<Notification>)
    requires
        old(controller).wf(),
    ensures
        final(controller).wf(),
        final(controller)@.event_thread == old(controller)@.event_thread,
        exists|uuids: Seq<u128>|
            uuids.len() == events.len() && (final(controller)@.devices, notifications_view(r@))
                == #[trigger] poll_spec(
                old(controller)@.devices,
                events_view(events@),
                snapshots_view(snapshots@),
                uuids,
            ),
{
    let ghost before = controller.devices@;
    let r = controller.devices.update_state(events, snapshots);
    proof {
        let uuids = choose|uuids: Seq<u128>|
            uuids.len() == events.len() && (controller.devices@, notifications_view(r@))
                == #[trigger] poll_spec(
                before,
                events_view(events@),
                snapshots_view(snapshots@),
                uuids,
            );
        assert((final(controller)@.devices, notifications_view(r@)) == poll_spec(
            old(controller)@.devices,
            events_view(events@),
            snapshots_view(snapshots@),
            uuids,
        ));
    }
    r
}

/// The core's input query. The device class and index are reserved by the core's interface
/// and not read here.
pub fn input_state_callback(
    controller: &RetroAbController,
    port: i16,
    _device: i16,
    _index: i16,
    id: i16,
) -> (r: i16)
    ensures
        r == input_state_spec(controller@.devices.gamepads, port, id),
{
    controller.devices.get_input_state(port, id)
}

/// The core's force-feedback request: whether a gamepad answers on `port`, so that the request
/// can go on to the backend's actuator.
pub fn rumble_callback(
    controller: &RetroAbController,
    port: u32,
    effect: RumbleEffect,
    strength: u16,
) -> (r: bool)
    ensures
        r == (port <= i16::MAX && crate::devices_manager::first_by_port(
            controller@.devices.gamepads,
            port as i16,
        ) is Some),
{
    controller.apply_rumble(DeviceRubble { port: port as usize, effect, strength })
}

} // verus!
