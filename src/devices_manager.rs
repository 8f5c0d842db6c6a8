use vstd::prelude::*;

use crate::key_map::{native_button_name, GamepadKeyMap, NativeButton, RETRO_DEVICE_JOYPAD};
use crate::retro_gamepad::{
    fresh_gamepad, key_bitmask, key_state, refreshed, refreshed_key, RetroGamePad,
    RetroGamePadView,
};

verus! {

/// The transition a listener is told about.
#[derive(Debug)]
pub enum DeviceState {
    Connected,
    Disconnected,
    /// A button went down; carries the button's display name.
    ButtonPressed(String),
}

pub enum DeviceStateView {
    Connected,
    Disconnected,
    ButtonPressed(Seq<char>),
}

impl View for DeviceState {
    type V = DeviceStateView;

    open spec fn view(&self) -> DeviceStateView {
        match self {
            DeviceState::Connected => DeviceStateView::Connected,
            DeviceState::Disconnected => DeviceStateView::Disconnected,
            DeviceState::ButtonPressed(name) => DeviceStateView::ButtonPressed(name@),
        }
    }
}

/// The kind of input source a device is.
#[derive(Debug, Clone, Copy, PartialEq, Eq, Structural)]
pub enum DeviceType {
    Gamepad,
    Keyboard,
}

/// A read-only snapshot of a device, handed to listeners.
#[derive(Debug, Clone)]
pub struct Device {
    pub id: u128,
    pub name: String,
    pub retro_port: i16,
    pub retro_type: u32,
    pub device_type: DeviceType,
}

pub struct DeviceView {
    pub id: u128,
    pub name: Seq<char>,
    pub retro_port: i16,
    pub retro_type: u32,
    pub device_type: DeviceType,
}

impl View for Device {
    type V = DeviceView;

    open spec fn view(&self) -> DeviceView {
        DeviceView {
            id: self.id,
            name: self.name@,
            retro_port: self.retro_port,
            retro_type: self.retro_type,
            device_type: self.device_type,
        }
    }
}

/// The snapshot of a gamepad.
pub open spec fn device_of(g: RetroGamePadView) -> DeviceView {
    DeviceView {
        id: g.id,
        name: g.name,
        retro_port: g.retro_port,
        retro_type: g.retro_type,
        device_type: DeviceType::Gamepad,
    }
}

impl Device {
    pub fn from_gamepad(gamepad: &RetroGamePad) -> (r: Device)
        ensures
            r@ == device_of(gamepad@),
    {
        Device {
            id: gamepad.id,
            device_type: DeviceType::Gamepad,
            name: gamepad.name.clone(),
            retro_port: gamepad.retro_port,
            retro_type: gamepad.retro_type,
        }
    }
}

/// What the core asks of a device.
pub trait DevicesRequireFunctions {
    /// 1 when the button with the given libretro id is held, 0 otherwise.
    fn get_key_pressed(&self, key_id: i16) -> (r: i16)
        ensures
            r == 0 || r == 1,
    ;

    /// Every held button's libretro id as a bit position of one mask.
    fn get_key_bitmask(&self) -> i16;
}

/// Ports the registry hands out until told otherwise.
pub const DEFAULT_MAX_PORT: usize = 2;

/// What the registry tells a listener: the transition and a snapshot of the device.
pub type Notification = (DeviceState, Device);

pub type NotificationView = (DeviceStateView, DeviceView);

/// What the backend reported, in the order it reported it.
#[derive(Debug)]
pub enum GamepadEventKind {
    /// A gamepad appeared; carries the name the backend gives it, or `None` when the backend
    /// no longer lists it as connected by the time the event is read.
    Connected(Option<String>),
    Disconnected,
    ButtonPressed(NativeButton),
    /// Any other event; it changes nothing here.
    Other,
}

pub enum GamepadEventKindView {
    Connected(Option<Seq<char>>),
    Disconnected,
    ButtonPressed(NativeButton),
    Other,
}

/// One backend event about the gamepad with backend identity `id`.
#[derive(Debug)]
pub struct GamepadEvent {
    pub id: usize,
    pub event: GamepadEventKind,
}

pub struct GamepadEventView {
    pub id: usize,
    pub event: GamepadEventKindView,
}

impl View for GamepadEvent {
    type V = GamepadEventView;

    open spec fn view(&self) -> GamepadEventView {
        GamepadEventView {
            id: self.id,
            event: match &self.event {
                GamepadEventKind::Connected(Some(name)) => GamepadEventKindView::Connected(
                    Some(name@),
                ),
                GamepadEventKind::Connected(None) => GamepadEventKindView::Connected(None),
                GamepadEventKind::Disconnected => GamepadEventKindView::Disconnected,
                GamepadEventKind::ButtonPressed(b) => GamepadEventKindView::ButtonPressed(*b),
                GamepadEventKind::Other => GamepadEventKindView::Other,
            },
        }
    }
}

/// The buttons the backend reports held on the gamepad with backend identity `id`.
#[derive(Debug)]
pub struct PressedSnapshot {
    pub id: usize,
    pub held: Vec<NativeButton>,
}

/// The libretro rumble motors.
#[derive(Debug, Clone, Copy, PartialEq, Eq, Structural)]
pub enum RumbleEffect {
    Strong,
    Weak,
}

/// A force-feedback request from the core.
#[derive(Debug, Clone, Copy)]
pub struct DeviceRubble {
    pub port: usize,
    pub effect: RumbleEffect,
    pub strength: u16,
}

/// The shared collection of connected gamepads, and the bound on the ports it hands out.
#[derive(Debug)]
pub struct DevicesManager {
    connected_gamepads: Vec<RetroGamePad>,
    max_ports: usize,
}

pub struct DevicesManagerView {
    pub gamepads: Seq<RetroGamePadView>,
    pub max_ports: usize,
}

pub open spec fn gamepads_view(v: Seq<RetroGamePad>) -> Seq<RetroGamePadView> {
    v.map_values(|g: RetroGamePad| g@)
}

pub open spec fn events_view(v: Seq<GamepadEvent>) -> Seq<GamepadEventView> {
    v.map_values(|e: GamepadEvent| e@)
}

pub open spec fn snapshots_view(v: Seq<PressedSnapshot>) -> Seq<(usize, Seq<NativeButton>)> {
    v.map_values(|p: PressedSnapshot| (p.id, p.held@))
}

pub open spec fn notifications_view(v: Seq<Notification>) -> Seq<NotificationView> {
    v.map_values(|n: Notification| (n.0@, n.1@))
}

pub open spec fn notification_view(n: Option<Notification>) -> Option<NotificationView> {
    match n {
        Some(n) => Some((n.0@, n.1@)),
        None => None,
    }
}

impl View for DevicesManager {
    type V = DevicesManagerView;

    closed spec fn view(&self) -> DevicesManagerView {
        DevicesManagerView {
            gamepads: gamepads_view(self.connected_gamepads@),
            max_ports: self.max_ports,
        }
    }
}

/// The highest port a gamepad holds; -1 when none holds one.
pub open spec fn highest_port(gs: Seq<RetroGamePadView>) -> int
    decreases gs.len(),
{
    if gs.len() == 0 {
        -1
    } else {
        let h = highest_port(gs.drop_last());
        if gs.last().retro_port as int > h {
            gs.last().retro_port as int
        } else {
            h
        }
    }
}

/// The port the next gamepad gets: one above the highest held, while that stays below
/// `max_ports` (and fits the port type); the sentinel -1 otherwise. A port freed below the
/// highest one is not handed out again while the highest stays connected.
pub open spec fn next_port(gs: Seq<RetroGamePadView>, max_ports: usize) -> i16 {
    let candidate = highest_port(gs) + 1;
    if candidate < max_ports && candidate <= i16::MAX {
        candidate as i16
    } else {
        -1i16
    }
}

/// No two gamepads share a port, the sentinel aside.
pub open spec fn ports_distinct(gs: Seq<RetroGamePadView>) -> bool {
    forall|i: int, j: int|
        0 <= i < gs.len() && 0 <= j < gs.len() && i != j && gs[i].retro_port >= 0
            ==> #[trigger] gs[i].retro_port != #[trigger] gs[j].retro_port
}

/// Every port is the sentinel or lies in `[0, max_ports)`.
pub open spec fn ports_in_range(gs: Seq<RetroGamePadView>, max_ports: usize) -> bool {
    forall|i: int|
        0 <= i < gs.len() ==> #[trigger] gs[i].retro_port == -1 || (0 <= gs[i].retro_port
            < max_ports)
}

/// A gamepad keeps the bindings it was registered with; only the pressed flags change.
pub open spec fn keeps_default_bindings(g: RetroGamePadView) -> bool {
    &&& g.key_map.len() == crate::key_map::default_key_map().len()
    &&& forall|j: int|
        0 <= j < g.key_map.len() ==> (#[trigger] g.key_map[j]).native
            == crate::key_map::default_key_map()[j].native && g.key_map[j].retro
            == crate::key_map::default_key_map()[j].retro
}

/// The registry's invariant.
pub open spec fn registry_wf(gs: Seq<RetroGamePadView>) -> bool {
    &&& ports_distinct(gs)
    &&& forall|i: int| 0 <= i < gs.len() ==> (#[trigger] gs[i]).retro_port >= -1
    &&& forall|i: int| 0 <= i < gs.len() ==> keeps_default_bindings(#[trigger] gs[i])
}

/// The first gamepad with the given backend identity.
pub open spec fn first_by_identity(gs: Seq<RetroGamePadView>, inner_id: usize) -> Option<
    RetroGamePadView,
>
    decreases gs.len(),
{
    if gs.len() == 0 {
        None
    } else if gs[0].inner_id == inner_id {
        Some(gs[0])
    } else {
        first_by_identity(gs.drop_first(), inner_id)
    }
}

/// The first gamepad on the given port.
pub open spec fn first_by_port(gs: Seq<RetroGamePadView>, port: i16) -> Option<RetroGamePadView>
    decreases gs.len(),
{
    if gs.len() == 0 {
        None
    } else if gs[0].retro_port == port {
        Some(gs[0])
    } else {
        first_by_port(gs.drop_first(), port)
    }
}

/// The gamepads whose backend identity is not `inner_id`, in their order.
pub open spec fn without_identity(gs: Seq<RetroGamePadView>, inner_id: usize) -> Seq<
    RetroGamePadView,
>
    decreases gs.len(),
{
    if gs.len() == 0 {
        gs
    } else {
        let kept = without_identity(gs.drop_last(), inner_id);
        if gs.last().inner_id != inner_id {
            kept.push(gs.last())
        } else {
            kept
        }
    }
}

/// The gamepads after refreshing those with backend identity `inner_id`.
pub open spec fn refresh_identity(
    gs: Seq<RetroGamePadView>,
    inner_id: usize,
    held: Seq<NativeButton>,
) -> Seq<RetroGamePadView> {
    gs.map_values(
        |g: RetroGamePadView|
            if g.inner_id == inner_id {
                refreshed(g, held)
            } else {
                g
            },
    )
}

/// The registry after a gamepad connects; `uuid` is the identifier drawn for it.
pub open spec fn connect_spec(
    s: DevicesManagerView,
    inner_id: usize,
    name: Seq<char>,
    uuid: u128,
) -> DevicesManagerView {
    DevicesManagerView {
        gamepads: s.gamepads.push(
            fresh_gamepad(
                uuid,
                inner_id,
                name,
                next_port(s.gamepads, s.max_ports),
                RETRO_DEVICE_JOYPAD,
            ),
        ),
        max_ports: s.max_ports,
    }
}

/// The registry and the notification after a disconnect.
pub open spec fn disconnect_spec(s: DevicesManagerView, inner_id: usize) -> (
    DevicesManagerView,
    Option<NotificationView>,
) {
    (
        DevicesManagerView {
            gamepads: without_identity(s.gamepads, inner_id),
            max_ports: s.max_ports,
        },
        match first_by_identity(s.gamepads, inner_id) {
            Some(g) => Some((DeviceStateView::Disconnected, device_of(g))),
            None => None,
        },
    )
}

/// The notification for a button press.
pub open spec fn button_spec(s: DevicesManagerView, inner_id: usize, button: NativeButton) -> Option<
    NotificationView,
> {
    match first_by_identity(s.gamepads, inner_id) {
        Some(g) => Some((DeviceStateView::ButtonPressed(native_button_name(button)), device_of(g))),
        None => None,
    }
}

/// One backend event: the registry after it and the notification it raises.
/// `uuid` is the identifier drawn if the event registers a gamepad.
pub open spec fn step(s: DevicesManagerView, ev: GamepadEventView, uuid: u128) -> (
    DevicesManagerView,
    Option<NotificationView>,
) {
    match ev.event {
        GamepadEventKindView::Connected(Some(name)) => {
            let s2 = connect_spec(s, ev.id, name, uuid);
            (s2, Some((DeviceStateView::Connected, device_of(s2.gamepads.last()))))
        },
        GamepadEventKindView::Disconnected => disconnect_spec(s, ev.id),
        GamepadEventKindView::ButtonPressed(b) => (s, button_spec(s, ev.id, b)),
        _ => (s, None),
    }
}

/// A batch of events handled in order; `uuids[i]` is the identifier drawn for event `i`.
pub open spec fn apply_events(
    s: DevicesManagerView,
    evs: Seq<GamepadEventView>,
    uuids: Seq<u128>,
) -> (DevicesManagerView, Seq<NotificationView>)
    decreases evs.len(),
{
    if evs.len() == 0 {
        (s, Seq::empty())
    } else {
        let prev = apply_events(s, evs.drop_last(), uuids.drop_last());
        let next = step(prev.0, evs.last(), uuids.last());
        (
            next.0,
            match next.1 {
                Some(n) => prev.1.push(n),
                None => prev.1,
            },
        )
    }
}

/// Whether some event of the batch is about the gamepad with backend identity `inner_id`.
pub open spec fn batch_touches(evs: Seq<GamepadEventView>, inner_id: usize) -> bool {
    exists|i: int| 0 <= i < evs.len() && (#[trigger] evs[i]).id == inner_id
}

/// The refreshes that follow a batch: each snapshot of a gamepad that the batch touched.
pub open spec fn apply_snapshots(
    gs: Seq<RetroGamePadView>,
    evs: Seq<GamepadEventView>,
    snaps: Seq<(usize, Seq<NativeButton>)>,
) -> Seq<RetroGamePadView>
    decreases snaps.len(),
{
    if snaps.len() == 0 {
        gs
    } else {
        let before = apply_snapshots(gs, evs, snaps.drop_last());
        if batch_touches(evs, snaps.last().0) {
            refresh_identity(before, snaps.last().0, snaps.last().1)
        } else {
            before
        }
    }
}

/// One poll: the batch in order, then the refreshes.
pub open spec fn poll_spec(
    s: DevicesManagerView,
    evs: Seq<GamepadEventView>,
    snaps: Seq<(usize, Seq<NativeButton>)>,
    uuids: Seq<u128>,
) -> (DevicesManagerView, Seq<NotificationView>) {
    let after = apply_events(s, evs, uuids);
    (
        DevicesManagerView {
            gamepads: apply_snapshots(after.0.gamepads, evs, snaps),
            max_ports: after.0.max_ports,
        },
        after.1,
    )
}

/// What the core reads for `key_id` on `port`: one button's state, or the whole mask when
/// `key_id` is the reserved mask id. Unknown ports, and the sentinel, read 0.
pub open spec fn input_state_spec(gs: Seq<RetroGamePadView>, port: i16, key_id: i16) -> i16 {
    if port < 0 {
        0
    } else {
        match first_by_port(gs, port) {
            Some(g) => if key_id as int == crate::key_map::RETRO_DEVICE_ID_JOYPAD_MASK {
                key_bitmask(g.key_map) as i16
            } else {
                key_state(g.key_map, key_id)
            },
            None => 0,
        }
    }
}

pub(crate) proof fn lemma_highest_port_bounds(gs: Seq<RetroGamePadView>)
    ensures
        highest_port(gs) >= -1,
        forall|j: int| 0 <= j < gs.len() ==> (#[trigger] gs[j]).retro_port as int <= highest_port(gs),
    decreases gs.len(),
{
    if gs.len() > 0 {
        lemma_highest_port_bounds(gs.drop_last());
        assert forall|j: int| 0 <= j < gs.len() implies (#[trigger] gs[j]).retro_port as int
            <= highest_port(gs) by {
            if j < gs.len() - 1 {
                assert(gs[j] == gs.drop_last()[j]);
            }
        }
    }
}

/// A gamepad registered on the next port keeps the ports distinct.
pub(crate) proof fn lemma_connect_keeps_wf(
    s: DevicesManagerView,
    inner_id: usize,
    name: Seq<char>,
    uuid: u128,
)
    requires
        registry_wf(s.gamepads),
    ensures
        registry_wf(connect_spec(s, inner_id, name, uuid).gamepads),
        ports_in_range(s.gamepads, s.max_ports) ==> ports_in_range(
            connect_spec(s, inner_id, name, uuid).gamepads,
            s.max_ports,
        ),
{
    let gs = connect_spec(s, inner_id, name, uuid).gamepads;
    let n = s.gamepads.len() as int;
    lemma_highest_port_bounds(s.gamepads);
    assert forall|i: int, j: int|
        0 <= i < gs.len() && 0 <= j < gs.len() && i != j && gs[i].retro_port >= 0 implies #[trigger] gs[i].retro_port
        != #[trigger] gs[j].retro_port by {
        if i < n && j < n {
            assert(s.gamepads[i] == gs[i] && s.gamepads[j] == gs[j]);
        } else if i == n {
            assert(s.gamepads[j] == gs[j]);
        } else {
            assert(s.gamepads[i] == gs[i]);
        }
    }
    assert forall|i: int| 0 <= i < gs.len() implies keeps_default_bindings(#[trigger] gs[i]) by {
        if i < n {
            assert(s.gamepads[i] == gs[i]);
        }
    }
    assert forall|i: int| 0 <= i < gs.len() implies (#[trigger] gs[i]).retro_port >= -1 by {
        if i < n {
            assert(s.gamepads[i] == gs[i]);
        }
    }
}

/// Dropping the gamepads of one identity keeps the invariant; what is left came from `gs`.
pub(crate) proof fn lemma_without_identity_keeps_wf(gs: Seq<RetroGamePadView>, inner_id: usize)
    requires
        registry_wf(gs),
    ensures
        registry_wf(without_identity(gs, inner_id)),
        forall|k: int|
            0 <= k < without_identity(gs, inner_id).len() ==> gs.contains(
                #[trigger] without_identity(gs, inner_id)[k],
            ),
    decreases gs.len(),
{
    if gs.len() > 0 {
        let prefix = gs.drop_last();
        assert(registry_wf(prefix)) by {
            assert forall|i: int, j: int|
                0 <= i < prefix.len() && 0 <= j < prefix.len() && i != j && prefix[i].retro_port
                    >= 0 implies #[trigger] prefix[i].retro_port
                != #[trigger] prefix[j].retro_port by {
                assert(prefix[i] == gs[i] && prefix[j] == gs[j]);
            }
            assert forall|i: int| 0 <= i < prefix.len() implies keeps_default_bindings(
                #[trigger] prefix[i],
            ) by {
                assert(prefix[i] == gs[i]);
            }
            assert forall|i: int| 0 <= i < prefix.len() implies (#[trigger] prefix[i]).retro_port
                >= -1 by {
                assert(prefix[i] == gs[i]);
            }
        }
        lemma_without_identity_keeps_wf(prefix, inner_id);
        let kept = without_identity(prefix, inner_id);
        let w = without_identity(gs, inner_id);
        let last_index = gs.len() - 1;
        if gs.last().inner_id != inner_id {
            assert(w == kept.push(gs.last()));
            assert forall|i: int, j: int|
                0 <= i < w.len() && 0 <= j < w.len() && i != j && w[i].retro_port >= 0 implies #[trigger] w[i].retro_port
                != #[trigger] w[j].retro_port by {
                if i < kept.len() && j < kept.len() {
                    assert(w[i] == kept[i] && w[j] == kept[j]);
                } else if i == kept.len() {
                    assert(w[j] == kept[j] && prefix.contains(kept[j]));
                    let jj = choose|jj: int| 0 <= jj < prefix.len() && prefix[jj] == kept[j];
                    assert(prefix[jj] == gs[jj]);
                    assert(gs[last_index] == w[i]);
                    assert(gs[jj].retro_port != gs[last_index].retro_port);
                } else {
                    assert(w[i] == kept[i] && prefix.contains(kept[i]));
                    let ii = choose|ii: int| 0 <= ii < prefix.len() && prefix[ii] == kept[i];
                    assert(prefix[ii] == gs[ii]);
                    assert(gs[last_index] == w[j]);
                    assert(gs[ii].retro_port != gs[last_index].retro_port);
                }
            }
            assert forall|i: int| 0 <= i < w.len() implies keeps_default_bindings(#[trigger] w[i])
                && w[i].retro_port >= -1 by {
                if i < kept.len() {
                    assert(w[i] == kept[i]);
                }
            }
            assert forall|k: int| 0 <= k < w.len() implies gs.contains(#[trigger] w[k]) by {
                if k < kept.len() {
                    assert(w[k] == kept[k] && prefix.contains(kept[k]));
                    let j = choose|j: int| 0 <= j < prefix.len() && prefix[j] == kept[k];
                    assert(prefix[j] == gs[j]);
                } else {
                    assert(gs[last_index] == w[k]);
                }
            }
        } else {
            assert(w == kept);
            assert forall|k: int| 0 <= k < w.len() implies gs.contains(#[trigger] w[k]) by {
                assert(prefix.contains(kept[k]));
                let j = choose|j: int| 0 <= j < prefix.len() && prefix[j] == kept[k];
                assert(prefix[j] == gs[j]);
            }
        }
    }
}

/// A refresh changes pressed flags only: ports and bindings stay.
pub(crate) proof fn lemma_refresh_keeps_ports(gs: Seq<RetroGamePadView>, inner_id: usize, held: Seq<NativeButton>)
    requires
        registry_wf(gs),
    ensures
        registry_wf(refresh_identity(gs, inner_id, held)),
        refresh_identity(gs, inner_id, held).len() == gs.len(),
        forall|j: int|
            0 <= j < gs.len() ==> (#[trigger] refresh_identity(gs, inner_id, held)[j]).retro_port
                == gs[j].retro_port,
{
    let after = refresh_identity(gs, inner_id, held);
    assert forall|j: int| 0 <= j < after.len() implies keeps_default_bindings(#[trigger] after[j])
        && after[j].retro_port == gs[j].retro_port by {
        assert(keeps_default_bindings(gs[j]));
        if gs[j].inner_id == inner_id {
            assert forall|k: int| 0 <= k < after[j].key_map.len() implies (#[trigger] after[j].key_map[k])
                == refreshed_key(gs[j].key_map[k], held) by {}
        }
    }
    assert forall|a: int, b: int|
        0 <= a < after.len() && 0 <= b < after.len() && a != b && after[a].retro_port >= 0 implies #[trigger] after[a].retro_port
        != #[trigger] after[b].retro_port by {
        assert(gs[a].retro_port != gs[b].retro_port);
    }
}

/// The port the next gamepad gets.
fn get_available_port(gamepads: &Vec<RetroGamePad>, max_ports: usize) -> (r: i16)
    ensures
        r == next_port(gamepads_view(gamepads@), max_ports),
{
    let ghost gs = gamepads_view(gamepads@);
    let mut highest: i16 = -1;
    let mut i: usize = 0;
    while i < gamepads.len()
        invariant
            0 <= i <= gamepads.len(),
            gs == gamepads_view(gamepads@),
            highest >= -1,
            highest as int == highest_port(gs.subrange(0, i as int)),
        decreases gamepads.len() - i,
    {
        proof {
            assert(gs.subrange(0, i + 1).drop_last() =~= gs.subrange(0, i as int));
            assert(gs.subrange(0, i + 1).last() == gamepads@[i as int]@);
        }
        if gamepads[i].retro_port > highest {
            highest = gamepads[i].retro_port;
        }
        i = i + 1;
    }
    proof {
        assert(gs.subrange(0, i as int) =~= gs);
    }
    let candidate: i32 = highest as i32 + 1;
    if (candidate as usize) < max_ports && candidate <= i16::MAX as i32 {
        candidate as i16
    } else {
        -1
    }
}

/// Whether some event of the batch is about the gamepad with backend identity `inner_id`.
fn batch_contains(events: &Vec<GamepadEvent>, inner_id: usize) -> (r: bool)
    ensures
        r == batch_touches(events_view(events@), inner_id),
{
    let mut i: usize = 0;
    while i < events.len()
        invariant
            0 <= i <= events.len(),
            forall|j: int| 0 <= j < i ==> (#[trigger] events@[j]).id != inner_id,
        decreases events.len() - i,
    {
        if events[i].id == inner_id {
            assert(events_view(events@)[i as int].id == inner_id);
            return true;
        }
        i = i + 1;
    }
    assert forall|j: int| 0 <= j < events@.len() implies (#[trigger] events_view(events@)[j]).id
        != inner_id by {
        assert(events_view(events@)[j] == events@[j]@);
    }
    false
}

impl DevicesManager {
    pub open spec fn wf(&self) -> bool {
        registry_wf(self@.gamepads)
    }

    /// An empty registry handing out `DEFAULT_MAX_PORT` ports.
    pub fn new() -> (r: DevicesManager)
        ensures
            r.wf(),
            r@.gamepads == Seq::<RetroGamePadView>::empty(),
            r@.max_ports == DEFAULT_MAX_PORT,
    {
        let r = DevicesManager { connected_gamepads: Vec::new(), max_ports: DEFAULT_MAX_PORT };
        assert(r@.gamepads =~= Seq::<RetroGamePadView>::empty());
        r
    }

    /// Changes the bound for later connections; gamepads already on higher ports keep them.
    pub fn set_max_port(&mut self, max_port: usize)
        requires
            old(self).wf(),
        ensures
            final(self).wf(),
            final(self)@.gamepads == old(self)@.gamepads,
            final(self)@.max_ports == max_port,
    {
        self.max_ports = max_port;
    }

    pub fn max_port(&self) -> (r: usize)
        ensures
            r == self@.max_ports,
    {
        self.max_ports
    }

    /// A copy of every connected gamepad, in registration order.
    pub fn get_gamepads(&self) -> (r: Vec<RetroGamePad>)
        ensures
            gamepads_view(r@) == self@.gamepads,
    {
        let mut r: Vec<RetroGamePad> = Vec::new();
        let mut i: usize = 0;
        while i < self.connected_gamepads.len()
            invariant
                0 <= i <= self.connected_gamepads.len(),
                gamepads_view(r@) == self@.gamepads.subrange(0, i as int),
            decreases self.connected_gamepads.len() - i,
        {
            let g = self.connected_gamepads[i].duplicate();
            let ghost before = r@;
            r.push(g);
            assert(gamepads_view(r@) =~= gamepads_view(before).push(g@));
            i = i + 1;
            assert(gamepads_view(r@) =~= self@.gamepads.subrange(0, i as int));
        }
        assert(self@.gamepads.subrange(0, i as int) =~= self@.gamepads);
        r
    }

    /// Registers a gamepad on the next port and returns the `Connected` notification.
    pub fn handle_connect(&mut self, inner_id: usize, name: String) -> (r: Notification)
        requires
            old(self).wf(),
        ensures
            final(self).wf(),
            final(self)@ == connect_spec(
                old(self)@,
                inner_id,
                name@,
                final(self)@.gamepads.last().id,
            ),
            (r.0@, r.1@) == (DeviceStateView::Connected, device_of(final(self)@.gamepads.last())),
    {
        let port = get_available_port(&self.connected_gamepads, self.max_ports);
        let gamepad = RetroGamePad::new(inner_id, name, port, RETRO_DEVICE_JOYPAD);
        let device = Device::from_gamepad(&gamepad);
        let ghost g = gamepad@;
        self.connected_gamepads.push(gamepad);
        proof {
            assert(self@.gamepads =~= old(self)@.gamepads.push(g));
            lemma_connect_keeps_wf(old(self)@, inner_id, name@, g.id);
        }
        (DeviceState::Connected, device)
    }

    /// Removes every gamepad with this backend identity; the first one removed is reported.
    pub fn handle_disconnect(&mut self, inner_id: usize) -> (r: Option<Notification>)
        requires
            old(self).wf(),
        ensures
            final(self).wf(),
            (final(self)@, notification_view(r)) == disconnect_spec(old(self)@, inner_id),
    {
        let mut rest: Vec<RetroGamePad> = Vec::new();
        std::mem::swap(&mut rest, &mut self.connected_gamepads);
        let ghost all = gamepads_view(rest@);
        let ghost mut done: Seq<RetroGamePadView> = Seq::empty();
        let mut removed: Option<RetroGamePad> = None;
        assert(all =~= done + gamepads_view(rest@));
        assert(gamepads_view(self.connected_gamepads@) =~= without_identity(done, inner_id));
        while rest.len() > 0
            invariant
                all == old(self)@.gamepads,
                all == done + gamepads_view(rest@),
                gamepads_view(self.connected_gamepads@) == without_identity(done, inner_id),
                self.max_ports == old(self).max_ports,
                match removed {
                    Some(g) => first_by_identity(all, inner_id) == Some(g@),
                    None => first_by_identity(all, inner_id) == first_by_identity(
                        gamepads_view(rest@),
                        inner_id,
                    ),
                },
            decreases rest.len(),
        {
            let ghost before = rest@;
            let ghost kept_before = self.connected_gamepads@;
            let g = rest.remove(0);
            let ghost gv = g@;
            proof {
                assert(gamepads_view(before) =~= seq![gv] + gamepads_view(rest@));
                assert(gamepads_view(before).drop_first() =~= gamepads_view(rest@));
                assert(done.push(gv).drop_last() =~= done);
                assert(all =~= done.push(gv) + gamepads_view(rest@));
            }
            if g.inner_id == inner_id {
                if removed.is_none() {
                    removed = Some(g);
                }
            } else {
                self.connected_gamepads.push(g);
                assert(gamepads_view(self.connected_gamepads@) =~= gamepads_view(kept_before).push(
                    gv,
                ));
            }
            proof {
                done = done.push(gv);
            }
        }
        proof {
            assert(done =~= all);
            lemma_without_identity_keeps_wf(all, inner_id);
        }
        match removed {
            Some(g) => Some((DeviceState::Disconnected, Device::from_gamepad(&g))),
            None => None,
        }
    }

    /// Position of the first gamepad with this backend identity.
    fn index_of_identity(&self, inner_id: usize) -> (r: Option<usize>)
        ensures
            match r {
                Some(i) => i < self@.gamepads.len() && first_by_identity(self@.gamepads, inner_id)
                    == Some(self@.gamepads[i as int]),
                None => first_by_identity(self@.gamepads, inner_id) is None,
            },
    {
        let ghost gs = self@.gamepads;
        let mut i: usize = 0;
        assert(gs.subrange(0, gs.len() as int) =~= gs);
        while i < self.connected_gamepads.len()
            invariant
                0 <= i <= self.connected_gamepads.len(),
                gs == self@.gamepads,
                gs.len() == self.connected_gamepads@.len(),
                first_by_identity(gs, inner_id) == first_by_identity(
                    gs.subrange(i as int, gs.len() as int),
                    inner_id,
                ),
            decreases self.connected_gamepads.len() - i,
        {
            let ghost rest = gs.subrange(i as int, gs.len() as int);
            assert(rest[0] == self.connected_gamepads@[i as int]@);
            if self.connected_gamepads[i].inner_id == inner_id {
                return Some(i);
            }
            assert(rest.drop_first() =~= gs.subrange(i + 1, gs.len() as int));
            i = i + 1;
        }
        None
    }

    /// Position of the first gamepad on this port.
    fn index_of_port(&self, port: i16) -> (r: Option<usize>)
        ensures
            match r {
                Some(i) => i < self@.gamepads.len() && first_by_port(self@.gamepads, port) == Some(
                    self@.gamepads[i as int],
                ),
                None => first_by_port(self@.gamepads, port) is None,
            },
    {
        let ghost gs = self@.gamepads;
        let mut i: usize = 0;
        assert(gs.subrange(0, gs.len() as int) =~= gs);
        while i < self.connected_gamepads.len()
            invariant
                0 <= i <= self.connected_gamepads.len(),
                gs == self@.gamepads,
                gs.len() == self.connected_gamepads@.len(),
                first_by_port(gs, port) == first_by_port(
                    gs.subrange(i as int, gs.len() as int),
                    port,
                ),
            decreases self.connected_gamepads.len() - i,
        {
            let ghost rest = gs.subrange(i as int, gs.len() as int);
            assert(rest[0] == self.connected_gamepads@[i as int]@);
            if self.connected_gamepads[i].retro_port == port {
                return Some(i);
            }
            assert(rest.drop_first() =~= gs.subrange(i + 1, gs.len() as int));
            i = i + 1;
        }
        None
    }

    /// The `ButtonPressed` notification for the first gamepad with this backend identity.
    /// Pressed flags are left to the refresh that follows the batch.
    pub fn handle_button_event(&self, inner_id: usize, button: NativeButton) -> (r: Option<
        Notification,
    >)
        ensures
            notification_view(r) == button_spec(self@, inner_id, button),
    {
        match self.index_of_identity(inner_id) {
            Some(i) => {
                let name = GamepadKeyMap::get_key_name_from_native_button(&button);
                let device = Device::from_gamepad(&self.connected_gamepads[i]);
                Some((DeviceState::ButtonPressed(name.to_owned()), device))
            },
            None => None,
        }
    }

    /// Overwrites the pressed flags of every gamepad with this backend identity from the
    /// buttons the backend reports held.
    pub fn refresh_pressed_state(&mut self, inner_id: usize, held: &Vec<NativeButton>)
        requires
            old(self).wf(),
        ensures
            final(self).wf(),
            final(self)@.gamepads == refresh_identity(old(self)@.gamepads, inner_id, held@),
            final(self)@.max_ports == old(self)@.max_ports,
    {
        let ghost before = self@.gamepads;
        let mut i: usize = 0;
        while i < self.connected_gamepads.len()
            invariant
                0 <= i <= self.connected_gamepads.len(),
                before == old(self)@.gamepads,
                self@.gamepads.len() == before.len(),
                self.max_ports == old(self).max_ports,
                forall|j: int|
                    0 <= j < i ==> self@.gamepads[j] == (if before[j].inner_id == inner_id {
                        refreshed(before[j], held@)
                    } else {
                        before[j]
                    }),
                forall|j: int| i <= j < before.len() ==> self@.gamepads[j] == before[j],
            decreases self.connected_gamepads.len() - i,
        {
            let ghost prev = self@.gamepads;
            if self.connected_gamepads[i].inner_id == inner_id {
                self.connected_gamepads[i].update_key_pressed(held);
                assert(self@.gamepads =~= prev.update(i as int, refreshed(before[i as int], held@)));
            }
            i = i + 1;
        }
        assert(self@.gamepads =~= refresh_identity(before, inner_id, held@));
        proof {
            lemma_refresh_keeps_ports(before, inner_id, held@);
        }
    }

    /// Handles one backend event and returns the notification it raises, if any.
    pub fn handle_event(&mut self, event: &GamepadEvent) -> (r: Option<Notification>)
        requires
            old(self).wf(),
        ensures
            final(self).wf(),
            (final(self)@, notification_view(r)) == step(
                old(self)@,
                event@,
                final(self)@.gamepads.last().id,
            ),
    {
        match &event.event {
            GamepadEventKind::Connected(Some(name)) => Some(
                self.handle_connect(event.id, name.clone()),
            ),
            GamepadEventKind::Connected(None) => None,
            GamepadEventKind::Disconnected => self.handle_disconnect(event.id),
            GamepadEventKind::ButtonPressed(b) => self.handle_button_event(event.id, *b),
            GamepadEventKind::Other => None,
        }
    }

    /// One poll: handles the drained batch in order, then refreshes, from its snapshot, each
    /// gamepad the batch was about. Returns the notifications in the order they were raised.
    /// `uuids` stands for the identifiers drawn for the gamepads the batch registers.
    pub fn update_state(
        &mut self,
        events: &Vec<GamepadEvent>,
        snapshots: &Vec<PressedSnapshot>,
    ) -> (r: Vec<Notification>)
        requires
            old(self).wf(),
        ensures
            final(self).wf(),
            exists|uuids: Seq<u128>|
                uuids.len() == events.len() && (final(self)@, notifications_view(r@))
                    == #[trigger] poll_spec(
                    old(self)@,
                    events_view(events@),
                    snapshots_view(snapshots@),
                    uuids,
                ),
    {
        let ghost s0 = self@;
        let ghost evs = events_view(events@);
        let ghost mut uuids: Seq<u128> = Seq::empty();
        let mut notes: Vec<Notification> = Vec::new();
        let mut i: usize = 0;
        assert(evs.subrange(0, 0) =~= Seq::<GamepadEventView>::empty());
        assert(notifications_view(notes@) =~= Seq::<NotificationView>::empty());
        while i < events.len()
            invariant
                0 <= i <= events.len(),
                self.wf(),
                evs == events_view(events@),
                uuids.len() == i,
                (self@, notifications_view(notes@)) == apply_events(
                    s0,
                    evs.subrange(0, i as int),
                    uuids,
                ),
            decreases events.len() - i,
        {
            let ghost notes_before = notes@;
            let note = self.handle_event(&events[i]);
            proof {
                let u = self@.gamepads.last().id;
                assert(evs.subrange(0, i + 1).drop_last() =~= evs.subrange(0, i as int));
                assert(evs.subrange(0, i + 1).last() == events@[i as int]@);
                assert(uuids.push(u).drop_last() =~= uuids);
                uuids = uuids.push(u);
            }
            match note {
                Some(n) => {
                    let ghost nv = (n.0@, n.1@);
                    notes.push(n);
                    assert(notifications_view(notes@) =~= notifications_view(notes_before).push(
                        nv,
                    ));
                },
                None => {},
            }
            i = i + 1;
        }
        assert(evs.subrange(0, i as int) =~= evs);
        let ghost mid = self@;
        let ghost snaps = snapshots_view(snapshots@);
        let mut k: usize = 0;
        assert(snaps.subrange(0, 0) =~= Seq::<(usize, Seq<NativeButton>)>::empty());
        while k < snapshots.len()
            invariant
                0 <= k <= snapshots.len(),
                self.wf(),
                evs == events_view(events@),
                snaps == snapshots_view(snapshots@),
                self@.max_ports == mid.max_ports,
                self@.gamepads == apply_snapshots(mid.gamepads, evs, snaps.subrange(0, k as int)),
            decreases snapshots.len() - k,
        {
            let snap = &snapshots[k];
            proof {
                assert(snaps.subrange(0, k + 1).drop_last() =~= snaps.subrange(0, k as int));
                assert(snaps.subrange(0, k + 1).last() == (snap.id, snap.held@));
            }
            if batch_contains(events, snap.id) {
                self.refresh_pressed_state(snap.id, &snap.held);
            }
            k = k + 1;
        }
        assert(snaps.subrange(0, k as int) =~= snaps);
        assert((self@, notifications_view(notes@)) == poll_spec(s0, evs, snaps, uuids));
        notes
    }

    /// What the core reads for `key_id` on `port`: 1 or 0 for one button, or the packed mask
    /// when `key_id` is the reserved mask id. Unknown ports, and the sentinel, read 0.
    pub fn get_input_state(&self, port: i16, key_id: i16) -> (r: i16)
        ensures
            r == input_state_spec(self@.gamepads, port, key_id),
    {
        if port < 0 {
            return 0;
        }
        match self.index_of_port(port) {
            Some(i) => {
                if key_id as i32 == crate::key_map::RETRO_DEVICE_ID_JOYPAD_MASK as i32 {
                    self.connected_gamepads[i].get_key_bitmask()
                } else {
                    self.connected_gamepads[i].get_key_pressed(key_id)
                }
            },
            None => 0,
        }
    }

    /// Whether a gamepad answers on the requested port, so that the request can go on to the
    /// backend's actuator.
    pub fn apply_rumble(&self, rubble: DeviceRubble) -> (r: bool)
        ensures
            r == (rubble.port <= i16::MAX && first_by_port(self@.gamepads, rubble.port as i16) is Some),
    {
        if rubble.port > 32767 {
            return false;
        }
        self.index_of_port(rubble.port as i16).is_some()
    }
}

} // verus!
