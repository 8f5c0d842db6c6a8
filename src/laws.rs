use vstd::prelude::*;

use crate::devices_manager::{
    apply_events, apply_snapshots, batch_touches, connect_spec, device_of, disconnect_spec,
    first_by_identity, first_by_port, highest_port, input_state_spec, keeps_default_bindings,
    lemma_connect_keeps_wf, lemma_highest_port_bounds, lemma_refresh_keeps_ports,
    lemma_without_identity_keeps_wf,
    next_port, poll_spec, ports_in_range, refresh_identity, registry_wf, step, without_identity,
    DeviceStateView, DevicesManagerView, GamepadEventKindView, GamepadEventView,
    NotificationView,
};
use crate::key_map::{
    default_key_map, native_button_name, GamepadKeyMap, NativeButton, RETRO_DEVICE_JOYPAD,
    RETRO_DEVICE_ID_JOYPAD_MASK,
};
use crate::retro_gamepad::{
    fresh_gamepad, key_bit, key_bitmask, key_state, RetroGamePadView,
};

verus! {

// ----- ports -----

proof fn lemma_without_identity_from(gs: Seq<RetroGamePadView>, inner_id: usize)
    ensures
        forall|k: int|
            0 <= k < without_identity(gs, inner_id).len() ==> gs.contains(
                #[trigger] without_identity(gs, inner_id)[k],
            ),
    decreases gs.len(),
{
    if gs.len() > 0 {
        let prefix = gs.drop_last();
        lemma_without_identity_from(prefix, inner_id);
        let kept = without_identity(prefix, inner_id);
        let w = without_identity(gs, inner_id);
        assert forall|k: int| 0 <= k < w.len() implies gs.contains(#[trigger] w[k]) by {
            if k < kept.len() {
                assert(w[k] == kept[k] && prefix.contains(kept[k]));
                let j = choose|j: int| 0 <= j < prefix.len() && prefix[j] == kept[k];
                assert(prefix[j] == gs[j]);
            } else {
                assert(w[k] == gs[gs.len() - 1]);
            }
        }
    }
}

proof fn lemma_step_keeps_wf(s: DevicesManagerView, ev: GamepadEventView, uuid: u128)
    requires
        registry_wf(s.gamepads),
    ensures
        registry_wf(step(s, ev, uuid).0.gamepads),
        step(s, ev, uuid).0.max_ports == s.max_ports,
        ports_in_range(s.gamepads, s.max_ports) ==> ports_in_range(
            step(s, ev, uuid).0.gamepads,
            s.max_ports,
        ),
{
    match ev.event {
        GamepadEventKindView::Connected(Some(name)) => {
            lemma_connect_keeps_wf(s, ev.id, name, uuid);
        },
        GamepadEventKindView::Disconnected => {
            lemma_without_identity_keeps_wf(s.gamepads, ev.id);
            lemma_without_identity_from(s.gamepads, ev.id);
            let w = without_identity(s.gamepads, ev.id);
            if ports_in_range(s.gamepads, s.max_ports) {
                assert forall|k: int| 0 <= k < w.len() implies #[trigger] w[k].retro_port == -1 || (0
                    <= w[k].retro_port < s.max_ports) by {
                    assert(s.gamepads.contains(w[k]));
                    let j = choose|j: int| 0 <= j < s.gamepads.len() && s.gamepads[j] == w[k];
                    assert(s.gamepads[j].retro_port == -1 || (0 <= s.gamepads[j].retro_port
                        < s.max_ports));
                }
            }
        },
        _ => {},
    }
}

proof fn lemma_apply_events_keeps_wf(
    s: DevicesManagerView,
    evs: Seq<GamepadEventView>,
    uuids: Seq<u128>,
)
    requires
        registry_wf(s.gamepads),
    ensures
        registry_wf(apply_events(s, evs, uuids).0.gamepads),
        apply_events(s, evs, uuids).0.max_ports == s.max_ports,
        ports_in_range(s.gamepads, s.max_ports) ==> ports_in_range(
            apply_events(s, evs, uuids).0.gamepads,
            s.max_ports,
        ),
    decreases evs.len(),
{
    if evs.len() > 0 {
        lemma_apply_events_keeps_wf(s, evs.drop_last(), uuids.drop_last());
        let prev = apply_events(s, evs.drop_last(), uuids.drop_last());
        lemma_step_keeps_wf(prev.0, evs.last(), uuids.last());
    }
}

proof fn lemma_apply_snapshots_keeps_ports(
    gs: Seq<RetroGamePadView>,
    evs: Seq<GamepadEventView>,
    snaps: Seq<(usize, Seq<NativeButton>)>,
)
    requires
        registry_wf(gs),
    ensures
        registry_wf(apply_snapshots(gs, evs, snaps)),
        apply_snapshots(gs, evs, snaps).len() == gs.len(),
        forall|j: int|
            0 <= j < gs.len() ==> (#[trigger] apply_snapshots(gs, evs, snaps)[j]).retro_port
                == gs[j].retro_port,
    decreases snaps.len(),
{
    if snaps.len() > 0 {
        lemma_apply_snapshots_keeps_ports(gs, evs, snaps.drop_last());
        let before = apply_snapshots(gs, evs, snaps.drop_last());
        if batch_touches(evs, snaps.last().0) {
            lemma_refresh_keeps_ports(before, snaps.last().0, snaps.last().1);
            assert forall|j: int| 0 <= j < gs.len() implies (#[trigger] apply_snapshots(
                gs,
                evs,
                snaps,
            )[j]).retro_port == gs[j].retro_port by {
                assert(before[j].retro_port == gs[j].retro_port);
            }
        }
    }
}

/// Port uniqueness: whatever a poll delivers, and in whatever order, no two connected gamepads
/// share a port, and every port handed out lies in `[0, max_ports)` while the others hold the
/// sentinel -1. This holds of every poll that starts from such a registry (a new one, say), so
/// it holds of any sequence of polls.
pub proof fn lemma_poll_keeps_ports_unique(
    s: DevicesManagerView,
    evs: Seq<GamepadEventView>,
    snaps: Seq<(usize, Seq<NativeButton>)>,
    uuids: Seq<u128>,
)
    requires
        registry_wf(s.gamepads),
        ports_in_range(s.gamepads, s.max_ports),
    ensures
        registry_wf(poll_spec(s, evs, snaps, uuids).0.gamepads),
        ports_in_range(poll_spec(s, evs, snaps, uuids).0.gamepads, s.max_ports),
        poll_spec(s, evs, snaps, uuids).0.max_ports == s.max_ports,
{
    lemma_apply_events_keeps_wf(s, evs, uuids);
    let mid = apply_events(s, evs, uuids).0.gamepads;
    lemma_apply_snapshots_keeps_ports(mid, evs, snaps);
    let out = apply_snapshots(mid, evs, snaps);
    assert forall|k: int| 0 <= k < out.len() implies #[trigger] out[k].retro_port == -1 || (0
        <= out[k].retro_port < s.max_ports) by {
        assert(out[k].retro_port == mid[k].retro_port);
    }
}

/// Whether an event announces a gamepad the backend still lists.
pub open spec fn announces_gamepad(ev: GamepadEventView) -> bool {
    match ev.event {
        GamepadEventKindView::Connected(Some(_)) => true,
        _ => false,
    }
}

/// The port of the `k`-th gamepad to connect to a registry nobody has left: `k` while that is
/// below `max_ports` (and fits the port type), else the sentinel -1.
pub open spec fn port_in_order(k: int, max_ports: usize) -> i16 {
    if k < max_ports && k <= i16::MAX {
        k as i16
    } else {
        -1i16
    }
}

pub open spec fn min3(a: int, b: int, c: int) -> int {
    if a <= b && a <= c {
        a
    } else if b <= c {
        b
    } else {
        c
    }
}

proof fn lemma_connections_in_order(max_ports: usize, evs: Seq<GamepadEventView>, uuids: Seq<u128>)
    requires
        forall|i: int| 0 <= i < evs.len() ==> announces_gamepad(#[trigger] evs[i]),
    ensures
        ({
            let gs = apply_events(
                DevicesManagerView { gamepads: Seq::empty(), max_ports },
                evs,
                uuids,
            ).0.gamepads;
            &&& gs.len() == evs.len()
            &&& highest_port(gs) == min3(evs.len() as int, max_ports as int, i16::MAX + 1) - 1
            &&& apply_events(
                DevicesManagerView { gamepads: Seq::empty(), max_ports },
                evs,
                uuids,
            ).0.max_ports == max_ports
            &&& forall|k: int| 0 <= k < gs.len() ==> (#[trigger] gs[k]).retro_port == port_in_order(
                k,
                max_ports,
            )
        }),
    decreases evs.len(),
{
    let s0 = DevicesManagerView { gamepads: Seq::empty(), max_ports };
    if evs.len() > 0 {
        let n = evs.len() - 1;
        assert forall|i: int| 0 <= i < evs.drop_last().len() implies announces_gamepad(
            #[trigger] evs.drop_last()[i],
        ) by {
            assert(evs.drop_last()[i] == evs[i]);
        }
        lemma_connections_in_order(max_ports, evs.drop_last(), uuids.drop_last());
        let prev = apply_events(s0, evs.drop_last(), uuids.drop_last()).0;
        assert(announces_gamepad(evs[n]));
        let gs = apply_events(s0, evs, uuids).0.gamepads;
        assert(gs.drop_last() =~= prev.gamepads);
        assert(gs.last().retro_port == next_port(prev.gamepads, max_ports));
        assert(gs.last().retro_port == port_in_order(n, max_ports));
        assert forall|k: int| 0 <= k < gs.len() implies (#[trigger] gs[k]).retro_port
            == port_in_order(k, max_ports) by {
            if k < n {
                assert(gs[k] == prev.gamepads[k]);
            }
        }
    }
}

/// Exhaustion: gamepads that connect one after another to a new registry, none leaving, get
/// the ports 0, 1, 2, ... in order while those stay below `max_ports`; every later one gets the
/// sentinel -1. So the `(max_ports + 1)`-th simultaneous connection gets -1.
pub proof fn lemma_exhaustion_gives_sentinel(
    max_ports: usize,
    evs: Seq<GamepadEventView>,
    uuids: Seq<u128>,
)
    requires
        forall|i: int| 0 <= i < evs.len() ==> announces_gamepad(#[trigger] evs[i]),
    ensures
        ({
            let gs = apply_events(
                DevicesManagerView { gamepads: Seq::empty(), max_ports },
                evs,
                uuids,
            ).0.gamepads;
            &&& gs.len() == evs.len()
            &&& forall|k: int| 0 <= k < gs.len() ==> (#[trigger] gs[k]).retro_port == port_in_order(
                k,
                max_ports,
            )
            &&& evs.len() > max_ports ==> gs[max_ports as int].retro_port == -1
        }),
{
    lemma_connections_in_order(max_ports, evs, uuids);
}

/// Exhaustion, in any registry: while `max_ports` connected gamepads hold real ports, a
/// further connection gets the sentinel -1, whatever connected and left before.
pub proof fn lemma_full_registry_gives_sentinel(s: DevicesManagerView)
    requires
        registry_wf(s.gamepads),
        s.gamepads.len() >= s.max_ports,
        forall|i: int|
            0 <= i < s.gamepads.len() ==> 0 <= (#[trigger] s.gamepads[i]).retro_port
                < s.max_ports,
    ensures
        next_port(s.gamepads, s.max_ports) == -1,
{
    let gs = s.gamepads;
    let ports = gs.map_values(|g: RetroGamePadView| g.retro_port as int);
    let h = highest_port(gs);
    lemma_highest_port_bounds(gs);
    assert forall|i: int, j: int| 0 <= i < ports.len() && 0 <= j < ports.len() && i != j implies ports[i]
        != ports[j] by {
        assert(gs[i].retro_port != gs[j].retro_port);
    }
    assert(ports.no_duplicates());
    ports.unique_seq_to_set();
    vstd::set_lib::lemma_int_range(0, h + 1);
    assert forall|p: int| ports.to_set().contains(p) implies vstd::set_lib::set_int_range(
        0,
        h + 1,
    ).contains(p) by {
        let i = choose|i: int| 0 <= i < ports.len() && ports[i] == p;
        assert(gs[i].retro_port as int <= h);
    }
    vstd::set_lib::lemma_len_subset(ports.to_set(), vstd::set_lib::set_int_range(0, h + 1));
}

/// Disconnect and reconnect: after one gamepad leaves and another connects, the newcomer's
/// port is held by no gamepad still connected (the sentinel is no port).
pub proof fn lemma_reconnect_takes_free_port(
    s: DevicesManagerView,
    gone: usize,
    newcomer: usize,
    name: Seq<char>,
    uuids: Seq<u128>,
)
    requires
        registry_wf(s.gamepads),
        uuids.len() == 2,
    ensures
        ({
            let evs = seq![
                GamepadEventView { id: gone, event: GamepadEventKindView::Disconnected },
                GamepadEventView {
                    id: newcomer,
                    event: GamepadEventKindView::Connected(Some(name)),
                },
            ];
            let after = apply_events(s, evs, uuids).0.gamepads;
            let port = after.last().retro_port;
            &&& after.len() >= 1
            &&& forall|j: int|
                0 <= j < after.len() - 1 ==> port == -1 || (#[trigger] after[j]).retro_port != port
        }),
{
    let e0 = GamepadEventView { id: gone, event: GamepadEventKindView::Disconnected };
    let e1 = GamepadEventView { id: newcomer, event: GamepadEventKindView::Connected(Some(name)) };
    let evs = seq![e0, e1];
    assert(evs.drop_last() =~= seq![e0]);
    assert(seq![e0].drop_last() =~= Seq::<GamepadEventView>::empty());
    let s1 = disconnect_spec(s, gone).0;
    let empty = Seq::<GamepadEventView>::empty();
    assert(apply_events(s, empty, uuids.drop_last().drop_last()).0 == s);
    assert(apply_events(s, seq![e0], uuids.drop_last()).0 == s1);
    let after = apply_events(s, evs, uuids).0.gamepads;
    assert(after == connect_spec(s1, newcomer, name, uuids.last()).gamepads);
    lemma_highest_port_bounds(s1.gamepads);
    assert forall|j: int| 0 <= j < after.len() - 1 implies after.last().retro_port == -1 || (
    #[trigger] after[j]).retro_port != after.last().retro_port by {
        assert(after[j] == s1.gamepads[j]);
    }
}

// ----- listener notifications -----

proof fn lemma_absent_identity(gs: Seq<RetroGamePadView>, inner_id: usize)
    requires
        first_by_identity(gs, inner_id) is None,
    ensures
        forall|k: int| 0 <= k < gs.len() ==> (#[trigger] gs[k]).inner_id != inner_id,
    decreases gs.len(),
{
    if gs.len() > 0 {
        lemma_absent_identity(gs.drop_first(), inner_id);
        assert forall|k: int| 0 <= k < gs.len() implies (#[trigger] gs[k]).inner_id != inner_id by {
            if k > 0 {
                assert(gs[k] == gs.drop_first()[k - 1]);
            }
        }
    }
}

proof fn lemma_without_absent_identity(gs: Seq<RetroGamePadView>, inner_id: usize)
    requires
        forall|k: int| 0 <= k < gs.len() ==> (#[trigger] gs[k]).inner_id != inner_id,
    ensures
        without_identity(gs, inner_id) == gs,
    decreases gs.len(),
{
    if gs.len() > 0 {
        lemma_without_absent_identity(gs.drop_last(), inner_id);
        assert(gs.drop_last().push(gs.last()) =~= gs);
    }
}

proof fn lemma_first_by_identity_after_push(
    gs: Seq<RetroGamePadView>,
    g: RetroGamePadView,
    inner_id: usize,
)
    requires
        first_by_identity(gs, inner_id) is None,
        g.inner_id == inner_id,
    ensures
        first_by_identity(gs.push(g), inner_id) == Some(g),
    decreases gs.len(),
{
    if gs.len() > 0 {
        lemma_first_by_identity_after_push(gs.drop_first(), g, inner_id);
        assert(gs.push(g).drop_first() =~= gs.drop_first().push(g));
    }
}

/// Listener fidelity: a gamepad that connects, presses a button and disconnects raises exactly
/// three notifications, in this order: `Connected`, `ButtonPressed` with the button's name, and
/// `Disconnected`, each carrying the snapshot of that gamepad; the registry ends as it began.
pub proof fn lemma_listener_sees_connect_press_disconnect(
    s: DevicesManagerView,
    inner_id: usize,
    name: Seq<char>,
    button: NativeButton,
    uuids: Seq<u128>,
)
    requires
        registry_wf(s.gamepads),
        first_by_identity(s.gamepads, inner_id) is None,
        uuids.len() == 3,
    ensures
        ({
            let evs = seq![
                GamepadEventView {
                    id: inner_id,
                    event: GamepadEventKindView::Connected(Some(name)),
                },
                GamepadEventView {
                    id: inner_id,
                    event: GamepadEventKindView::ButtonPressed(button),
                },
                GamepadEventView { id: inner_id, event: GamepadEventKindView::Disconnected },
            ];
            let device = device_of(
                fresh_gamepad(
                    uuids[0],
                    inner_id,
                    name,
                    next_port(s.gamepads, s.max_ports),
                    RETRO_DEVICE_JOYPAD,
                ),
            );
            &&& apply_events(s, evs, uuids).1 == seq![
                (DeviceStateView::Connected, device),
                (DeviceStateView::ButtonPressed(native_button_name(button)), device),
                (DeviceStateView::Disconnected, device),
            ]
            &&& apply_events(s, evs, uuids).0 == s
        }),
{
    let e0 = GamepadEventView { id: inner_id, event: GamepadEventKindView::Connected(Some(name)) };
    let e1 = GamepadEventView { id: inner_id, event: GamepadEventKindView::ButtonPressed(button) };
    let e2 = GamepadEventView { id: inner_id, event: GamepadEventKindView::Disconnected };
    let evs = seq![e0, e1, e2];
    assert(evs.drop_last() =~= seq![e0, e1]);
    assert(evs.drop_last().drop_last() =~= seq![e0]);
    assert(seq![e0, e1].drop_last() =~= seq![e0]);
    assert(seq![e0].drop_last() =~= Seq::<GamepadEventView>::empty());
    assert(uuids.drop_last().drop_last().last() == uuids[0]);
    let g = fresh_gamepad(
        uuids[0],
        inner_id,
        name,
        next_port(s.gamepads, s.max_ports),
        RETRO_DEVICE_JOYPAD,
    );
    let device = device_of(g);
    let s1 = connect_spec(s, inner_id, name, uuids[0]);
    assert(s1.gamepads == s.gamepads.push(g));
    let empty = Seq::<GamepadEventView>::empty();
    assert(apply_events(s, empty, uuids.drop_last().drop_last().drop_last()) == (
        s,
        Seq::<NotificationView>::empty(),
    ));
    let r1 = apply_events(s, seq![e0], uuids.drop_last().drop_last());
    assert(r1.0 == s1);
    assert(r1.1 =~= seq![(DeviceStateView::Connected, device)]);
    lemma_first_by_identity_after_push(s.gamepads, g, inner_id);
    let r2 = apply_events(s, seq![e0, e1], uuids.drop_last());
    assert(r2.0 == s1);
    assert(r2.1 =~= seq![
        (DeviceStateView::Connected, device),
        (DeviceStateView::ButtonPressed(native_button_name(button)), device),
    ]);
    lemma_absent_identity(s.gamepads, inner_id);
    lemma_without_absent_identity(s.gamepads, inner_id);
    assert(s.gamepads.push(g).drop_last() =~= s.gamepads);
    assert(without_identity(s1.gamepads, inner_id) == s.gamepads);
    let r3 = apply_events(s, evs, uuids);
    assert(r3.0 == s);
    assert(r3.1 =~= seq![
        (DeviceStateView::Connected, device),
        (DeviceStateView::ButtonPressed(native_button_name(button)), device),
        (DeviceStateView::Disconnected, device),
    ]);
}

// ----- key state and the mask -----

proof fn lemma_bit_of_or(a: u16, b: u16, i: u16)
    by (bit_vector)
    requires
        i < 16,
    ensures
        (((a | b) >> i) & 1u16 == 1u16) == (((a >> i) & 1u16 == 1u16) || ((b >> i) & 1u16
            == 1u16)),
{
}

proof fn lemma_bit_of_single(r: u16, i: u16)
    by (bit_vector)
    requires
        r < 16,
        i < 16,
    ensures
        (((1u16 << r) >> i) & 1u16 == 1u16) == (r == i),
{
}

proof fn lemma_bit_of_zero(i: u16)
    by (bit_vector)
    ensures
        ((0u16 >> i) & 1u16 == 1u16) == false,
{
}

proof fn lemma_mask_cast_round_trip(x: u16)
    by (bit_vector)
    ensures
        (x as i16) as u16 == x,
{
}

/// Bit `i` of a key map's mask is set exactly when a held binding has the id `i`: the mask
/// holds no bit for an id outside the key map.
pub proof fn lemma_key_bitmask_bits(km: Seq<GamepadKeyMap>, i: u16)
    requires
        i < 16,
    ensures
        ((key_bitmask(km) >> i) & 1u16 == 1u16) <==> exists|j: int|
            0 <= j < km.len() && (#[trigger] km[j]).retro == i && km[j].pressed,
    decreases km.len(),
{
    if km.len() == 0 {
        lemma_bit_of_zero(i);
    } else {
        let prefix = km.drop_last();
        let e = km.last();
        lemma_key_bitmask_bits(prefix, i);
        lemma_bit_of_or(key_bitmask(prefix), key_bit(e), i);
        if e.pressed && e.retro < 16 {
            lemma_bit_of_single(e.retro as u16, i);
        } else {
            lemma_bit_of_zero(i);
        }
        if exists|j: int| 0 <= j < prefix.len() && (#[trigger] prefix[j]).retro == i && prefix[j].pressed {
            let j = choose|j: int|
                0 <= j < prefix.len() && (#[trigger] prefix[j]).retro == i && prefix[j].pressed;
            assert(km[j] == prefix[j]);
        }
        if exists|j: int| 0 <= j < km.len() && (#[trigger] km[j]).retro == i && km[j].pressed {
            let j = choose|j: int| 0 <= j < km.len() && (#[trigger] km[j]).retro == i && km[j].pressed;
            if j < km.len() - 1 {
                assert(prefix[j] == km[j]);
            }
        }
    }
}

/// Position of a libretro id in the default bindings.
spec fn default_binding_index(retro: u32) -> int {
    if retro == crate::key_map::RETRO_DEVICE_ID_JOYPAD_DOWN {
        0
    } else if retro == crate::key_map::RETRO_DEVICE_ID_JOYPAD_LEFT {
        1
    } else if retro == crate::key_map::RETRO_DEVICE_ID_JOYPAD_UP {
        2
    } else if retro == crate::key_map::RETRO_DEVICE_ID_JOYPAD_RIGHT {
        3
    } else if retro == crate::key_map::RETRO_DEVICE_ID_JOYPAD_B {
        4
    } else if retro == crate::key_map::RETRO_DEVICE_ID_JOYPAD_A {
        5
    } else if retro == crate::key_map::RETRO_DEVICE_ID_JOYPAD_X {
        6
    } else if retro == crate::key_map::RETRO_DEVICE_ID_JOYPAD_Y {
        7
    } else if retro == crate::key_map::RETRO_DEVICE_ID_JOYPAD_L {
        8
    } else if retro == crate::key_map::RETRO_DEVICE_ID_JOYPAD_R {
        9
    } else if retro == crate::key_map::RETRO_DEVICE_ID_JOYPAD_L2 {
        10
    } else if retro == crate::key_map::RETRO_DEVICE_ID_JOYPAD_R2 {
        11
    } else if retro == crate::key_map::RETRO_DEVICE_ID_JOYPAD_L3 {
        12
    } else if retro == crate::key_map::RETRO_DEVICE_ID_JOYPAD_R3 {
        13
    } else if retro == crate::key_map::RETRO_DEVICE_ID_JOYPAD_START {
        14
    } else {
        15
    }
}

/// The default bindings give each libretro id below 16 to exactly one button.
proof fn lemma_default_ids_distinct()
    ensures
        default_key_map().len() == 16,
        forall|a: int| 0 <= a < 16 ==> (#[trigger] default_key_map()[a]).retro < 16,
        forall|a: int, b: int|
            0 <= a < 16 && 0 <= b < 16 && a != b ==> (#[trigger] default_key_map()[a]).retro
                != (#[trigger] default_key_map()[b]).retro,
{
    let d = default_key_map();
    assert forall|a: int| 0 <= a < 16 implies default_binding_index(#[trigger] d[a].retro) == a
        && d[a].retro < 16 by {
        if a == 0 {
        } else if a == 1 {
        } else if a == 2 {
        } else if a == 3 {
        } else if a == 4 {
        } else if a == 5 {
        } else if a == 6 {
        } else if a == 7 {
        } else if a == 8 {
        } else if a == 9 {
        } else if a == 10 {
        } else if a == 11 {
        } else if a == 12 {
        } else if a == 13 {
        } else if a == 14 {
        } else {
        }
    }
    assert forall|a: int, b: int|
        0 <= a < 16 && 0 <= b < 16 && a != b implies (#[trigger] d[a]).retro
        != (#[trigger] d[b]).retro by {
        assert(default_binding_index(d[a].retro) == a);
        assert(default_binding_index(d[b].retro) == b);
    }
}

/// With ids bound once each, the single-id query reads 1 exactly when the binding of that id
/// is held.
proof fn lemma_key_state_of_unique_ids(km: Seq<GamepadKeyMap>, i: i16)
    requires
        forall|a: int, b: int|
            0 <= a < km.len() && 0 <= b < km.len() && a != b ==> (#[trigger] km[a]).retro
                != (#[trigger] km[b]).retro,
    ensures
        key_state(km, i) == 1 <==> exists|j: int|
            0 <= j < km.len() && (#[trigger] km[j]).retro as int == i as int && km[j].pressed,
    decreases km.len(),
{
    if km.len() > 0 {
        let rest = km.drop_first();
        assert forall|a: int, b: int|
            0 <= a < rest.len() && 0 <= b < rest.len() && a != b implies (#[trigger] rest[a]).retro
            != (#[trigger] rest[b]).retro by {
            assert(rest[a] == km[a + 1] && rest[b] == km[b + 1]);
        }
        lemma_key_state_of_unique_ids(rest, i);
        if exists|j: int| 0 <= j < km.len() && (#[trigger] km[j]).retro as int == i as int && km[j].pressed {
            let j = choose|j: int|
                0 <= j < km.len() && (#[trigger] km[j]).retro as int == i as int && km[j].pressed;
            if j > 0 {
                assert(rest[j - 1] == km[j]);
            }
        }
        if exists|j: int| 0 <= j < rest.len() && (#[trigger] rest[j]).retro as int == i as int && rest[j].pressed {
            let j = choose|j: int|
                0 <= j < rest.len() && (#[trigger] rest[j]).retro as int == i as int && rest[j].pressed;
            assert(km[j + 1] == rest[j]);
        }
    }
}

proof fn lemma_first_by_port_is_member(gs: Seq<RetroGamePadView>, port: i16)
    requires
        first_by_port(gs, port) is Some,
    ensures
        gs.contains(first_by_port(gs, port)->Some_0),
        (first_by_port(gs, port)->Some_0).retro_port == port,
    decreases gs.len(),
{
    if gs[0].retro_port != port {
        lemma_first_by_port_is_member(gs.drop_first(), port);
        let g = first_by_port(gs, port)->Some_0;
        let j = choose|j: int| 0 <= j < gs.drop_first().len() && gs.drop_first()[j] == g;
        assert(gs[j + 1] == g);
    } else {
        assert(gs[0] == first_by_port(gs, port)->Some_0);
    }
}

/// Bitmask round trip: on the gamepad a port addresses, bit `i` of the mask query is set exactly
/// when the query for the single id `i` reads 1, which is exactly when the button bound to `i`
/// is held.
pub proof fn lemma_mask_query_round_trip(s: DevicesManagerView, port: i16, i: u16)
    requires
        registry_wf(s.gamepads),
        port >= 0,
        first_by_port(s.gamepads, port) is Some,
        i < 16,
    ensures
        ({
            let mask = input_state_spec(
                s.gamepads,
                port,
                RETRO_DEVICE_ID_JOYPAD_MASK as i16,
            ) as u16;
            let g = first_by_port(s.gamepads, port)->Some_0;
            &&& ((mask >> i) & 1u16 == 1u16) <==> input_state_spec(s.gamepads, port, i as i16)
                == 1
            &&& input_state_spec(s.gamepads, port, i as i16) == 1 <==> exists|j: int|
                0 <= j < g.key_map.len() && (#[trigger] g.key_map[j]).retro == i
                    && g.key_map[j].pressed
        }),
{
    let g = first_by_port(s.gamepads, port)->Some_0;
    lemma_first_by_port_is_member(s.gamepads, port);
    let k = choose|k: int| 0 <= k < s.gamepads.len() && s.gamepads[k] == g;
    assert(keeps_default_bindings(s.gamepads[k]));
    lemma_default_ids_distinct();
    let km = g.key_map;
    assert forall|a: int, b: int|
        0 <= a < km.len() && 0 <= b < km.len() && a != b implies (#[trigger] km[a]).retro
        != (#[trigger] km[b]).retro by {
        assert(km[a].retro == default_key_map()[a].retro);
        assert(km[b].retro == default_key_map()[b].retro);
    }
    lemma_key_state_of_unique_ids(km, i as i16);
    lemma_key_bitmask_bits(km, i);
    lemma_mask_cast_round_trip(key_bitmask(km));
    assert(input_state_spec(s.gamepads, port, i as i16) == key_state(km, i as i16));
    if exists|j: int| 0 <= j < km.len() && (#[trigger] km[j]).retro == i && km[j].pressed {
        let j = choose|j: int| 0 <= j < km.len() && (#[trigger] km[j]).retro == i && km[j].pressed;
        assert(km[j].retro as int == (i as i16) as int);
    }
    if exists|j: int| 0 <= j < km.len() && (#[trigger] km[j]).retro as int == (i as i16) as int && km[j].pressed {
        let j = choose|j: int|
            0 <= j < km.len() && (#[trigger] km[j]).retro as int == (i as i16) as int && km[j].pressed;
        assert(km[j].retro == i);
    }
}

} // verus!
