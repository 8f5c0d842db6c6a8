use vstd::prelude::*;

use crate::devices_manager::DevicesRequireFunctions;
use crate::key_map::{default_key_map, GamepadKeyMap, NativeButton};

verus! {

/// A connected gamepad as the registry tracks it.
#[derive(Debug, Clone)]
pub struct RetroGamePad {
    /// Random identifier drawn when the gamepad was registered.
    pub id: u128,
    /// Identity of the gamepad in the backend, unique while it stays connected.
    pub inner_id: usize,
    pub name: String,
    /// Port the core addresses this gamepad by; -1 when every port was taken.
    pub retro_port: i16,
    /// libretro device class.
    pub retro_type: u32,
    pub key_map: Vec<GamepadKeyMap>,
}

pub struct RetroGamePadView {
    pub id: u128,
    pub inner_id: usize,
    pub name: Seq<char>,
    pub retro_port: i16,
    pub retro_type: u32,
    pub key_map: Seq<GamepadKeyMap>,
}

impl View for RetroGamePad {
    type V = RetroGamePadView;

    open spec fn view(&self) -> RetroGamePadView {
        RetroGamePadView {
            id: self.id,
            inner_id: self.inner_id,
            name: self.name@,
            retro_port: self.retro_port,
            retro_type: self.retro_type,
            key_map: self.key_map@,
        }
    }
}

/// A gamepad as registered: the default key map, nothing held.
pub open spec fn fresh_gamepad(
    id: u128,
    inner_id: usize,
    name: Seq<char>,
    retro_port: i16,
    retro_type: u32,
) -> RetroGamePadView {
    RetroGamePadView { id, inner_id, name, retro_port, retro_type, key_map: default_key_map() }
}

/// 1 when the first binding of `key_id` is held, 0 when it is released or unbound.
pub open spec fn key_state(km: Seq<GamepadKeyMap>, key_id: i16) -> i16
    decreases km.len(),
{
    if km.len() == 0 {
        0
    } else if km[0].retro as int == key_id as int {
        if km[0].pressed {
            1
        } else {
            0
        }
    } else {
        key_state(km.drop_first(), key_id)
    }
}

/// The bit a binding contributes to the mask: bit `retro` when held.
/// Ids that do not fit a 16-bit mask contribute nothing.
pub open spec fn key_bit(e: GamepadKeyMap) -> u16 {
    if e.pressed && e.retro < 16 {
        1u16 << (e.retro as u16)
    } else {
        0
    }
}

/// Every held binding's id as a bit position of one mask.
pub open spec fn key_bitmask(km: Seq<GamepadKeyMap>) -> u16
    decreases km.len(),
{
    if km.len() == 0 {
        0
    } else {
        key_bitmask(km.drop_last()) | key_bit(km.last())
    }
}

/// A binding after a refresh: held exactly when the backend reports its button held.
pub open spec fn refreshed_key(e: GamepadKeyMap, held: Seq<NativeButton>) -> GamepadKeyMap {
    GamepadKeyMap { native: e.native, retro: e.retro, pressed: held.contains(e.native) }
}

/// A gamepad after a refresh from the buttons the backend reports held.
pub open spec fn refreshed(g: RetroGamePadView, held: Seq<NativeButton>) -> RetroGamePadView {
    RetroGamePadView {
        id: g.id,
        inner_id: g.inner_id,
        name: g.name,
        retro_port: g.retro_port,
        retro_type: g.retro_type,
        key_map: g.key_map.map_values(|e: GamepadKeyMap| refreshed_key(e, held)),
    }
}

/// Relies on uuid::Uuid::new_v4, read back with Uuid::as_u128: a random identifier whose
/// version field is 4 and whose variant bits are 0b10.
#[verifier::external_body]
fn random_uuid() -> (r: u128)
    ensures
        (r >> 76u128) & 0xfu128 == 4,
        (r >> 62u128) & 0x3u128 == 2,
{
    uuid::Uuid::new_v4().as_u128()
}

/// Whether `b` is among the buttons of `held`.
pub fn holds_button(held: &Vec<NativeButton>, b: NativeButton) -> (r: bool)
    ensures
        r == held@.contains(b),
{
    let mut i: usize = 0;
    while i < held.len()
        invariant
            0 <= i <= held.len(),
            forall|j: int| 0 <= j < i ==> held@[j] != b,
        decreases held.len() - i,
    {
        if held[i] == b {
            return true;
        }
        i = i + 1;
    }
    false
}

impl RetroGamePad {
    /// A gamepad with a fresh random identifier and the default key map.
    pub fn new(inner_id: usize, name: String, retro_port: i16, retro_type: u32) -> (r: RetroGamePad)
        ensures
            r@ == fresh_gamepad(r.id, inner_id, name@, retro_port, retro_type),
            (r.id >> 76u128) & 0xfu128 == 4,
            (r.id >> 62u128) & 0x3u128 == 2,
    {
        RetroGamePad {
            id: random_uuid(),
            inner_id,
            name,
            retro_port,
            retro_type,
            key_map: GamepadKeyMap::get_default_key_maps(),
        }
    }

    /// A copy that keeps every field.
    pub fn duplicate(&self) -> (r: RetroGamePad)
        ensures
            r@ == self@,
    {
        let mut key_map: Vec<GamepadKeyMap> = Vec::new();
        let mut i: usize = 0;
        while i < self.key_map.len()
            invariant
                0 <= i <= self.key_map.len(),
                key_map@ == self.key_map@.subrange(0, i as int),
            decreases self.key_map.len() - i,
        {
            key_map.push(self.key_map[i]);
            i = i + 1;
            assert(key_map@ =~= self.key_map@.subrange(0, i as int));
        }
        assert(key_map@ =~= self.key_map@);
        RetroGamePad {
            id: self.id,
            inner_id: self.inner_id,
            name: self.name.clone(),
            retro_port: self.retro_port,
            retro_type: self.retro_type,
            key_map,
        }
    }

    /// Overwrites every binding's pressed flag from the buttons the backend reports held.
    pub fn update_key_pressed(&mut self, held: &Vec<NativeButton>)
        ensures
            final(self)@ == refreshed(old(self)@, held@),
    {
        let ghost old_km = self.key_map@;
        let mut i: usize = 0;
        while i < self.key_map.len()
            invariant
                0 <= i <= self.key_map.len(),
                self.key_map@.len() == old_km.len(),
                forall|j: int| 0 <= j < i ==> self.key_map@[j] == refreshed_key(old_km[j], held@),
                forall|j: int| i <= j < old_km.len() ==> self.key_map@[j] == old_km[j],
                self.id == old(self).id,
                self.inner_id == old(self).inner_id,
                self.name@ == old(self).name@,
                self.retro_port == old(self).retro_port,
                self.retro_type == old(self).retro_type,
                old_km == old(self).key_map@,
            decreases self.key_map.len() - i,
        {
            let e = self.key_map[i];
            let pressed = holds_button(held, e.native);
            self.key_map[i] = GamepadKeyMap { native: e.native, retro: e.retro, pressed };
            i = i + 1;
        }
        assert(self.key_map@ =~= old_km.map_values(|e: GamepadKeyMap| refreshed_key(e, held@)));
    }
}

impl DevicesRequireFunctions for RetroGamePad {
    fn get_key_pressed(&self, key_id: i16) -> (r: i16)
        ensures
            r == key_state(self.key_map@, key_id),
    {
        let mut i: usize = 0;
        assert(self.key_map@.subrange(0, self.key_map@.len() as int) =~= self.key_map@);
        while i < self.key_map.len()
            invariant
                0 <= i <= self.key_map.len(),
                key_state(self.key_map@, key_id) == key_state(
                    self.key_map@.subrange(i as int, self.key_map@.len() as int),
                    key_id,
                ),
            decreases self.key_map.len() - i,
        {
            let e = self.key_map[i];
            let ghost rest = self.key_map@.subrange(i as int, self.key_map@.len() as int);
            if key_id >= 0 && e.retro == key_id as u32 {
                assert(rest[0] == e);
                return if e.pressed {
                    1
                } else {
                    0
                };
            }
            assert(rest.drop_first() =~= self.key_map@.subrange(
                i + 1,
                self.key_map@.len() as int,
            ));
            i = i + 1;
        }
        0
    }

    fn get_key_bitmask(&self) -> (r: i16)
        ensures
            r == key_bitmask(self.key_map@) as i16,
    {
        let mut mask: u16 = 0;
        let mut i: usize = 0;
        while i < self.key_map.len()
            invariant
                0 <= i <= self.key_map.len(),
                mask == key_bitmask(self.key_map@.subrange(0, i as int)),
            decreases self.key_map.len() - i,
        {
            let e = self.key_map[i];
            let bit: u16 = if e.pressed && e.retro < 16 {
                1u16 << (e.retro as u16)
            } else {
                0
            };
            let ghost prefix = self.key_map@.subrange(0, i + 1);
            assert(prefix.drop_last() =~= self.key_map@.subrange(0, i as int));
            assert(prefix.last() == e);
            mask = mask | bit;
            i = i + 1;
        }
        assert(self.key_map@.subrange(0, i as int) =~= self.key_map@);
        mask as i16
    }
}

} // verus!
