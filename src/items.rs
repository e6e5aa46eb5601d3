//! Pickup kinds, pickups lying in the world, and their spawner.

use vstd::prelude::*;
use crate::fixed::{CAP, COORD_LIMIT, add_capped, capped_sum, scaled, circles_overlap, overlap};
use crate::player::Player;

verus! {

/// The kinds of pickup.
#[derive(Clone, Copy, Debug, PartialEq, Eq, Structural, Hash)]
pub enum ItemType {
    Shield,
    SpeedBoost,
    SlowMotion,
    Magnet,
    PhaseShift,
    TimeFreeze,
    DoublePoints,
    Overdrive,
    BlackHole,
}

/// Base duration of the effect a pickup grants, in microseconds; `None`
/// for a kind that grants no timed effect.
pub open spec fn base_duration_spec(kind: ItemType) -> Option<u64> {
    match kind {
        ItemType::Shield => Some(5_000_000),
        ItemType::SpeedBoost => Some(4_000_000),
        ItemType::SlowMotion => Some(6_000_000),
        ItemType::Magnet => Some(8_000_000),
        ItemType::PhaseShift => Some(3_000_000),
        ItemType::TimeFreeze => Some(4_000_000),
        ItemType::DoublePoints => Some(10_000_000),
        ItemType::Overdrive => Some(5_000_000),
        ItemType::BlackHole => None,
    }
}

pub fn base_duration(kind: ItemType) -> (r: Option<u64>)
    ensures
        r == base_duration_spec(kind),
        r matches Some(d) ==> d <= 10_000_000,
{
    match kind {
        ItemType::Shield => Some(5_000_000),
        ItemType::SpeedBoost => Some(4_000_000),
        ItemType::SlowMotion => Some(6_000_000),
        ItemType::Magnet => Some(8_000_000),
        ItemType::PhaseShift => Some(3_000_000),
        ItemType::TimeFreeze => Some(4_000_000),
        ItemType::DoublePoints => Some(10_000_000),
        ItemType::Overdrive => Some(5_000_000),
        ItemType::BlackHole => None,
    }
}

/// Life span of a pickup (microseconds).
pub const ITEM_LIFETIME: u64 = 8_000_000;

/// Age at which a pickup starts to blink (microseconds).
pub const ITEM_BLINK_START: u64 = 6_000_000;

/// Time between two pickups spawning (microseconds).
pub const ITEM_SPAWN_INTERVAL: u64 = 3_000_000;

/// Radius of a pickup, and its distance from the edges (thousandths of a pixel).
pub const ITEM_SIZE: u64 = 20_000;
pub const ITEM_MARGIN: u64 = 50_000;

/// The kind at each position of the spawn table.
pub open spec fn kind_at(i: int) -> ItemType {
    if i == 0 {
        ItemType::Shield
    } else if i == 1 {
        ItemType::SpeedBoost
    } else if i == 2 {
        ItemType::SlowMotion
    } else if i == 3 {
        ItemType::Magnet
    } else if i == 4 {
        ItemType::PhaseShift
    } else if i == 5 {
        ItemType::TimeFreeze
    } else if i == 6 {
        ItemType::DoublePoints
    } else if i == 7 {
        ItemType::Overdrive
    } else {
        ItemType::BlackHole
    }
}

pub fn kind_from_roll(roll: u32) -> (r: ItemType)
    ensures
        r == kind_at(roll as int % 9),
{
    match roll % 9 {
        0 => ItemType::Shield,
        1 => ItemType::SpeedBoost,
        2 => ItemType::SlowMotion,
        3 => ItemType::Magnet,
        4 => ItemType::PhaseShift,
        5 => ItemType::TimeFreeze,
        6 => ItemType::DoublePoints,
        7 => ItemType::Overdrive,
        _ => ItemType::BlackHole,
    }
}

/// A pickup lying in the world.
#[derive(Clone, Copy, Debug, PartialEq, Eq, Structural)]
pub struct Item {
    pub x: i64,
    pub y: i64,
    pub item_type: ItemType,
    /// Time of spawning, life span and blinking start (microseconds).
    pub spawn_time: u64,
    pub lifetime: u64,
    pub blink_start_time: u64,
    pub size: u64,
}

/// Random draws for a new pickup: its kind (taken modulo nine) and its
/// place across and down the play area (each in `0..=1000`).
#[derive(Clone, Copy, Debug, PartialEq, Eq, Structural)]
pub struct ItemRolls {
    pub kind_roll: u32,
    pub x_roll: u32,
    pub y_roll: u32,
}

/// The pickup that `rolls` describe, spawned at `now` at least
/// `ITEM_MARGIN` inside a `screen_w` by `screen_h` play area.
pub open spec fn spawned_item(now: u64, rolls: ItemRolls, screen_w: u64, screen_h: u64) -> Item {
    let span_w = if screen_w >= 2 * ITEM_MARGIN { screen_w - 2 * ITEM_MARGIN } else { 0 };
    let span_h = if screen_h >= 2 * ITEM_MARGIN { screen_h - 2 * ITEM_MARGIN } else { 0 };
    Item {
        x: (ITEM_MARGIN + rolls.x_roll * span_w / 1000) as i64,
        y: (ITEM_MARGIN + rolls.y_roll * span_h / 1000) as i64,
        item_type: kind_at(rolls.kind_roll as int % 9),
        spawn_time: now,
        lifetime: ITEM_LIFETIME,
        blink_start_time: ITEM_BLINK_START,
        size: ITEM_SIZE,
    }
}

impl Item {
    pub open spec fn wf(&self) -> bool {
        &&& -COORD_LIMIT <= self.x <= COORD_LIMIT
        &&& -COORD_LIMIT <= self.y <= COORD_LIMIT
        &&& self.size <= CAP
    }

    /// The pickup is still there at time `now`.
    pub open spec fn alive_at(&self, now: u64) -> bool {
        now < self.spawn_time + self.lifetime
    }
}

/// The pickups of `s` still there at `now`, in order.
pub open spec fn alive_items(s: Seq<Item>, now: u64) -> Seq<Item>
    decreases s.len(),
{
    if s.len() == 0 {
        s
    } else {
        let prev = alive_items(s.drop_last(), now);
        if s.last().alive_at(now) {
            prev.push(s.last())
        } else {
            prev
        }
    }
}

/// The pickup overlaps the player's pickup radius.
pub open spec fn within_reach(i: Item, p: Player) -> bool {
    circles_overlap(
        i.x as int,
        i.y as int,
        i.size as int,
        p.x as int,
        p.y as int,
        scaled(p.current.size as int, 1500),
    )
}

/// The pickups of `s` out of the player's reach, in order.
pub open spec fn items_left(s: Seq<Item>, p: Player) -> Seq<Item>
    decreases s.len(),
{
    if s.len() == 0 {
        s
    } else {
        let prev = items_left(s.drop_last(), p);
        if within_reach(s.last(), p) {
            prev
        } else {
            prev.push(s.last())
        }
    }
}

/// The kinds of the pickups of `s` within the player's reach, in order.
pub open spec fn kinds_collected(s: Seq<Item>, p: Player) -> Seq<ItemType>
    decreases s.len(),
{
    if s.len() == 0 {
        Seq::empty()
    } else {
        let prev = kinds_collected(s.drop_last(), p);
        if within_reach(s.last(), p) {
            prev.push(s.last().item_type)
        } else {
            prev
        }
    }
}

pub open spec fn all_items_wf(s: Seq<Item>) -> bool {
    forall|i: int| 0 <= i < s.len() ==> (#[trigger] s[i]).wf()
}

/// The pickups in the world and the clock that spawns them.
#[derive(Debug)]
pub struct ItemManager {
    pub items: Vec<Item>,
    pub spawn_timer: u64,
    pub spawn_interval: u64,
}

impl ItemManager {
    pub open spec fn wf(&self) -> bool {
        &&& all_items_wf(self.items@)
        &&& self.spawn_timer <= CAP
    }

    pub fn new() -> (r: ItemManager)
        ensures
            r.wf(),
            r.items@.len() == 0,
            r.spawn_timer == 0,
            r.spawn_interval == ITEM_SPAWN_INTERVAL,
    {
        ItemManager { items: Vec::new(), spawn_timer: 0, spawn_interval: ITEM_SPAWN_INTERVAL }
    }

    /// The pickup that `rolls` describe, spawned at `now`, at least
    /// `ITEM_MARGIN` inside a `screen_w` by `screen_h` play area.
    pub fn spawn_random_item(&mut self, now: u64, rolls: ItemRolls, screen_w: u64, screen_h: u64)
        requires
            old(self).wf(),
            screen_w <= COORD_LIMIT,
            screen_h <= COORD_LIMIT,
            rolls.x_roll <= 1000,
            rolls.y_roll <= 1000,
        ensures
            final(self).wf(),
            final(self).spawn_timer == old(self).spawn_timer,
            final(self).spawn_interval == old(self).spawn_interval,
            final(self).items@ == old(self).items@.push(spawned_item(now, rolls, screen_w, screen_h)),
    {
        let span_w = if screen_w >= 2 * ITEM_MARGIN { screen_w - 2 * ITEM_MARGIN } else { 0 };
        let span_h = if screen_h >= 2 * ITEM_MARGIN { screen_h - 2 * ITEM_MARGIN } else { 0 };
        proof {
            assert(rolls.x_roll * span_w <= 1000 * span_w) by (nonlinear_arith)
                requires
                    rolls.x_roll <= 1000,
            ;
            assert(rolls.y_roll * span_h <= 1000 * span_h) by (nonlinear_arith)
                requires
                    rolls.y_roll <= 1000,
            ;
            assert(rolls.x_roll * span_w / 1000 <= span_w) by (nonlinear_arith)
                requires
                    rolls.x_roll * span_w <= 1000 * span_w,
            ;
            assert(rolls.y_roll * span_h / 1000 <= span_h) by (nonlinear_arith)
                requires
                    rolls.y_roll * span_h <= 1000 * span_h,
            ;
        }
        let item = Item {
            x: (ITEM_MARGIN + (rolls.x_roll as u64) * span_w / 1000) as i64,
            y: (ITEM_MARGIN + (rolls.y_roll as u64) * span_h / 1000) as i64,
            item_type: kind_from_roll(rolls.kind_roll),
            spawn_time: now,
            lifetime: ITEM_LIFETIME,
            blink_start_time: ITEM_BLINK_START,
            size: ITEM_SIZE,
        };
        let ghost before = self.items@;
        self.items.push(item);
        proof {
            assert forall|i: int| 0 <= i < self.items@.len() implies (#[trigger] self.items@[i]).wf() by {
                if i < before.len() {
                    assert(self.items@[i] == before[i]);
                }
            }
        }
    }

    /// Advances the spawn clock by `dt`, spawning the pickup that `rolls`
    /// describe when the interval is reached, and drops the pickups whose
    /// life span has passed at `now`.
    pub fn update(
        &mut self,
        dt: u64,
        now: u64,
        rolls: ItemRolls,
        screen_w: u64,
        screen_h: u64,
    ) -> (spawned: bool)
        requires
            old(self).wf(),
            screen_w <= COORD_LIMIT,
            screen_h <= COORD_LIMIT,
            rolls.x_roll <= 1000,
            rolls.y_roll <= 1000,
        ensures
            final(self).wf(),
            spawned == (capped_sum(old(self).spawn_timer as int, dt as int) >= old(self).spawn_interval),
            final(self).spawn_timer == if spawned {
                0
            } else {
                capped_sum(old(self).spawn_timer as int, dt as int)
            },
            final(self).spawn_interval == old(self).spawn_interval,
            !spawned ==> final(self).items@ == alive_items(old(self).items@, now),
            spawned ==> final(self).items@ == alive_items(
                old(self).items@.push(spawned_item(now, rolls, screen_w, screen_h)),
                now,
            ),
    {
        self.spawn_timer = add_capped(self.spawn_timer, dt);
        let spawned = self.spawn_timer >= self.spawn_interval;
        if spawned {
            self.spawn_random_item(now, rolls, screen_w, screen_h);
            self.spawn_timer = 0;
        }
        let ghost start = self.items@;
        let mut kept: Vec<Item> = Vec::new();
        let n = self.items.len();
        for i in 0..n
            invariant
                n == self.items@.len(),
                start == self.items@,
                all_items_wf(start),
                all_items_wf(kept@),
                kept@ == alive_items(start.take(i as int), now),
        {
            let it = self.items[i];
            proof {
                assert(start.take(i + 1).drop_last() =~= start.take(i as int));
            }
            if (now as u128) < (it.spawn_time as u128) + (it.lifetime as u128) {
                kept.push(it);
            }
        }
        proof {
            assert(start.take(n as int) =~= start);
        }
        self.items = kept;
        spawned
    }

    pub fn get_items(&self) -> (r: &Vec<Item>)
        ensures
            r@ == self.items@,
    {
        &self.items
    }

    /// Removes the pickup at `index`, if there is one.
    pub fn remove_item(&mut self, index: usize)
        requires
            old(self).wf(),
        ensures
            final(self).wf(),
            index < old(self).items@.len() ==> final(self).items@ == old(self).items@.remove(index as int),
            index >= old(self).items@.len() ==> final(self).items@ == old(self).items@,
            final(self).spawn_timer == old(self).spawn_timer,
            final(self).spawn_interval == old(self).spawn_interval,
    {
        if index < self.items.len() {
            let ghost before = self.items@;
            self.items.remove(index);
            proof {
                assert forall|i: int| 0 <= i < self.items@.len() implies (#[trigger] self.items@[i]).wf() by {
                    if i < index {
                        assert(self.items@[i] == before[i]);
                    } else {
                        assert(self.items@[i] == before[i + 1]);
                    }
                }
            }
        }
    }

    /// Removes the pickups within the player's reach and returns their
    /// kinds, in order.
    pub fn check_pickups(&mut self, player: &Player) -> (r: Vec<ItemType>)
        requires
            old(self).wf(),
            player.wf(),
        ensures
            final(self).wf(),
            final(self).items@ == items_left(old(self).items@, *player),
            r@ == kinds_collected(old(self).items@, *player),
            final(self).spawn_timer == old(self).spawn_timer,
            final(self).spawn_interval == old(self).spawn_interval,
    {
        let radius = player.get_pickup_radius();
        let ghost start = self.items@;
        let mut kept: Vec<Item> = Vec::new();
        let mut kinds: Vec<ItemType> = Vec::new();
        let n = self.items.len();
        for i in 0..n
            invariant
                n == self.items@.len(),
                start == self.items@,
                player.wf(),
                radius == scaled(player.current.size as int, 1500),
                radius <= CAP,
                all_items_wf(start),
                all_items_wf(kept@),
                kept@ == items_left(start.take(i as int), *player),
                kinds@ == kinds_collected(start.take(i as int), *player),
        {
            let it = self.items[i];
            proof {
                assert(start.take(i + 1).drop_last() =~= start.take(i as int));
            }
            if overlap(it.x, it.y, it.size, player.x, player.y, radius) {
                kinds.push(it.item_type);
            } else {
                kept.push(it);
            }
        }
        proof {
            assert(start.take(n as int) =~= start);
        }
        self.items = kept;
        kinds
    }
}

} // verus!
