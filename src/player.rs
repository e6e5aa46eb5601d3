//! The player: stat block, timed effects and the overrides they impose each
//! frame, damage intake, and skill-driven timers.

use vstd::prelude::*;
use crate::fixed::{
    ONE, SECOND, CAP, COORD_LIMIT, scale, add_capped, share_left, scaled, capped_sum,
    remaining_share,
};
use crate::items::{ItemType, base_duration, base_duration_spec};
use crate::stats::{StatBlock, manager_applied};
use crate::skill_tree::SkillTreeManager;
use crate::bullet::{Bullet, all_bullets_wf, player_shot};
use crate::fixed::{move_coord, moved, mul_div_signed, scale_direction, signed_ratio, clamp_coord};

verus! {

/// A timed effect granted by a pickup.
#[derive(Clone, Copy, Debug, PartialEq, Eq, Structural)]
pub struct ActiveEffect {
    pub effect_type: ItemType,
    /// Time left, in microseconds.
    pub remaining_time: u64,
    /// Duration granted at pickup, in microseconds.
    pub original_duration: u64,
}

/// The values of the current frame: the stat block with the active effects'
/// overrides layered on top.
#[derive(Clone, Copy, Debug, PartialEq, Eq, Structural)]
pub struct FrameStats {
    pub speed_multiplier: u64,
    pub points_multiplier: u64,
    pub damage_reduction: u64,
    pub can_phase_through: bool,
    /// Radius within which pickups are pulled in (thousandths of a pixel).
    pub magnet_range: u64,
    /// Time between shots (microseconds).
    pub max_shoot_cooldown: u64,
    /// Collision radius (thousandths of a pixel).
    pub size: u64,
}

pub open spec fn has_kind(s: Seq<ActiveEffect>, k: ItemType) -> bool {
    exists|i: int| 0 <= i < s.len() && (#[trigger] s[i]).effect_type == k
}

/// At most one effect per kind.
pub open spec fn kinds_distinct(s: Seq<ActiveEffect>) -> bool {
    forall|i: int, j: int|
        0 <= i < j < s.len() ==> (#[trigger] s[i]).effect_type != (#[trigger] s[j]).effect_type
}

pub open spec fn effects_wf(s: Seq<ActiveEffect>) -> bool {
    &&& kinds_distinct(s)
    &&& forall|i: int|
        0 <= i < s.len() ==> (#[trigger] s[i]).remaining_time <= CAP && s[i].original_duration
            <= CAP
}

/// The effects left after `dt` microseconds: each loses `dt`, and those
/// with no time left are gone. Order is kept.
pub open spec fn decay_effects(s: Seq<ActiveEffect>, dt: u64) -> Seq<ActiveEffect>
    decreases s.len(),
{
    if s.len() == 0 {
        s
    } else {
        let prev = decay_effects(s.drop_last(), dt);
        let e = s.last();
        if e.remaining_time > dt {
            prev.push(ActiveEffect { remaining_time: (e.remaining_time - dt) as u64, ..e })
        } else {
            prev
        }
    }
}

/// `s` without its effects of kind `k`.
pub open spec fn without_kind(s: Seq<ActiveEffect>, k: ItemType) -> Seq<ActiveEffect>
    decreases s.len(),
{
    if s.len() == 0 {
        s
    } else {
        let prev = without_kind(s.drop_last(), k);
        if s.last().effect_type == k {
            prev
        } else {
            prev.push(s.last())
        }
    }
}

/// Each effect extended by the share `bonus` of its original duration.
pub open spec fn extended_effects(s: Seq<ActiveEffect>, bonus: u64) -> Seq<ActiveEffect> {
    s.map_values(
        |e: ActiveEffect|
            ActiveEffect {
                remaining_time: capped_sum(
                    e.remaining_time as int,
                    scaled(e.original_duration as int, bonus as int),
                ) as u64,
                ..e
            },
    )
}

/// Duration of a fresh effect of kind `k`: the base duration plus the
/// skill bonus for that kind, scaled by the duration multiplier.
pub open spec fn effect_duration_spec(b: StatBlock, k: ItemType) -> u64 {
    let base = match base_duration_spec(k) {
        Some(d) => d,
        None => 0,
    };
    let bonus = match k {
        ItemType::Shield => b.shield_duration_bonus,
        ItemType::SlowMotion => b.slow_motion_duration_bonus,
        ItemType::PhaseShift => b.phase_duration_bonus,
        ItemType::TimeFreeze => b.time_freeze_duration_bonus,
        _ => 0,
    };
    scaled(capped_sum(base as int, bonus as int), b.item_effect_duration_multiplier as int) as u64
}

/// The current frame's values. Shield, SpeedBoost, Magnet, PhaseShift and
/// Overdrive override their stat; DoublePoints and Overdrive multiply into
/// the points multiplier, together and with the permanent one.
pub open spec fn frame_stats_spec(
    b: StatBlock,
    base_size: u64,
    screen_scale: u64,
    s: Seq<ActiveEffect>,
) -> FrameStats {
    let doubled = if has_kind(s, ItemType::DoublePoints) {
        scaled(b.points_multiplier as int, 2000)
    } else {
        b.points_multiplier as int
    };
    let overdrive = has_kind(s, ItemType::Overdrive);
    FrameStats {
        speed_multiplier: if has_kind(s, ItemType::SpeedBoost) {
            scaled(b.speed_boost_effectiveness as int, 2000) as u64
        } else {
            b.speed_multiplier
        },
        points_multiplier: if overdrive {
            scaled(doubled, 3000) as u64
        } else {
            doubled as u64
        },
        damage_reduction: if has_kind(s, ItemType::Shield) {
            500
        } else {
            b.damage_reduction
        },
        can_phase_through: has_kind(s, ItemType::PhaseShift),
        magnet_range: if has_kind(s, ItemType::Magnet) {
            scaled(scaled(screen_scale as int, 150), b.magnet_range_multiplier as int) as u64
        } else {
            0
        },
        max_shoot_cooldown: if overdrive {
            scaled(b.base_shoot_cooldown as int, 300) as u64
        } else {
            b.base_shoot_cooldown
        },
        size: if overdrive {
            scaled(
                scaled(base_size as int, 1500),
                remaining_share(b.overdrive_hitbox_reduction as int),
            ) as u64
        } else {
            base_size
        },
    }
}

/// The kinds whose effect replaces a stat rather than combining with it.
pub open spec fn is_override_kind(k: ItemType) -> bool {
    k == ItemType::Shield || k == ItemType::SpeedBoost || k == ItemType::Magnet || k
        == ItemType::PhaseShift || k == ItemType::Overdrive
}

/// The override that kind `k` imposes is visible in `f`.
pub open spec fn override_visible(
    f: FrameStats,
    k: ItemType,
    b: StatBlock,
    base_size: u64,
    screen_scale: u64,
) -> bool {
    match k {
        ItemType::Shield => f.damage_reduction == 500,
        ItemType::SpeedBoost => f.speed_multiplier == scaled(
            b.speed_boost_effectiveness as int,
            2000,
        ),
        ItemType::Magnet => f.magnet_range == scaled(
            scaled(screen_scale as int, 150),
            b.magnet_range_multiplier as int,
        ),
        ItemType::PhaseShift => f.can_phase_through,
        ItemType::Overdrive => f.max_shoot_cooldown == scaled(b.base_shoot_cooldown as int, 300)
            && f.size == scaled(
            scaled(base_size as int, 1500),
            remaining_share(b.overdrive_hitbox_reduction as int),
        ),
        _ => true,
    }
}

/// Overrides of different kinds do not clobber each other: with two of
/// them active, both show in the same frame's values.
pub proof fn lemma_overrides_coexist(
    b: StatBlock,
    base_size: u64,
    screen_scale: u64,
    s: Seq<ActiveEffect>,
    k1: ItemType,
    k2: ItemType,
)
    requires
        b.wf(),
        base_size <= CAP,
        screen_scale <= CAP,
        is_override_kind(k1),
        is_override_kind(k2),
        k1 != k2,
        has_kind(s, k1),
        has_kind(s, k2),
    ensures
        override_visible(frame_stats_spec(b, base_size, screen_scale, s), k1, b, base_size, screen_scale),
        override_visible(frame_stats_spec(b, base_size, screen_scale, s), k2, b, base_size, screen_scale),
{
}

proof fn lemma_decay_kinds(s: Seq<ActiveEffect>, dt: u64)
    requires
        effects_wf(s),
    ensures
        effects_wf(decay_effects(s, dt)),
        forall|k: ItemType| has_kind(decay_effects(s, dt), k) ==> has_kind(s, k),
    decreases s.len(),
{
    if s.len() > 0 {
        let d = s.drop_last();
        assert(effects_wf(d)) by {
            assert forall|i: int, j: int| 0 <= i < j < d.len() implies (#[trigger] d[i]).effect_type
                != (#[trigger] d[j]).effect_type by {
                assert(s[i] == d[i] && s[j] == d[j]);
            }
            assert forall|i: int| 0 <= i < d.len() implies (#[trigger] d[i]).remaining_time <= CAP
                && d[i].original_duration <= CAP by {
                assert(s[i] == d[i]);
            }
        }
        lemma_decay_kinds(d, dt);
        let prev = decay_effects(d, dt);
        let last = s.last();
        assert forall|k: ItemType| #[trigger] has_kind(decay_effects(s, dt), k) implies has_kind(s, k) by {
            let r = decay_effects(s, dt);
            let i = choose|i: int| 0 <= i < r.len() && (#[trigger] r[i]).effect_type == k;
            if i < prev.len() {
                assert(r[i] == prev[i]);
                assert(has_kind(prev, k));
                assert(has_kind(d, k));
                let j = choose|j: int| 0 <= j < d.len() && (#[trigger] d[j]).effect_type == k;
                assert(s[j] == d[j]);
            } else {
                assert(s[s.len() - 1] == last);
            }
        }
        if last.remaining_time > dt {
            assert(!has_kind(prev, last.effect_type)) by {
                if has_kind(prev, last.effect_type) {
                    assert(has_kind(d, last.effect_type));
                    let j = choose|j: int| 0 <= j < d.len() && (#[trigger] d[j]).effect_type == last.effect_type;
                    assert(s[j] == d[j]);
                    assert(s[s.len() - 1] == last);
                }
            }
            let r = decay_effects(s, dt);
            assert forall|i: int, j: int| 0 <= i < j < r.len() implies (#[trigger] r[i]).effect_type
                != (#[trigger] r[j]).effect_type by {
                if j == r.len() - 1 {
                    assert(r[i] == prev[i]);
                }
                else {
                    assert(r[i] == prev[i] && r[j] == prev[j]);
                }
            }
            assert forall|i: int| 0 <= i < r.len() implies (#[trigger] r[i]).remaining_time <= CAP
                && r[i].original_duration <= CAP by {
                if i < prev.len() {
                    assert(r[i] == prev[i]);
                }
            }
        }
    }
}

proof fn lemma_without_kind(s: Seq<ActiveEffect>, k: ItemType)
    requires
        effects_wf(s),
    ensures
        effects_wf(without_kind(s, k)),
        !has_kind(without_kind(s, k), k),
        forall|k2: ItemType| has_kind(without_kind(s, k), k2) ==> has_kind(s, k2),
    decreases s.len(),
{
    if s.len() > 0 {
        let d = s.drop_last();
        assert(effects_wf(d)) by {
            assert forall|i: int, j: int| 0 <= i < j < d.len() implies (#[trigger] d[i]).effect_type
                != (#[trigger] d[j]).effect_type by {
                assert(s[i] == d[i] && s[j] == d[j]);
            }
            assert forall|i: int| 0 <= i < d.len() implies (#[trigger] d[i]).remaining_time <= CAP
                && d[i].original_duration <= CAP by {
                assert(s[i] == d[i]);
            }
        }
        lemma_without_kind(d, k);
        let prev = without_kind(d, k);
        let last = s.last();
        let r = without_kind(s, k);
        assert forall|k2: ItemType| #[trigger] has_kind(r, k2) implies has_kind(s, k2) by {
            let i = choose|i: int| 0 <= i < r.len() && (#[trigger] r[i]).effect_type == k2;
            if i < prev.len() {
                assert(r[i] == prev[i]);
                assert(has_kind(prev, k2));
                assert(has_kind(d, k2));
                let j = choose|j: int| 0 <= j < d.len() && (#[trigger] d[j]).effect_type == k2;
                assert(s[j] == d[j]);
            } else {
                assert(s[s.len() - 1] == last);
            }
        }
        if last.effect_type != k {
            assert(!has_kind(prev, last.effect_type)) by {
                if has_kind(prev, last.effect_type) {
                    assert(has_kind(d, last.effect_type));
                    let j = choose|j: int| 0 <= j < d.len() && (#[trigger] d[j]).effect_type == last.effect_type;
                    assert(s[j] == d[j]);
                    assert(s[s.len() - 1] == last);
                }
            }
            assert forall|i: int, j: int| 0 <= i < j < r.len() implies (#[trigger] r[i]).effect_type
                != (#[trigger] r[j]).effect_type by {
                if j == r.len() - 1 {
                    assert(r[i] == prev[i]);
                }
                else {
                    assert(r[i] == prev[i] && r[j] == prev[j]);
                }
            }
            assert forall|i: int| 0 <= i < r.len() implies (#[trigger] r[i]).remaining_time <= CAP
                && r[i].original_duration <= CAP by {
                if i < prev.len() {
                    assert(r[i] == prev[i]);
                }
            }
            assert(!has_kind(r, k)) by {
                if has_kind(r, k) {
                    let i = choose|i: int| 0 <= i < r.len() && (#[trigger] r[i]).effect_type == k;
                    assert(r[i] == prev[i]);
                }
            }
        }
    }
}

/// Most stacks the adaptive armor builds up.
pub const MAX_ARMOR_STACKS: u8 = 5;

/// The player's ship.
#[derive(Debug)]
pub struct Player {
    /// Position (thousandths of a pixel).
    pub x: i64,
    pub y: i64,
    /// Direction of the ship's nose, a vector of length about `ONE`.
    pub facing_x: i64,
    pub facing_y: i64,
    /// Collision radius without effects (thousandths of a pixel).
    pub base_size: u64,
    /// Speed at multiplier one (thousandths of a pixel per second).
    pub base_speed: u64,
    /// The smaller side of the play area (thousandths of a pixel).
    pub screen_scale: u64,
    /// Time until the next shot (microseconds).
    pub shoot_cooldown: u64,
    /// Hit points (thousandths of a hit point).
    pub hp: i64,
    pub stats: StatBlock,
    pub current: FrameStats,
    pub active_effects: Vec<ActiveEffect>,
    pub last_immunity_time: u64,
    pub last_regen_time: u64,
    pub adaptive_armor_timer: u64,
    pub adaptive_armor_stacks: u8,
    pub last_black_hole_time: u64,
    pub pickup_count: u32,
}

impl FrameStats {
    pub open spec fn wf(&self) -> bool {
        &&& self.speed_multiplier <= CAP
        &&& self.points_multiplier <= CAP
        &&& self.damage_reduction <= CAP
        &&& self.magnet_range <= CAP
        &&& self.max_shoot_cooldown <= CAP
        &&& self.size <= CAP
    }
}

/// Damage left of `amount` after the item-based reduction `dr`, the
/// skill-based debris reduction `ddr` and the adaptive armor, in that order.
pub open spec fn reduced_damage(amount: u64, dr: u64, ddr: u64, stacks: u8, rate: u64) -> int {
    scaled(
        scaled(scaled(amount as int, remaining_share(dr as int)), remaining_share(ddr as int)),
        remaining_share(stacks * rate),
    )
}

impl Player {
    pub open spec fn wf(&self) -> bool {
        &&& self.stats.wf()
        &&& self.current.wf()
        &&& effects_wf(self.active_effects@)
        &&& self.base_size <= CAP
        &&& self.base_speed <= CAP
        &&& self.screen_scale <= CAP
        &&& self.shoot_cooldown <= CAP
        &&& -(CAP as int) <= self.hp <= CAP
        &&& self.adaptive_armor_stacks <= MAX_ARMOR_STACKS
        &&& self.adaptive_armor_timer <= CAP
        &&& -COORD_LIMIT <= self.x <= COORD_LIMIT
        &&& -COORD_LIMIT <= self.y <= COORD_LIMIT
        &&& -(ONE as int) <= self.facing_x <= ONE
        &&& -(ONE as int) <= self.facing_y <= ONE
    }

    /// The frame values that the active effects impose on the stat block.
    pub open spec fn frame_stats(&self) -> FrameStats {
        frame_stats_spec(self.stats, self.base_size, self.screen_scale, self.active_effects@)
    }

    /// Damage is ignored at time `now`: an immunity interval is set and has
    /// not passed since the last hit that landed.
    pub open spec fn is_immune(&self, now: u64) -> bool {
        self.stats.immunity_interval > 0 && now < self.last_immunity_time
            + self.stats.immunity_interval
    }

    /// The player after `take_damage(amount, now)`.
    pub open spec fn damaged(self, amount: u64, now: u64) -> Player {
        if self.is_immune(now) {
            self
        } else {
            let hit = reduced_damage(
                amount,
                self.current.damage_reduction,
                self.stats.debris_damage_reduction,
                self.adaptive_armor_stacks,
                self.stats.adaptive_armor_rate,
            );
            Player {
                hp: if self.hp - hit < -(CAP as int) {
                    -(CAP as int)
                } else {
                    self.hp - hit
                } as i64,
                adaptive_armor_stacks: 0,
                adaptive_armor_timer: 0,
                last_immunity_time: if self.stats.immunity_interval > 0 {
                    now
                } else {
                    self.last_immunity_time
                },
                ..self
            }
        }
    }

    /// A player without skills, near the bottom centre of a `screen_w` by
    /// `screen_h` play area (thousandths of a pixel), facing up.
    pub fn new(screen_w: u64, screen_h: u64) -> (r: Player)
        requires
            screen_w <= COORD_LIMIT,
            screen_h <= COORD_LIMIT,
        ensures
            r.wf(),
            r.stats == StatBlock::fresh_spec(),
            r.hp == 3000,
            r.active_effects@.len() == 0,
            r.current == r.frame_stats(),
            r.adaptive_armor_stacks == 0,
            r.last_immunity_time == 0,
            r.x == screen_w / 2,
            r.y == scaled(screen_h as int, 900),
            r.screen_scale == if screen_w < screen_h { screen_w } else { screen_h },
            r.base_size == scaled(r.screen_scale as int, 30),
    {
        let screen_scale = if screen_w < screen_h { screen_w } else { screen_h };
        let longer = if screen_w < screen_h { screen_h } else { screen_w };
        let base_size = scale(screen_scale, 30);
        let stats = StatBlock::new();
        let current = FrameStats {
            speed_multiplier: stats.speed_multiplier,
            points_multiplier: stats.points_multiplier,
            damage_reduction: stats.damage_reduction,
            can_phase_through: false,
            magnet_range: 0,
            max_shoot_cooldown: stats.base_shoot_cooldown,
            size: base_size,
        };
        let r = Player {
            x: (screen_w / 2) as i64,
            y: scale(screen_h, 900) as i64,
            facing_x: 0,
            facing_y: -1000,
            base_size,
            base_speed: scale(longer, 250),
            screen_scale,
            shoot_cooldown: 0,
            hp: stats.max_hp as i64,
            stats,
            current,
            active_effects: Vec::new(),
            last_immunity_time: 0,
            last_regen_time: 0,
            adaptive_armor_timer: 0,
            adaptive_armor_stacks: 0,
            last_black_hole_time: 0,
            pickup_count: 0,
        };
        proof {
            assert(!has_kind(r.active_effects@, ItemType::DoublePoints));
            assert(!has_kind(r.active_effects@, ItemType::Overdrive));
            assert(!has_kind(r.active_effects@, ItemType::SpeedBoost));
            assert(!has_kind(r.active_effects@, ItemType::Shield));
            assert(!has_kind(r.active_effects@, ItemType::PhaseShift));
            assert(!has_kind(r.active_effects@, ItemType::Magnet));
        }
        r
    }

    pub fn has_effect(&self, effect_type: &ItemType) -> (r: bool)
        ensures
            r == has_kind(self.active_effects@, *effect_type),
    {
        let n = self.active_effects.len();
        for i in 0..n
            invariant
                n == self.active_effects@.len(),
                forall|j: int| 0 <= j < i ==> (#[trigger] self.active_effects@[j]).effect_type != *effect_type,
        {
            if self.active_effects[i].effect_type == *effect_type {
                return true;
            }
        }
        false
    }

    /// Recomputes the frame values from the stat block and the active effects.
    pub fn recompute_frame_overrides(&mut self)
        requires
            old(self).wf(),
        ensures
            final(self).wf(),
            *final(self) == (Player { current: final(self).current, ..*old(self) }),
            final(self).current == old(self).frame_stats(),
    {
        let b = self.stats;
        let doubled = if self.has_effect(&ItemType::DoublePoints) {
            scale(b.points_multiplier, 2000)
        } else {
            b.points_multiplier
        };
        let overdrive = self.has_effect(&ItemType::Overdrive);
        let speed_multiplier = if self.has_effect(&ItemType::SpeedBoost) {
            scale(b.speed_boost_effectiveness, 2000)
        } else {
            b.speed_multiplier
        };
        let points_multiplier = if overdrive {
            scale(doubled, 3000)
        } else {
            doubled
        };
        let damage_reduction = if self.has_effect(&ItemType::Shield) {
            500
        } else {
            b.damage_reduction
        };
        let can_phase_through = self.has_effect(&ItemType::PhaseShift);
        let magnet_range = if self.has_effect(&ItemType::Magnet) {
            scale(scale(self.screen_scale, 150), b.magnet_range_multiplier)
        } else {
            0
        };
        let max_shoot_cooldown = if overdrive {
            scale(b.base_shoot_cooldown, 300)
        } else {
            b.base_shoot_cooldown
        };
        let size = if overdrive {
            scale(scale(self.base_size, 1500), share_left(b.overdrive_hitbox_reduction))
        } else {
            self.base_size
        };
        self.current = FrameStats {
            speed_multiplier,
            points_multiplier,
            damage_reduction,
            can_phase_through,
            magnet_range,
            max_shoot_cooldown,
            size,
        };
    }

    /// Ages every effect by `dt`, drops the expired ones, and recomputes the
    /// frame values.
    pub fn update_effects(&mut self, dt: u64)
        requires
            old(self).wf(),
        ensures
            final(self).wf(),
            final(self).active_effects@ == decay_effects(old(self).active_effects@, dt),
            final(self).current == final(self).frame_stats(),
            *final(self) == (Player {
                active_effects: final(self).active_effects,
                current: final(self).current,
                ..*old(self)
            }),
    {
        let ghost start = self.active_effects@;
        let mut kept: Vec<ActiveEffect> = Vec::new();
        let n = self.active_effects.len();
        for i in 0..n
            invariant
                n == self.active_effects@.len(),
                start == self.active_effects@,
                kept@ == decay_effects(start.take(i as int), dt),
        {
            let e = self.active_effects[i];
            proof {
                assert(start.take(i + 1).drop_last() =~= start.take(i as int));
            }
            if e.remaining_time > dt {
                kept.push(ActiveEffect { remaining_time: e.remaining_time - dt, ..e });
            }
        }
        proof {
            assert(start.take(n as int) =~= start);
            lemma_decay_kinds(start, dt);
        }
        self.active_effects = kept;
        self.recompute_frame_overrides();
    }

    /// Duration that an effect of kind `k` picked up now would get.
    pub fn effect_duration(&self, k: ItemType) -> (r: u64)
        requires
            self.stats.wf(),
        ensures
            r == effect_duration_spec(self.stats, k),
            r <= CAP,
    {
        let base = match base_duration(k) {
            Some(d) => d,
            None => 0,
        };
        let bonus = match k {
            ItemType::Shield => self.stats.shield_duration_bonus,
            ItemType::SlowMotion => self.stats.slow_motion_duration_bonus,
            ItemType::PhaseShift => self.stats.phase_duration_bonus,
            ItemType::TimeFreeze => self.stats.time_freeze_duration_bonus,
            _ => 0,
        };
        scale(add_capped(base, bonus), self.stats.item_effect_duration_multiplier)
    }

    /// Grants the effect of a pickup of kind `item_type`: any effect of that
    /// kind is replaced by one with the full fresh duration. A kind without a
    /// timed effect changes nothing.
    pub fn apply_item_effect(&mut self, item_type: ItemType)
        requires
            old(self).wf(),
        ensures
            final(self).wf(),
            base_duration_spec(item_type) is None ==> *final(self) == *old(self),
            base_duration_spec(item_type) is Some ==> {
                &&& final(self).active_effects@ == without_kind(old(self).active_effects@, item_type).push(
                    ActiveEffect {
                        effect_type: item_type,
                        remaining_time: effect_duration_spec(old(self).stats, item_type),
                        original_duration: effect_duration_spec(old(self).stats, item_type),
                    },
                )
                &&& *final(self) == (Player { active_effects: final(self).active_effects, ..*old(self) })
                &&& forall|i: int|
                    0 <= i < final(self).active_effects@.len() && (#[trigger] final(self).active_effects@[i]).effect_type
                        == item_type ==> final(self).active_effects@[i].remaining_time
                        == effect_duration_spec(old(self).stats, item_type)
            },
    {
        if base_duration(item_type).is_none() {
            return;
        }
        let duration = self.effect_duration(item_type);
        let ghost start = self.active_effects@;
        let mut kept: Vec<ActiveEffect> = Vec::new();
        let n = self.active_effects.len();
        for i in 0..n
            invariant
                n == self.active_effects@.len(),
                start == self.active_effects@,
                kept@ == without_kind(start.take(i as int), item_type),
        {
            let e = self.active_effects[i];
            proof {
                assert(start.take(i + 1).drop_last() =~= start.take(i as int));
            }
            if e.effect_type != item_type {
                kept.push(e);
            }
        }
        proof {
            assert(start.take(n as int) =~= start);
            lemma_without_kind(start, item_type);
        }
        let ghost before = kept@;
        kept.push(
            ActiveEffect {
                effect_type: item_type,
                remaining_time: duration,
                original_duration: duration,
            },
        );
        proof {
            let r = kept@;
            assert forall|i: int|
                0 <= i < r.len() && (#[trigger] r[i]).effect_type == item_type implies r[i].remaining_time
                == duration by {
                if i < before.len() {
                    assert(r[i] == before[i]);
                    assert(has_kind(before, item_type));
                }
            }
            assert forall|i: int, j: int| 0 <= i < j < r.len() implies (#[trigger] r[i]).effect_type
                != (#[trigger] r[j]).effect_type by {
                assert(r[i] == before[i]);
                if j == r.len() - 1 {
                    if r[i].effect_type == item_type {
                        assert(has_kind(before, item_type));
                    }
                } else {
                    assert(r[j] == before[j]);
                }
            }
            assert forall|i: int| 0 <= i < r.len() implies (#[trigger] r[i]).remaining_time <= CAP
                && r[i].original_duration <= CAP by {
                if i < before.len() {
                    assert(r[i] == before[i]);
                }
            }
        }
        self.active_effects = kept;
    }

    /// Counts a pickup; with energy overflow, every active effect is extended
    /// by that share of its original duration.
    pub fn on_item_pickup(&mut self)
        requires
            old(self).wf(),
        ensures
            final(self).wf(),
            final(self).pickup_count == if old(self).pickup_count < u32::MAX {
                old(self).pickup_count + 1
            } else {
                old(self).pickup_count as int
            },
            final(self).active_effects@ == if old(self).stats.energy_overflow_bonus > 0 {
                extended_effects(old(self).active_effects@, old(self).stats.energy_overflow_bonus)
            } else {
                old(self).active_effects@
            },
            *final(self) == (Player {
                active_effects: final(self).active_effects,
                pickup_count: final(self).pickup_count,
                ..*old(self)
            }),
    {
        if self.pickup_count < u32::MAX {
            self.pickup_count = self.pickup_count + 1;
        }
        let bonus = self.stats.energy_overflow_bonus;
        if bonus > 0 {
            let ghost start = self.active_effects@;
            let mut out: Vec<ActiveEffect> = Vec::new();
            let n = self.active_effects.len();
            for i in 0..n
                invariant
                    n == self.active_effects@.len(),
                    start == self.active_effects@,
                    effects_wf(start),
                    bonus <= CAP,
                    out@ == extended_effects(start, bonus).take(i as int),
            {
                let e = self.active_effects[i];
                let extra = scale(e.original_duration, bonus);
                out.push(ActiveEffect { remaining_time: add_capped(e.remaining_time, extra), ..e });
                proof {
                    assert(out@ =~= extended_effects(start, bonus).take(i + 1));
                }
            }
            proof {
                assert(out@ =~= extended_effects(start, bonus));
                let r = out@;
                assert forall|i: int, j: int| 0 <= i < j < r.len() implies (#[trigger] r[i]).effect_type
                    != (#[trigger] r[j]).effect_type by {
                    assert(r[i].effect_type == start[i].effect_type);
                    assert(r[j].effect_type == start[j].effect_type);
                }
            }
            self.active_effects = out;
        }
    }

    /// Applies `amount` of damage at time `now` (microseconds) unless the
    /// player is immune; tells whether the player is destroyed.
    pub fn take_damage(&mut self, amount: u64, now: u64) -> (destroyed: bool)
        requires
            old(self).wf(),
            amount <= CAP,
        ensures
            final(self).wf(),
            *final(self) == old(self).damaged(amount, now),
            destroyed == (final(self).hp <= 0),
    {
        if self.stats.immunity_interval > 0 && (now as u128) < (self.last_immunity_time as u128)
            + (self.stats.immunity_interval as u128) {
            return self.hp <= 0;
        }
        let stacks = self.adaptive_armor_stacks as u64;
        proof {
            assert(stacks * self.stats.adaptive_armor_rate <= 5 * CAP) by (nonlinear_arith)
                requires
                    stacks <= 5,
                    self.stats.adaptive_armor_rate <= CAP,
            ;
        }
        let armor = stacks * self.stats.adaptive_armor_rate;
        let hit = scale(
            scale(
                scale(amount, share_left(self.current.damage_reduction)),
                share_left(self.stats.debris_damage_reduction),
            ),
            share_left(armor),
        );
        let hp = self.hp - hit as i64;
        self.hp = if hp < -(CAP as i64) {
            -(CAP as i64)
        } else {
            hp
        };
        self.adaptive_armor_stacks = 0;
        self.adaptive_armor_timer = 0;
        if self.stats.immunity_interval > 0 {
            self.last_immunity_time = now;
        }
        self.hp <= 0
    }

    pub fn is_destroyed(&self) -> (r: bool)
        ensures
            r == (self.hp <= 0),
    {
        self.hp <= 0
    }

    pub fn get_position(&self) -> (r: (i64, i64))
        ensures
            r == (self.x, self.y),
    {
        (self.x, self.y)
    }

    /// Radius within which the player collects a pickup.
    pub fn get_pickup_radius(&self) -> (r: u64)
        requires
            self.current.wf(),
        ensures
            r == scaled(self.current.size as int, 1500),
    {
        scale(self.current.size, 1500)
    }

    /// Skill timers for a frame of `dt` ending at `now`: regeneration once a
    /// second, an adaptive-armor stack after three seconds without a hit, and
    /// the black-hole pulse clock.
    pub fn update_skill_effects(&mut self, dt: u64, now: u64)
        requires
            old(self).wf(),
        ensures
            final(self).wf(),
            *final(self) == skill_timers(*old(self), dt, now),
            *final(self) == (Player {
                hp: final(self).hp,
                last_regen_time: final(self).last_regen_time,
                adaptive_armor_timer: final(self).adaptive_armor_timer,
                adaptive_armor_stacks: final(self).adaptive_armor_stacks,
                last_black_hole_time: final(self).last_black_hole_time,
                ..*old(self)
            }),
            if old(self).stats.health_regen_rate > 0 && now >= old(self).last_regen_time + SECOND {
                &&& final(self).hp == if old(self).hp + old(self).stats.health_regen_rate
                    > old(self).stats.max_hp {
                    old(self).stats.max_hp as int
                } else {
                    old(self).hp + old(self).stats.health_regen_rate
                }
                &&& final(self).last_regen_time == now
            } else {
                final(self).hp == old(self).hp && final(self).last_regen_time == old(
                    self,
                ).last_regen_time
            },
            ({
                let timer = capped_sum(old(self).adaptive_armor_timer as int, dt as int);
                if timer >= 3 * SECOND && old(self).stats.adaptive_armor_rate > 0 {
                    &&& final(self).adaptive_armor_timer == 0
                    &&& final(self).adaptive_armor_stacks == if old(self).adaptive_armor_stacks
                        < MAX_ARMOR_STACKS {
                        old(self).adaptive_armor_stacks + 1
                    } else {
                        MAX_ARMOR_STACKS as int
                    }
                } else {
                    final(self).adaptive_armor_timer == timer
                        && final(self).adaptive_armor_stacks == old(self).adaptive_armor_stacks
                }
            }),
            final(self).last_black_hole_time == if old(self).stats.black_hole_interval > 0 && now
                >= old(self).last_black_hole_time + old(self).stats.black_hole_interval {
                now
            } else {
                old(self).last_black_hole_time
            },
    {
        if self.stats.health_regen_rate > 0 && (now as u128) >= (self.last_regen_time as u128)
            + (SECOND as u128) {
            let healed = self.hp + self.stats.health_regen_rate as i64;
            self.hp = if healed > self.stats.max_hp as i64 {
                self.stats.max_hp as i64
            } else {
                healed
            };
            self.last_regen_time = now;
        }
        self.adaptive_armor_timer = add_capped(self.adaptive_armor_timer, dt);
        if self.adaptive_armor_timer >= 3 * SECOND && self.stats.adaptive_armor_rate > 0 {
            if self.adaptive_armor_stacks < MAX_ARMOR_STACKS {
                self.adaptive_armor_stacks = self.adaptive_armor_stacks + 1;
            }
            self.adaptive_armor_timer = 0;
        }
        if self.stats.black_hole_interval > 0 && (now as u128) >= (self.last_black_hole_time as u128)
            + (self.stats.black_hole_interval as u128) {
            self.last_black_hole_time = now;
        }
    }
}

/// Immunity registers a hit once: after a hit lands at `t1`, a second hit
/// at any `t2` within the immunity interval changes nothing.
pub proof fn lemma_immunity_registers_once(p: Player, a1: u64, a2: u64, t1: u64, t2: u64)
    requires
        p.stats.immunity_interval > 0,
        !p.is_immune(t1),
        t1 <= t2 < t1 + p.stats.immunity_interval,
    ensures
        p.damaged(a1, t1).damaged(a2, t2) == p.damaged(a1, t1),
{
}

/// The player's intents for one frame.
#[derive(Clone, Copy, Debug, PartialEq, Eq, Structural)]
pub struct FrameInput {
    pub move_up: bool,
    pub move_down: bool,
    pub move_left: bool,
    pub move_right: bool,
    pub fire: bool,
}

/// Random draws for a volley: whether it is a double shot, and whether each
/// of its up to three bullets is critical (each in `0..=1000`).
#[derive(Clone, Copy, Debug, PartialEq, Eq, Structural)]
pub struct ShotRolls {
    pub double_roll: u64,
    pub crit_roll_first: u64,
    pub crit_roll_left: u64,
    pub crit_roll_right: u64,
}

impl ShotRolls {
    /// The crit draw of the `j`-th bullet of a volley.
    pub open spec fn crit_roll(&self, j: int) -> u64 {
        if j == 0 {
            self.crit_roll_first
        } else if j == 1 {
            self.crit_roll_left
        } else {
            self.crit_roll_right
        }
    }
}

/// Cosine and sine of the spread between the bullets of a double shot
/// (0.2 radians), as ratios.
pub const SPREAD_COS: i64 = 980;
pub const SPREAD_SIN: i64 = 199;

/// Movement direction for the input: unit steps along each axis held,
/// shortened on diagonals, as a vector of length about `ONE`.
pub open spec fn input_direction(i: FrameInput) -> (int, int) {
    let dx = (if i.move_right { 1int } else { 0 }) - (if i.move_left { 1int } else { 0 });
    let dy = (if i.move_down { 1int } else { 0 }) - (if i.move_up { 1int } else { 0 });
    let unit: int = if dx != 0 && dy != 0 { 707 } else { 1000 };
    (dx * unit, dy * unit)
}

/// `v` held within `[lo, hi]` (`lo` wins when the range is empty).
pub open spec fn clamp_spec(v: int, lo: int, hi: int) -> int {
    if v < lo {
        lo
    } else if v > hi {
        hi
    } else {
        v
    }
}

fn clamp_i64(v: i64, lo: i64, hi: i64) -> (r: i64)
    ensures
        r == clamp_spec(v as int, lo as int, hi as int),
{
    if v < lo {
        lo
    } else if v > hi {
        hi
    } else {
        v
    }
}

fn clamp_i128(v: i128, lo: i128, hi: i128) -> (r: i128)
    ensures
        r == clamp_spec(v as int, lo as int, hi as int),
{
    if v < lo {
        lo
    } else if v > hi {
        hi
    } else {
        v
    }
}

impl Player {
    /// Applies the permanent skill pass of `m` to the stat block; hit points
    /// grow by what the maximum grew, and the frame values follow.
    pub fn apply_skill_tree(&mut self, m: &SkillTreeManager)
        requires
            old(self).wf(),
            m.wf(),
        ensures
            final(self).wf(),
            final(self).stats == manager_applied(old(self).stats, *m),
            final(self).hp == if final(self).stats.max_hp > old(self).stats.max_hp {
                capped_sum(old(self).hp as int, final(self).stats.max_hp - old(self).stats.max_hp)
            } else {
                old(self).hp as int
            },
            final(self).current == final(self).frame_stats(),
            *final(self) == (Player {
                stats: final(self).stats,
                hp: final(self).hp,
                current: final(self).current,
                ..*old(self)
            }),
    {
        let before = self.stats.max_hp;
        m.apply_to_player(&mut self.stats);
        if self.stats.max_hp > before {
            let grown = self.hp as i128 + (self.stats.max_hp - before) as i128;
            self.hp = if grown > CAP as i128 { CAP as i64 } else { grown as i64 };
        }
        self.recompute_frame_overrides();
    }

    /// Fires a volley (see `volley`) from the ship's nose.
    fn fire_volley(&self, screen_w: u64, screen_h: u64, bullets: &mut Vec<Bullet>, rolls: ShotRolls)
        requires
            self.wf(),
            all_bullets_wf(old(bullets)@),
            screen_w <= COORD_LIMIT,
            screen_h <= COORD_LIMIT,
        ensures
            all_bullets_wf(final(bullets)@),
            final(bullets)@ == old(bullets)@ + volley(
                self.x,
                self.y,
                self.facing_x,
                self.facing_y,
                self.current.size,
                self.stats,
                screen_w,
                screen_h,
                rolls,
            ),
    {
        let fx = self.facing_x;
        let fy = self.facing_y;
        let nose = self.current.size;
        let bx = clamp_i64(self.x + scale_direction(nose, fx, ONE), -COORD_LIMIT, COORD_LIMIT);
        let by = clamp_i64(self.y + scale_direction(nose, fy, ONE), -COORD_LIMIT, COORD_LIMIT);
        let ghost start = bullets@;
        let stats = self.stats;
        let first = Bullet::new_with_player_skills(
            bx,
            by,
            fx,
            fy,
            screen_w,
            screen_h,
            &stats,
            rolls.crit_roll_first,
        );
        bullets.push(first);
        if rolls.double_roll < self.stats.double_shot_chance {
            let lx = clamp_i64(mul_div_signed(fx * SPREAD_COS + fy * SPREAD_SIN, 1, ONE), -1000, 1000);
            let ly = clamp_i64(mul_div_signed(fy * SPREAD_COS - fx * SPREAD_SIN, 1, ONE), -1000, 1000);
            let rx = clamp_i64(mul_div_signed(fx * SPREAD_COS - fy * SPREAD_SIN, 1, ONE), -1000, 1000);
            let ry = clamp_i64(mul_div_signed(fy * SPREAD_COS + fx * SPREAD_SIN, 1, ONE), -1000, 1000);
            proof {
                assert(fx * SPREAD_COS - fy * -SPREAD_SIN == fx * SPREAD_COS + fy * SPREAD_SIN);
                assert(fy * SPREAD_COS - fx * -SPREAD_SIN == fy * SPREAD_COS + fx * SPREAD_SIN);
            }
            let left = Bullet::new_with_player_skills(
                bx,
                by,
                lx,
                ly,
                screen_w,
                screen_h,
                &stats,
                rolls.crit_roll_left,
            );
            let right = Bullet::new_with_player_skills(
                bx,
                by,
                rx,
                ry,
                screen_w,
                screen_h,
                &stats,
                rolls.crit_roll_right,
            );
            bullets.push(left);
            bullets.push(right);
        }
        proof {
            assert(bullets@ =~= start + volley(
                self.x,
                self.y,
                fx,
                fy,
                nose,
                stats,
                screen_w,
                screen_h,
                rolls,
            ));
            assert forall|i: int| 0 <= i < bullets@.len() implies (#[trigger] bullets@[i]).wf() by {
                if i < start.len() {
                    assert(bullets@[i] == start[i]);
                }
            }
        }
    }

    /// Moves the ship for `dt` as the input asks, within the play area, and
    /// turns it the way it moves.
    fn steer(&mut self, input: FrameInput, dt: u64, screen_w: u64, screen_h: u64)
        requires
            old(self).wf(),
            dt <= SECOND,
            screen_w <= COORD_LIMIT,
            screen_h <= COORD_LIMIT,
        ensures
            final(self).wf(),
            ({
                let p = *old(self);
                let (dx, dy) = input_direction(input);
                let speed = scaled(p.base_speed as int, p.current.speed_multiplier as int);
                let size = p.current.size as int;
                let x = moved(p.x as int, signed_ratio(dx, speed, 1000), dt as int);
                let y = moved(p.y as int, signed_ratio(dy, speed, 1000), dt as int);
                let moving = dx != 0 || dy != 0;
                *final(self) == (Player {
                    x: clamp_coord(clamp_spec(x, size, screen_w - size)) as i64,
                    y: clamp_coord(clamp_spec(y, size, screen_h - size)) as i64,
                    facing_x: if moving { dx as i64 } else { p.facing_x },
                    facing_y: if moving { dy as i64 } else { p.facing_y },
                    ..p
                })
            }),
    {
        let dx: i64 = (if input.move_right { 1i64 } else { 0 }) - (if input.move_left { 1i64 } else { 0 });
        let dy: i64 = (if input.move_down { 1i64 } else { 0 }) - (if input.move_up { 1i64 } else { 0 });
        let unit: i64 = if dx != 0 && dy != 0 { 707 } else { 1000 };
        let speed = scale(self.base_speed, self.current.speed_multiplier);
        proof {
            assert(-1000 <= dx * unit <= 1000) by (nonlinear_arith)
                requires
                    -1 <= dx <= 1,
                    0 < unit <= 1000,
            ;
            assert(-1000 <= dy * unit <= 1000) by (nonlinear_arith)
                requires
                    -1 <= dy <= 1,
                    0 < unit <= 1000,
            ;
        }
        let vx = scale_direction(speed, dx * unit, ONE);
        let vy = scale_direction(speed, dy * unit, ONE);
        let size = self.current.size as i128;
        let cx = clamp_i128(move_coord(self.x, vx, dt) as i128, size, screen_w as i128 - size);
        let cy = clamp_i128(move_coord(self.y, vy, dt) as i128, size, screen_h as i128 - size);
        self.x = clamp_i128(cx, -COORD_LIMIT as i128, COORD_LIMIT as i128) as i64;
        self.y = clamp_i128(cy, -COORD_LIMIT as i128, COORD_LIMIT as i128) as i64;
        if dx != 0 || dy != 0 {
            self.facing_x = dx * unit;
            self.facing_y = dy * unit;
        }
    }

    /// One frame of the player: effects age, skill timers run, a volley is
    /// fired when asked and the gun is ready, the ship moves within the play
    /// area, and the gun cools down (see `player_after_frame` and `volley`).
    pub fn update(
        &mut self,
        input: FrameInput,
        dt: u64,
        now: u64,
        screen_w: u64,
        screen_h: u64,
        bullets: &mut Vec<Bullet>,
        rolls: ShotRolls,
    ) -> (fired: bool)
        requires
            old(self).wf(),
            all_bullets_wf(old(bullets)@),
            dt <= SECOND,
            screen_w <= COORD_LIMIT,
            screen_h <= COORD_LIMIT,
        ensures
            final(self).wf(),
            all_bullets_wf(final(bullets)@),
            final(self).active_effects@ == decay_effects(old(self).active_effects@, dt),
            final(self).current == final(self).frame_stats(),
            fired == (input.fire && old(self).shoot_cooldown == 0),
            *final(self) == (Player {
                active_effects: final(self).active_effects,
                ..player_after_frame(*old(self), input, dt, now, screen_w, screen_h)
            }),
            fired ==> final(bullets)@ == old(bullets)@ + volley(
                old(self).x,
                old(self).y,
                old(self).facing_x,
                old(self).facing_y,
                final(self).current.size,
                old(self).stats,
                screen_w,
                screen_h,
                rolls,
            ),
            !fired ==> final(bullets)@ == old(bullets)@,
    {
        self.update_effects(dt);
        self.update_skill_effects(dt, now);
        let fired = input.fire && self.shoot_cooldown == 0;
        if fired {
            self.fire_volley(screen_w, screen_h, bullets, rolls);
            self.shoot_cooldown = self.current.max_shoot_cooldown;
        }
        self.steer(input, dt, screen_w, screen_h);
        self.shoot_cooldown = if self.shoot_cooldown > dt { self.shoot_cooldown - dt } else { 0 };
        fired
    }
}

/// The player after the skill timers of a frame of `dt` ending at `now`:
/// regeneration once a second, an adaptive-armor stack after three seconds
/// without a hit, and the black-hole pulse clock.
pub open spec fn skill_timers(p: Player, dt: u64, now: u64) -> Player {
    let regen = p.stats.health_regen_rate > 0 && now >= p.last_regen_time + SECOND;
    let healed = p.hp + p.stats.health_regen_rate;
    let timer = capped_sum(p.adaptive_armor_timer as int, dt as int);
    let stack = timer >= 3 * SECOND && p.stats.adaptive_armor_rate > 0;
    let pulse = p.stats.black_hole_interval > 0 && now >= p.last_black_hole_time
        + p.stats.black_hole_interval;
    Player {
        hp: (if regen {
            if healed > p.stats.max_hp { p.stats.max_hp as int } else { healed }
        } else {
            p.hp as int
        }) as i64,
        last_regen_time: if regen { now } else { p.last_regen_time },
        adaptive_armor_timer: (if stack { 0 } else { timer }) as u64,
        adaptive_armor_stacks: (if stack && p.adaptive_armor_stacks < MAX_ARMOR_STACKS {
            p.adaptive_armor_stacks + 1
        } else {
            p.adaptive_armor_stacks as int
        }) as u8,
        last_black_hole_time: if pulse { now } else { p.last_black_hole_time },
        ..p
    }
}

/// The player's scalar state after `update` (its effect list aside): frame
/// values recomputed from the decayed effects, skill timers run, the gun
/// reloaded if it fired and cooled by `dt`, and the ship moved within the
/// play area, facing the way it moves.
pub open spec fn player_after_frame(
    p: Player,
    input: FrameInput,
    dt: u64,
    now: u64,
    screen_w: u64,
    screen_h: u64,
) -> Player {
    let cur = frame_stats_spec(p.stats, p.base_size, p.screen_scale, decay_effects(p.active_effects@, dt));
    let timed = skill_timers(Player { current: cur, ..p }, dt, now);
    let fired = input.fire && p.shoot_cooldown == 0;
    let loaded = if fired { cur.max_shoot_cooldown } else { p.shoot_cooldown };
    let (dx, dy) = input_direction(input);
    let speed = scaled(p.base_speed as int, cur.speed_multiplier as int);
    let size = cur.size as int;
    let x = moved(p.x as int, signed_ratio(dx, speed, 1000), dt as int);
    let y = moved(p.y as int, signed_ratio(dy, speed, 1000), dt as int);
    let moving = dx != 0 || dy != 0;
    Player {
        x: clamp_coord(clamp_spec(x, size, screen_w - size)) as i64,
        y: clamp_coord(clamp_spec(y, size, screen_h - size)) as i64,
        facing_x: if moving { dx as i64 } else { p.facing_x },
        facing_y: if moving { dy as i64 } else { p.facing_y },
        shoot_cooldown: if loaded > dt { (loaded - dt) as u64 } else { 0 },
        ..timed
    }
}

/// Direction of a spread bullet: the nose direction turned by the spread
/// angle, one way for `left` and the other otherwise.
pub open spec fn spread_direction(fx: i64, fy: i64, left: bool) -> (i64, i64) {
    let s = if left { SPREAD_SIN as int } else { -SPREAD_SIN };
    (
        clamp_spec(signed_ratio(fx * SPREAD_COS + fy * s, 1, ONE as int), -1000, 1000) as i64,
        clamp_spec(signed_ratio(fy * SPREAD_COS - fx * s, 1, ONE as int), -1000, 1000) as i64,
    )
}

/// The bullets of a volley fired from (`x`, `y`) along (`fx`, `fy`) by a
/// ship of radius `nose`: one from the nose, and two more spread to either
/// side when the double-shot roll falls below the double-shot chance.
pub open spec fn volley(
    x: i64,
    y: i64,
    fx: i64,
    fy: i64,
    nose: u64,
    stats: StatBlock,
    screen_w: u64,
    screen_h: u64,
    rolls: ShotRolls,
) -> Seq<Bullet> {
    let bx = clamp_spec(
        x + signed_ratio(fx as int, nose as int, ONE as int),
        -COORD_LIMIT as int,
        COORD_LIMIT as int,
    ) as i64;
    let by = clamp_spec(
        y + signed_ratio(fy as int, nose as int, ONE as int),
        -COORD_LIMIT as int,
        COORD_LIMIT as int,
    ) as i64;
    let first = player_shot(bx, by, fx, fy, screen_w, screen_h, stats, rolls.crit_roll_first);
    if rolls.double_roll < stats.double_shot_chance {
        let (lx, ly) = spread_direction(fx, fy, true);
        let (rx, ry) = spread_direction(fx, fy, false);
        seq![
            first,
            player_shot(bx, by, lx, ly, screen_w, screen_h, stats, rolls.crit_roll_left),
            player_shot(bx, by, rx, ry, screen_w, screen_h, stats, rolls.crit_roll_right),
        ]
    } else {
        seq![first]
    }
}

} // verus!
