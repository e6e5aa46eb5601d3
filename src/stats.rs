//! The player's stat block and the permanent changes that skill trees make
//! to it.

use vstd::prelude::*;
use crate::fixed::{ONE, CAP, scale, add_capped, scaled, capped_sum};
use crate::skill_tree::{
    SkillName, SkillTree, SkillTreeManager, SkillTreeType, SKILLS_PER_TREE, spec_skill_at,
    skill_at,
};

verus! {

/// The player's permanent numeric modifiers: the baseline that timed effects
/// are layered on each frame.
#[derive(Clone, Copy, Debug, PartialEq, Eq, Structural)]
pub struct StatBlock {
    /// Bullet damage multiplier (ratio).
    pub damage_multiplier: u64,
    /// Reload animation speed (ratio).
    pub reload_speed_multiplier: u64,
    /// Bullet speed multiplier (ratio).
    pub bullet_speed_multiplier: u64,
    /// Bullet size multiplier (ratio).
    pub bullet_size_multiplier: u64,
    /// Share of a bullet's damage dealt as splash (ratio).
    pub bullet_explosion_damage: u64,
    /// Chance of a double shot (ratio).
    pub double_shot_chance: u64,
    /// Extra damage share on a direct hit (ratio).
    pub armor_penetration: u64,
    /// Homing strength of bullets (ratio).
    pub bullet_homing_strength: u64,
    /// Chance of a critical hit (ratio).
    pub crit_chance: u64,
    /// Time between shots (microseconds).
    pub base_shoot_cooldown: u64,
    /// Maximum hit points (thousandths of a hit point).
    pub max_hp: u64,
    /// Movement speed multiplier (ratio).
    pub speed_multiplier: u64,
    /// Score multiplier (ratio).
    pub points_multiplier: u64,
    /// Share of incoming damage removed (ratio).
    pub damage_reduction: u64,
    /// Knockback resistance (ratio).
    pub knockback_resistance: u64,
    /// Share of debris damage removed (ratio).
    pub debris_damage_reduction: u64,
    /// Extra shield duration (microseconds).
    pub shield_duration_bonus: u64,
    /// Item cooldown reduction (ratio).
    pub item_cooldown_reduction: u64,
    /// Time after a hit during which damage is ignored (microseconds).
    pub immunity_interval: u64,
    /// Hit points regained per second (thousandths of a hit point).
    pub health_regen_rate: u64,
    /// Damage share removed per adaptive-armor stack (ratio).
    pub adaptive_armor_rate: u64,
    /// Extra phase-shift duration (microseconds).
    pub phase_duration_bonus: u64,
    /// Kinetic shield strength (ratio).
    pub kinetic_shield_strength: u64,
    /// Magnet radius multiplier (ratio).
    pub magnet_range_multiplier: u64,
    /// Item spawn rate multiplier (ratio).
    pub item_spawn_rate_multiplier: u64,
    /// Item attraction speed multiplier (ratio).
    pub item_attraction_speed_multiplier: u64,
    /// Extra item lifetime (microseconds).
    pub item_lifetime_bonus: u64,
    /// Multiplier of every effect duration (ratio).
    pub item_effect_duration_multiplier: u64,
    /// Combo bonus (ratio).
    pub combo_bonus_multiplier: u64,
    /// Chance of an item drop from destroyed debris (ratio).
    pub death_drop_chance: u64,
    /// Chance that an item spawns close by (ratio).
    pub close_spawn_chance: u64,
    /// Chance of a super item (ratio).
    pub super_item_chance: u64,
    /// Item slots.
    pub max_active_items: u64,
    /// Speed-boost effect multiplier (ratio).
    pub speed_boost_effectiveness: u64,
    /// Extra slow-motion duration (microseconds).
    pub slow_motion_duration_bonus: u64,
    /// Chance that a bullet slows its target (ratio).
    pub emp_chance: u64,
    /// Time between black-hole pulls (microseconds).
    pub black_hole_interval: u64,
    /// Extra time-freeze duration (microseconds).
    pub time_freeze_duration_bonus: u64,
    /// Pulse disruptor strength (ratio).
    pub pulse_disruptor_strength: u64,
    /// Reduction of the overdrive hitbox growth (ratio).
    pub overdrive_hitbox_reduction: u64,
    /// Temporal surge strength (ratio).
    pub temporal_surge_strength: u64,
    /// Share of its duration added to each effect on a pickup (ratio).
    pub energy_overflow_bonus: u64,
    /// Enemies a bullet passes through before it is spent.
    pub bullet_pierce_count: u8,
}

impl StatBlock {
    /// Every value stays within `CAP`.
    pub open spec fn wf(&self) -> bool {
        &&& self.damage_multiplier <= CAP
        &&& self.reload_speed_multiplier <= CAP
        &&& self.bullet_speed_multiplier <= CAP
        &&& self.bullet_size_multiplier <= CAP
        &&& self.bullet_explosion_damage <= CAP
        &&& self.double_shot_chance <= CAP
        &&& self.armor_penetration <= CAP
        &&& self.bullet_homing_strength <= CAP
        &&& self.crit_chance <= CAP
        &&& self.base_shoot_cooldown <= CAP
        &&& self.max_hp <= CAP
        &&& self.speed_multiplier <= CAP
        &&& self.points_multiplier <= CAP
        &&& self.damage_reduction <= CAP
        &&& self.knockback_resistance <= CAP
        &&& self.debris_damage_reduction <= CAP
        &&& self.shield_duration_bonus <= CAP
        &&& self.item_cooldown_reduction <= CAP
        &&& self.immunity_interval <= CAP
        &&& self.health_regen_rate <= CAP
        &&& self.adaptive_armor_rate <= CAP
        &&& self.phase_duration_bonus <= CAP
        &&& self.kinetic_shield_strength <= CAP
        &&& self.magnet_range_multiplier <= CAP
        &&& self.item_spawn_rate_multiplier <= CAP
        &&& self.item_attraction_speed_multiplier <= CAP
        &&& self.item_lifetime_bonus <= CAP
        &&& self.item_effect_duration_multiplier <= CAP
        &&& self.combo_bonus_multiplier <= CAP
        &&& self.death_drop_chance <= CAP
        &&& self.close_spawn_chance <= CAP
        &&& self.super_item_chance <= CAP
        &&& self.max_active_items <= CAP
        &&& self.speed_boost_effectiveness <= CAP
        &&& self.slow_motion_duration_bonus <= CAP
        &&& self.emp_chance <= CAP
        &&& self.black_hole_interval <= CAP
        &&& self.time_freeze_duration_bonus <= CAP
        &&& self.pulse_disruptor_strength <= CAP
        &&& self.overdrive_hitbox_reduction <= CAP
        &&& self.temporal_surge_strength <= CAP
        &&& self.energy_overflow_bonus <= CAP
    }

    /// The stat block of a player without skills.
    pub open spec fn fresh_spec() -> StatBlock {
        StatBlock {
            damage_multiplier: ONE,
            reload_speed_multiplier: ONE,
            bullet_speed_multiplier: ONE,
            bullet_size_multiplier: ONE,
            bullet_explosion_damage: 0,
            double_shot_chance: 0,
            armor_penetration: 0,
            bullet_homing_strength: 0,
            crit_chance: 0,
            base_shoot_cooldown: 500_000,
            max_hp: 3000,
            speed_multiplier: ONE,
            points_multiplier: ONE,
            damage_reduction: 0,
            knockback_resistance: 0,
            debris_damage_reduction: 0,
            shield_duration_bonus: 0,
            item_cooldown_reduction: 0,
            immunity_interval: 0,
            health_regen_rate: 0,
            adaptive_armor_rate: 0,
            phase_duration_bonus: 0,
            kinetic_shield_strength: 0,
            magnet_range_multiplier: ONE,
            item_spawn_rate_multiplier: ONE,
            item_attraction_speed_multiplier: ONE,
            item_lifetime_bonus: 0,
            item_effect_duration_multiplier: ONE,
            combo_bonus_multiplier: 0,
            death_drop_chance: 0,
            close_spawn_chance: 0,
            super_item_chance: 0,
            max_active_items: 1,
            speed_boost_effectiveness: ONE,
            slow_motion_duration_bonus: 0,
            emp_chance: 0,
            black_hole_interval: 0,
            time_freeze_duration_bonus: 0,
            pulse_disruptor_strength: 0,
            overdrive_hitbox_reduction: 0,
            temporal_surge_strength: 0,
            energy_overflow_bonus: 0,
            bullet_pierce_count: 0,
        }
    }

    pub fn new() -> (r: StatBlock)
        ensures
            r == StatBlock::fresh_spec(),
            r.wf(),
    {
        StatBlock {
            damage_multiplier: ONE,
            reload_speed_multiplier: ONE,
            bullet_speed_multiplier: ONE,
            bullet_size_multiplier: ONE,
            bullet_explosion_damage: 0,
            double_shot_chance: 0,
            armor_penetration: 0,
            bullet_homing_strength: 0,
            crit_chance: 0,
            base_shoot_cooldown: 500_000,
            max_hp: 3000,
            speed_multiplier: ONE,
            points_multiplier: ONE,
            damage_reduction: 0,
            knockback_resistance: 0,
            debris_damage_reduction: 0,
            shield_duration_bonus: 0,
            item_cooldown_reduction: 0,
            immunity_interval: 0,
            health_regen_rate: 0,
            adaptive_armor_rate: 0,
            phase_duration_bonus: 0,
            kinetic_shield_strength: 0,
            magnet_range_multiplier: ONE,
            item_spawn_rate_multiplier: ONE,
            item_attraction_speed_multiplier: ONE,
            item_lifetime_bonus: 0,
            item_effect_duration_multiplier: ONE,
            combo_bonus_multiplier: 0,
            death_drop_chance: 0,
            close_spawn_chance: 0,
            super_item_chance: 0,
            max_active_items: 1,
            speed_boost_effectiveness: ONE,
            slow_motion_duration_bonus: 0,
            emp_chance: 0,
            black_hole_interval: 0,
            time_freeze_duration_bonus: 0,
            pulse_disruptor_strength: 0,
            overdrive_hitbox_reduction: 0,
            temporal_surge_strength: 0,
            energy_overflow_bonus: 0,
            bullet_pierce_count: 0,
        }
    }
}

/// What `points` points in `skill` do to a stat block. Each skill's formula
/// is applied once for all its points, never compounded per point.
pub open spec fn skill_effect(b: StatBlock, skill: SkillName, points: u64) -> StatBlock {
    let p = points as int;
    match skill {
        SkillName::RapidFire => StatBlock {
            base_shoot_cooldown: scaled(b.base_shoot_cooldown as int, 1000 - 30 * p) as u64,
            ..b
        },
        SkillName::SharpenedProjectiles => StatBlock {
            damage_multiplier: scaled(b.damage_multiplier as int, 1000 + 40 * p) as u64,
            ..b
        },
        SkillName::PowerCapacitors => StatBlock {
            reload_speed_multiplier: (1000 + 20 * p) as u64,
            ..b
        },
        SkillName::PiercingShots => StatBlock { bullet_pierce_count: p as u8, ..b },
        SkillName::FocusedAim => StatBlock {
            bullet_speed_multiplier: scaled(b.bullet_speed_multiplier as int, 1000 + 50 * p) as u64,
            ..b
        },
        SkillName::ExpandedAmmo => StatBlock {
            bullet_size_multiplier: scaled(b.bullet_size_multiplier as int, 1000 + 100 * p) as u64,
            ..b
        },
        SkillName::ExplosivePayload => StatBlock { bullet_explosion_damage: (100 * p) as u64, ..b },
        SkillName::TwinCannons => StatBlock { double_shot_chance: (50 * p) as u64, ..b },
        SkillName::HighVelocityRounds => StatBlock { armor_penetration: (50 * p) as u64, ..b },
        SkillName::TargetingSystem => StatBlock { bullet_homing_strength: (50 * p) as u64, ..b },
        SkillName::CriticalStrikes => StatBlock { crit_chance: (20 * p) as u64, ..b },
        SkillName::OverpressureCoolant => StatBlock {
            damage_multiplier: scaled(b.damage_multiplier as int, 1000 + 20 * p) as u64,
            base_shoot_cooldown: scaled(b.base_shoot_cooldown as int, 1000 + 10 * p) as u64,
            ..b
        },
        SkillName::ReinforcedHull => StatBlock {
            max_hp: capped_sum(b.max_hp as int, 400 * p) as u64,
            ..b
        },
        SkillName::EvasiveManeuvers => StatBlock {
            speed_multiplier: scaled(b.speed_multiplier as int, 1000 + 30 * p) as u64,
            ..b
        },
        SkillName::ImpactFrame => StatBlock { knockback_resistance: (50 * p) as u64, ..b },
        SkillName::ImpactDampeners => StatBlock { debris_damage_reduction: (30 * p) as u64, ..b },
        SkillName::ShieldCore => StatBlock { shield_duration_bonus: (1_000_000 * p) as u64, ..b },
        SkillName::EnergyEfficiency => StatBlock { item_cooldown_reduction: (20 * p) as u64, ..b },
        SkillName::ReactiveArmor => StatBlock {
            immunity_interval: (12_000_000 - 4_000_000 * p) as u64,
            ..b
        },
        SkillName::EmergencyRepair => StatBlock { health_regen_rate: (10 * p) as u64, ..b },
        SkillName::AdaptivePlating => StatBlock { adaptive_armor_rate: (30 * p) as u64, ..b },
        SkillName::PhaseTraining => StatBlock { phase_duration_bonus: (1_500_000 * p) as u64, ..b },
        SkillName::FortifiedField => StatBlock {
            damage_reduction: capped_sum(b.damage_reduction as int, 30 * p) as u64,
            ..b
        },
        SkillName::KineticShielding => StatBlock { kinetic_shield_strength: (300 * p) as u64, ..b },
        SkillName::MagneticField => StatBlock {
            magnet_range_multiplier: scaled(b.magnet_range_multiplier as int, 1000 + 60 * p) as u64,
            ..b
        },
        SkillName::LuckyFind => StatBlock {
            item_spawn_rate_multiplier: scaled(b.item_spawn_rate_multiplier as int, 1000 + 30 * p) as u64,
            ..b
        },
        SkillName::QuickGrab => StatBlock {
            item_attraction_speed_multiplier: scaled(b.item_attraction_speed_multiplier as int, 1000 + 50 * p) as u64,
            ..b
        },
        SkillName::GoldenInsight => StatBlock {
            points_multiplier: scaled(b.points_multiplier as int, 1000 + 40 * p) as u64,
            ..b
        },
        SkillName::TreasureHoarder => StatBlock {
            item_lifetime_bonus: (2_000_000 * p) as u64,
            ..b
        },
        SkillName::PointBooster => StatBlock {
            points_multiplier: capped_sum(b.points_multiplier as int, 100 * p) as u64,
            ..b
        },
        SkillName::LongerTreasures => StatBlock {
            item_effect_duration_multiplier: scaled(b.item_effect_duration_multiplier as int, 1000 + 50 * p) as u64,
            ..b
        },
        SkillName::ComboHunter => StatBlock { combo_bonus_multiplier: (50 * p) as u64, ..b },
        SkillName::TreasureInstinct => StatBlock { death_drop_chance: (20 * p) as u64, ..b },
        SkillName::TreasureRadar => StatBlock { close_spawn_chance: (50 * p) as u64, ..b },
        SkillName::LuckyJackpot => StatBlock { super_item_chance: (20 * p) as u64, ..b },
        SkillName::ExtraStorage => StatBlock {
            max_active_items: capped_sum(b.max_active_items as int, p) as u64,
            ..b
        },
        SkillName::EngineBoost => StatBlock {
            speed_boost_effectiveness: scaled(b.speed_boost_effectiveness as int, 1000 + 60 * p) as u64,
            ..b
        },
        SkillName::ChronoTraining => StatBlock {
            slow_motion_duration_bonus: (400_000 * p) as u64,
            ..b
        },
        SkillName::OptimizedBattery => StatBlock {
            item_effect_duration_multiplier: scaled(b.item_effect_duration_multiplier as int, 1000 + 20 * p) as u64,
            ..b
        },
        SkillName::EmpRounds => StatBlock { emp_chance: (30 * p) as u64, ..b },
        SkillName::TemporalBuffer => StatBlock {
            speed_multiplier: scaled(b.speed_multiplier as int, 1000 - 10 * p) as u64,
            item_effect_duration_multiplier: scaled(b.item_effect_duration_multiplier as int, 1000 + 50 * p) as u64,
            ..b
        },
        SkillName::OverclockedFire => StatBlock {
            base_shoot_cooldown: scaled(b.base_shoot_cooldown as int, 1000 - 40 * p) as u64,
            ..b
        },
        SkillName::MiniBlackHole => StatBlock {
            black_hole_interval: (30_000_000 - 6_000_000 * p) as u64,
            ..b
        },
        SkillName::TimeFreezeMastery => StatBlock {
            time_freeze_duration_bonus: (1_000_000 * p) as u64,
            ..b
        },
        SkillName::PulseDisruptor => StatBlock { pulse_disruptor_strength: (500 * p) as u64, ..b },
        SkillName::OverdriveCalibration => StatBlock {
            overdrive_hitbox_reduction: (100 * p) as u64,
            ..b
        },
        SkillName::TemporalSurge => StatBlock { temporal_surge_strength: (50 * p) as u64, ..b },
        SkillName::EnergyOverflow => StatBlock { energy_overflow_bonus: (50 * p) as u64, ..b },
        _ => b,
    }
}

/// Applies the formula of `skill` for `points` points to `stats`.
pub fn apply_skill_effect(stats: &mut StatBlock, skill: SkillName, points: u8)
    requires
        old(stats).wf(),
        points <= skill.spec_max_points(),
    ensures
        final(stats).wf(),
        *final(stats) == skill_effect(*old(stats), skill, points as u64),
{
    let p = points as u64;
    match skill {
        SkillName::RapidFire => {
            stats.base_shoot_cooldown = scale(stats.base_shoot_cooldown, 1000 - 30 * p);
        },
        SkillName::SharpenedProjectiles => {
            stats.damage_multiplier = scale(stats.damage_multiplier, 1000 + 40 * p);
        },
        SkillName::PowerCapacitors => {
            stats.reload_speed_multiplier = 1000 + 20 * p;
        },
        SkillName::PiercingShots => {
            stats.bullet_pierce_count = points;
        },
        SkillName::FocusedAim => {
            stats.bullet_speed_multiplier = scale(stats.bullet_speed_multiplier, 1000 + 50 * p);
        },
        SkillName::ExpandedAmmo => {
            stats.bullet_size_multiplier = scale(stats.bullet_size_multiplier, 1000 + 100 * p);
        },
        SkillName::ExplosivePayload => {
            stats.bullet_explosion_damage = 100 * p;
        },
        SkillName::TwinCannons => {
            stats.double_shot_chance = 50 * p;
        },
        SkillName::HighVelocityRounds => {
            stats.armor_penetration = 50 * p;
        },
        SkillName::TargetingSystem => {
            stats.bullet_homing_strength = 50 * p;
        },
        SkillName::CriticalStrikes => {
            stats.crit_chance = 20 * p;
        },
        SkillName::OverpressureCoolant => {
            stats.damage_multiplier = scale(stats.damage_multiplier, 1000 + 20 * p);
            stats.base_shoot_cooldown = scale(stats.base_shoot_cooldown, 1000 + 10 * p);
        },
        SkillName::ReinforcedHull => {
            stats.max_hp = add_capped(stats.max_hp, 400 * p);
        },
        SkillName::EvasiveManeuvers => {
            stats.speed_multiplier = scale(stats.speed_multiplier, 1000 + 30 * p);
        },
        SkillName::ImpactFrame => {
            stats.knockback_resistance = 50 * p;
        },
        SkillName::ImpactDampeners => {
            stats.debris_damage_reduction = 30 * p;
        },
        SkillName::ShieldCore => {
            stats.shield_duration_bonus = 1_000_000 * p;
        },
        SkillName::EnergyEfficiency => {
            stats.item_cooldown_reduction = 20 * p;
        },
        SkillName::ReactiveArmor => {
            stats.immunity_interval = 12_000_000 - 4_000_000 * p;
        },
        SkillName::EmergencyRepair => {
            stats.health_regen_rate = 10 * p;
        },
        SkillName::AdaptivePlating => {
            stats.adaptive_armor_rate = 30 * p;
        },
        SkillName::PhaseTraining => {
            stats.phase_duration_bonus = 1_500_000 * p;
        },
        SkillName::FortifiedField => {
            stats.damage_reduction = add_capped(stats.damage_reduction, 30 * p);
        },
        SkillName::KineticShielding => {
            stats.kinetic_shield_strength = 300 * p;
        },
        SkillName::MagneticField => {
            stats.magnet_range_multiplier = scale(stats.magnet_range_multiplier, 1000 + 60 * p);
        },
        SkillName::LuckyFind => {
            stats.item_spawn_rate_multiplier = scale(stats.item_spawn_rate_multiplier, 1000 + 30 * p);
        },
        SkillName::QuickGrab => {
            stats.item_attraction_speed_multiplier = scale(stats.item_attraction_speed_multiplier, 1000 + 50 * p);
        },
        SkillName::GoldenInsight => {
            stats.points_multiplier = scale(stats.points_multiplier, 1000 + 40 * p);
        },
        SkillName::TreasureHoarder => {
            stats.item_lifetime_bonus = 2_000_000 * p;
        },
        SkillName::PointBooster => {
            stats.points_multiplier = add_capped(stats.points_multiplier, 100 * p);
        },
        SkillName::LongerTreasures => {
            stats.item_effect_duration_multiplier = scale(stats.item_effect_duration_multiplier, 1000 + 50 * p);
        },
        SkillName::ComboHunter => {
            stats.combo_bonus_multiplier = 50 * p;
        },
        SkillName::TreasureInstinct => {
            stats.death_drop_chance = 20 * p;
        },
        SkillName::TreasureRadar => {
            stats.close_spawn_chance = 50 * p;
        },
        SkillName::LuckyJackpot => {
            stats.super_item_chance = 20 * p;
        },
        SkillName::ExtraStorage => {
            stats.max_active_items = add_capped(stats.max_active_items, p);
        },
        SkillName::EngineBoost => {
            stats.speed_boost_effectiveness = scale(stats.speed_boost_effectiveness, 1000 + 60 * p);
        },
        SkillName::ChronoTraining => {
            stats.slow_motion_duration_bonus = 400_000 * p;
        },
        SkillName::OptimizedBattery => {
            stats.item_effect_duration_multiplier = scale(stats.item_effect_duration_multiplier, 1000 + 20 * p);
        },
        SkillName::EmpRounds => {
            stats.emp_chance = 30 * p;
        },
        SkillName::TemporalBuffer => {
            stats.speed_multiplier = scale(stats.speed_multiplier, 1000 - 10 * p);
            stats.item_effect_duration_multiplier = scale(stats.item_effect_duration_multiplier, 1000 + 50 * p);
        },
        SkillName::OverclockedFire => {
            stats.base_shoot_cooldown = scale(stats.base_shoot_cooldown, 1000 - 40 * p);
        },
        SkillName::MiniBlackHole => {
            stats.black_hole_interval = 30_000_000 - 6_000_000 * p;
        },
        SkillName::TimeFreezeMastery => {
            stats.time_freeze_duration_bonus = 1_000_000 * p;
        },
        SkillName::PulseDisruptor => {
            stats.pulse_disruptor_strength = 500 * p;
        },
        SkillName::OverdriveCalibration => {
            stats.overdrive_hitbox_reduction = 100 * p;
        },
        SkillName::TemporalSurge => {
            stats.temporal_surge_strength = 50 * p;
        },
        SkillName::EnergyOverflow => {
            stats.energy_overflow_bonus = 50 * p;
        },
        _ => {},
    }
}
/// The flat bonus that each tree grants, whatever its allocation. A zero
/// field grants nothing; the others are multipliers (ratios), except
/// `max_hp_bonus`, which is added.
#[derive(Clone, Copy, Debug, PartialEq, Eq, Structural)]
pub struct TreeBonus {
    pub bullet_speed_multiplier: u64,
    pub damage_multiplier: u64,
    pub max_hp_bonus: u64,
    pub speed_multiplier: u64,
    pub points_multiplier: u64,
    pub item_spawn_distance_multiplier: u64,
    pub item_duration_multiplier: u64,
}

/// The bonus of each category. The game grants it with the tree itself,
/// whether or not points were spent there: every run started through the
/// skill manager carries all four bonuses (a survival tree with no points
/// still adds one hit point). A bare `Player::new` carries none.
pub open spec fn tree_bonus_spec(t: SkillTreeType) -> TreeBonus {
    let none = TreeBonus {
        bullet_speed_multiplier: 0,
        damage_multiplier: 0,
        max_hp_bonus: 0,
        speed_multiplier: 0,
        points_multiplier: 0,
        item_spawn_distance_multiplier: 0,
        item_duration_multiplier: 0,
    };
    match t {
        SkillTreeType::Combat => TreeBonus {
            bullet_speed_multiplier: 1100,
            damage_multiplier: 1050,
            ..none
        },
        SkillTreeType::Survival => TreeBonus { max_hp_bonus: 1000, speed_multiplier: 1050, ..none },
        SkillTreeType::Treasure => TreeBonus {
            points_multiplier: 1100,
            item_spawn_distance_multiplier: 900,
            ..none
        },
        SkillTreeType::Tech => TreeBonus {
            item_duration_multiplier: 1050,
            speed_multiplier: 1050,
            ..none
        },
    }
}

/// `b` with the bonus `tb` applied. The item spawn distance has no stat of
/// its own and is left to the item spawner.
pub open spec fn bonus_applied(b: StatBlock, tb: TreeBonus) -> StatBlock {
    let b1 = if tb.bullet_speed_multiplier != 0 {
        StatBlock {
            bullet_speed_multiplier: scaled(
                b.bullet_speed_multiplier as int,
                tb.bullet_speed_multiplier as int,
            ) as u64,
            ..b
        }
    } else {
        b
    };
    let b2 = if tb.damage_multiplier != 0 {
        StatBlock {
            damage_multiplier: scaled(b1.damage_multiplier as int, tb.damage_multiplier as int) as u64,
            ..b1
        }
    } else {
        b1
    };
    let b3 = if tb.max_hp_bonus != 0 {
        StatBlock { max_hp: capped_sum(b2.max_hp as int, tb.max_hp_bonus as int) as u64, ..b2 }
    } else {
        b2
    };
    let b4 = if tb.speed_multiplier != 0 {
        StatBlock {
            speed_multiplier: scaled(b3.speed_multiplier as int, tb.speed_multiplier as int) as u64,
            ..b3
        }
    } else {
        b3
    };
    let b5 = if tb.points_multiplier != 0 {
        StatBlock {
            points_multiplier: scaled(b4.points_multiplier as int, tb.points_multiplier as int) as u64,
            ..b4
        }
    } else {
        b4
    };
    if tb.item_duration_multiplier != 0 {
        StatBlock {
            item_effect_duration_multiplier: scaled(
                b5.item_effect_duration_multiplier as int,
                tb.item_duration_multiplier as int,
            ) as u64,
            ..b5
        }
    } else {
        b5
    }
}

impl TreeBonus {
    pub open spec fn wf(&self) -> bool {
        &&& self.bullet_speed_multiplier <= 1_000_000
        &&& self.damage_multiplier <= 1_000_000
        &&& self.max_hp_bonus <= CAP
        &&& self.speed_multiplier <= 1_000_000
        &&& self.points_multiplier <= 1_000_000
        &&& self.item_duration_multiplier <= 1_000_000
    }

    pub fn apply_to_player(&self, stats: &mut StatBlock)
        requires
            self.wf(),
            old(stats).wf(),
        ensures
            final(stats).wf(),
            *final(stats) == bonus_applied(*old(stats), *self),
    {
        if self.bullet_speed_multiplier != 0 {
            stats.bullet_speed_multiplier = scale(
                stats.bullet_speed_multiplier,
                self.bullet_speed_multiplier,
            );
        }
        if self.damage_multiplier != 0 {
            stats.damage_multiplier = scale(stats.damage_multiplier, self.damage_multiplier);
        }
        if self.max_hp_bonus != 0 {
            stats.max_hp = add_capped(stats.max_hp, self.max_hp_bonus);
        }
        if self.speed_multiplier != 0 {
            stats.speed_multiplier = scale(stats.speed_multiplier, self.speed_multiplier);
        }
        if self.points_multiplier != 0 {
            stats.points_multiplier = scale(stats.points_multiplier, self.points_multiplier);
        }
        if self.item_duration_multiplier != 0 {
            stats.item_effect_duration_multiplier = scale(
                stats.item_effect_duration_multiplier,
                self.item_duration_multiplier,
            );
        }
    }
}

/// `b` after the skills in the first `k` slots of tree `t` (those holding
/// points) have been applied, in slot order.
pub open spec fn skills_applied(b: StatBlock, t: SkillTree, k: int) -> StatBlock
    decreases k,
{
    if k <= 0 {
        b
    } else {
        let prev = skills_applied(b, t, k - 1);
        let points = t.allocated_points@[k - 1];
        if points > 0 {
            skill_effect(prev, spec_skill_at(t.tree_type, k - 1), points as u64)
        } else {
            prev
        }
    }
}

/// `b` after the whole pass of tree `t`: its bonus, then its skills.
pub open spec fn tree_applied(b: StatBlock, t: SkillTree) -> StatBlock {
    skills_applied(bonus_applied(b, tree_bonus_spec(t.tree_type)), t, SKILLS_PER_TREE as int)
}

/// `b` after the pass of all four trees, in category order.
pub open spec fn manager_applied(b: StatBlock, m: SkillTreeManager) -> StatBlock {
    tree_applied(tree_applied(tree_applied(tree_applied(b, m.combat), m.survival), m.treasure), m.tech)
}

impl SkillTree {
    pub fn get_tree_bonus(&self) -> (r: TreeBonus)
        ensures
            r == tree_bonus_spec(self.tree_type),
            r.wf(),
    {
        let none = TreeBonus {
            bullet_speed_multiplier: 0,
            damage_multiplier: 0,
            max_hp_bonus: 0,
            speed_multiplier: 0,
            points_multiplier: 0,
            item_spawn_distance_multiplier: 0,
            item_duration_multiplier: 0,
        };
        match self.tree_type {
            SkillTreeType::Combat => TreeBonus {
                bullet_speed_multiplier: 1100,
                damage_multiplier: 1050,
                ..none
            },
            SkillTreeType::Survival => TreeBonus {
                max_hp_bonus: 1000,
                speed_multiplier: 1050,
                ..none
            },
            SkillTreeType::Treasure => TreeBonus {
                points_multiplier: 1100,
                item_spawn_distance_multiplier: 900,
                ..none
            },
            SkillTreeType::Tech => TreeBonus {
                item_duration_multiplier: 1050,
                speed_multiplier: 1050,
                ..none
            },
        }
    }

    /// Applies the tree's bonus and then each allocated skill to `stats`.
    pub fn apply_skills_to_player(&self, stats: &mut StatBlock)
        requires
            self.wf(),
            old(stats).wf(),
        ensures
            final(stats).wf(),
            *final(stats) == tree_applied(*old(stats), *self),
    {
        let bonus = self.get_tree_bonus();
        bonus.apply_to_player(stats);
        let ghost start = *stats;
        for slot in 0..SKILLS_PER_TREE
            invariant
                self.wf(),
                stats.wf(),
                *stats == skills_applied(start, *self, slot as int),
        {
            let points = self.allocated_points[slot];
            if points > 0 {
                let skill = skill_at(self.tree_type, slot);
                apply_skill_effect(stats, skill, points);
            }
        }
    }
}

impl SkillTreeManager {
    /// Applies all four trees to `stats`: Combat, Survival, Treasure, Tech.
    pub fn apply_to_player(&self, stats: &mut StatBlock)
        requires
            self.wf(),
            old(stats).wf(),
        ensures
            final(stats).wf(),
            *final(stats) == manager_applied(*old(stats), *self),
    {
        proof {
            assert(self.tree_spec(SkillTreeType::Combat).wf());
            assert(self.tree_spec(SkillTreeType::Survival).wf());
            assert(self.tree_spec(SkillTreeType::Treasure).wf());
            assert(self.tree_spec(SkillTreeType::Tech).wf());
        }
        self.combat.apply_skills_to_player(stats);
        self.survival.apply_skills_to_player(stats);
        self.treasure.apply_skills_to_player(stats);
        self.tech.apply_skills_to_player(stats);
    }
}

/// The apply pass is a function of the allocation alone: run twice from a
/// fresh stat block with the same allocation, it yields the same block.
pub proof fn lemma_apply_pass_idempotent(m1: SkillTreeManager, m2: SkillTreeManager)
    requires
        forall|t: SkillTreeType|
            (#[trigger] m1.tree_spec(t)).allocated_points@ == m2.tree_spec(t).allocated_points@
                && m1.tree_spec(t).tree_type == m2.tree_spec(t).tree_type,
    ensures
        manager_applied(StatBlock::fresh_spec(), m1) == manager_applied(StatBlock::fresh_spec(), m2),
{
    let n = SKILLS_PER_TREE as int;
    let (t1, t2, t3, t4) = (
        SkillTreeType::Combat,
        SkillTreeType::Survival,
        SkillTreeType::Treasure,
        SkillTreeType::Tech,
    );
    assert(m1.tree_spec(t1).allocated_points@ == m2.tree_spec(t1).allocated_points@);
    assert(m1.tree_spec(t2).allocated_points@ == m2.tree_spec(t2).allocated_points@);
    assert(m1.tree_spec(t3).allocated_points@ == m2.tree_spec(t3).allocated_points@);
    assert(m1.tree_spec(t4).allocated_points@ == m2.tree_spec(t4).allocated_points@);
    let fresh = StatBlock::fresh_spec();
    lemma_tree_pass_depends_on_points(fresh, m1.combat, m2.combat, n);
    let c = tree_applied(fresh, m1.combat);
    lemma_tree_pass_depends_on_points(c, m1.survival, m2.survival, n);
    let s = tree_applied(c, m1.survival);
    lemma_tree_pass_depends_on_points(s, m1.treasure, m2.treasure, n);
    let t = tree_applied(s, m1.treasure);
    lemma_tree_pass_depends_on_points(t, m1.tech, m2.tech, n);
}

proof fn lemma_tree_pass_depends_on_points(b: StatBlock, t1: SkillTree, t2: SkillTree, k: int)
    requires
        t1.allocated_points@ == t2.allocated_points@,
        t1.tree_type == t2.tree_type,
    ensures
        skills_applied(bonus_applied(b, tree_bonus_spec(t1.tree_type)), t1, k) == skills_applied(
            bonus_applied(b, tree_bonus_spec(t2.tree_type)),
            t2,
            k,
        ),
    decreases k,
{
    if k > 0 {
        lemma_tree_pass_depends_on_points(b, t1, t2, k - 1);
    }
}

} // verus!
