//! Skill trees: the catalogue of skills, the point-allocation rules of one
//! tree, and the manager that owns the four trees and the point pool.

use vstd::prelude::*;

verus! {

/// The four skill categories.
#[derive(Clone, Copy, Debug, PartialEq, Eq, Structural, Hash)]
pub enum SkillTreeType {
    Combat,
    Survival,
    Treasure,
    Tech,
}

/// Every skill of every tree.
#[derive(Clone, Copy, Debug, PartialEq, Eq, Structural, Hash)]
pub enum SkillName {
    // Combat
    RapidFire,
    SharpenedProjectiles,
    PowerCapacitors,
    PiercingShots,
    FocusedAim,
    ExpandedAmmo,
    ExplosivePayload,
    TwinCannons,
    HighVelocityRounds,
    TargetingSystem,
    CriticalStrikes,
    OverpressureCoolant,
    BulletStorm,
    PlasmaCannon,
    // Survival
    ReinforcedHull,
    EvasiveManeuvers,
    ImpactFrame,
    ImpactDampeners,
    ShieldCore,
    EnergyEfficiency,
    ReactiveArmor,
    EmergencyRepair,
    AdaptivePlating,
    PhaseTraining,
    FortifiedField,
    KineticShielding,
    GuardianAngel,
    FortressMode,
    // Treasure
    MagneticField,
    LuckyFind,
    QuickGrab,
    GoldenInsight,
    TreasureHoarder,
    PointBooster,
    LongerTreasures,
    ComboHunter,
    TreasureInstinct,
    TreasureRadar,
    LuckyJackpot,
    ExtraStorage,
    JackpotParty,
    GoldenTouch,
    // Tech
    EngineBoost,
    ChronoTraining,
    OptimizedBattery,
    EmpRounds,
    TemporalBuffer,
    OverclockedFire,
    MiniBlackHole,
    TimeFreezeMastery,
    PulseDisruptor,
    OverdriveCalibration,
    TemporalSurge,
    EnergyOverflow,
    Singularity,
    MatrixMode,
}

/// Number of skills in each tree.
pub const SKILLS_PER_TREE: usize = 14;

/// Points spent in a tree before any point can go into a skill of `tier`.
pub open spec fn tier_threshold(tier: u8) -> int {
    (tier as int - 1) * 5
}

/// Tier of the skill at a position of its tree's catalogue: three skills per
/// tier for tiers one to four, then the two ultimates.
pub open spec fn tier_of_slot(slot: int) -> u8 {
    if slot >= 12 {
        5
    } else {
        (slot / 3 + 1) as u8
    }
}

/// The skill at position `slot` of a tree's catalogue.
pub open spec fn spec_skill_at(tree: SkillTreeType, slot: int) -> SkillName {
    match tree {
        SkillTreeType::Combat => {
            if slot == 0 {
                SkillName::RapidFire
            } else if slot == 1 {
                SkillName::SharpenedProjectiles
            } else if slot == 2 {
                SkillName::PowerCapacitors
            } else if slot == 3 {
                SkillName::PiercingShots
            } else if slot == 4 {
                SkillName::FocusedAim
            } else if slot == 5 {
                SkillName::ExpandedAmmo
            } else if slot == 6 {
                SkillName::ExplosivePayload
            } else if slot == 7 {
                SkillName::TwinCannons
            } else if slot == 8 {
                SkillName::HighVelocityRounds
            } else if slot == 9 {
                SkillName::TargetingSystem
            } else if slot == 10 {
                SkillName::CriticalStrikes
            } else if slot == 11 {
                SkillName::OverpressureCoolant
            } else if slot == 12 {
                SkillName::BulletStorm
            } else {
                SkillName::PlasmaCannon
            }
        },
        SkillTreeType::Survival => {
            if slot == 0 {
                SkillName::ReinforcedHull
            } else if slot == 1 {
                SkillName::EvasiveManeuvers
            } else if slot == 2 {
                SkillName::ImpactFrame
            } else if slot == 3 {
                SkillName::ImpactDampeners
            } else if slot == 4 {
                SkillName::ShieldCore
            } else if slot == 5 {
                SkillName::EnergyEfficiency
            } else if slot == 6 {
                SkillName::ReactiveArmor
            } else if slot == 7 {
                SkillName::EmergencyRepair
            } else if slot == 8 {
                SkillName::AdaptivePlating
            } else if slot == 9 {
                SkillName::PhaseTraining
            } else if slot == 10 {
                SkillName::FortifiedField
            } else if slot == 11 {
                SkillName::KineticShielding
            } else if slot == 12 {
                SkillName::GuardianAngel
            } else {
                SkillName::FortressMode
            }
        },
        SkillTreeType::Treasure => {
            if slot == 0 {
                SkillName::MagneticField
            } else if slot == 1 {
                SkillName::LuckyFind
            } else if slot == 2 {
                SkillName::QuickGrab
            } else if slot == 3 {
                SkillName::GoldenInsight
            } else if slot == 4 {
                SkillName::TreasureHoarder
            } else if slot == 5 {
                SkillName::PointBooster
            } else if slot == 6 {
                SkillName::LongerTreasures
            } else if slot == 7 {
                SkillName::ComboHunter
            } else if slot == 8 {
                SkillName::TreasureInstinct
            } else if slot == 9 {
                SkillName::TreasureRadar
            } else if slot == 10 {
                SkillName::LuckyJackpot
            } else if slot == 11 {
                SkillName::ExtraStorage
            } else if slot == 12 {
                SkillName::JackpotParty
            } else {
                SkillName::GoldenTouch
            }
        },
        SkillTreeType::Tech => {
            if slot == 0 {
                SkillName::EngineBoost
            } else if slot == 1 {
                SkillName::ChronoTraining
            } else if slot == 2 {
                SkillName::OptimizedBattery
            } else if slot == 3 {
                SkillName::EmpRounds
            } else if slot == 4 {
                SkillName::TemporalBuffer
            } else if slot == 5 {
                SkillName::OverclockedFire
            } else if slot == 6 {
                SkillName::MiniBlackHole
            } else if slot == 7 {
                SkillName::TimeFreezeMastery
            } else if slot == 8 {
                SkillName::PulseDisruptor
            } else if slot == 9 {
                SkillName::OverdriveCalibration
            } else if slot == 10 {
                SkillName::TemporalSurge
            } else if slot == 11 {
                SkillName::EnergyOverflow
            } else if slot == 12 {
                SkillName::Singularity
            } else {
                SkillName::MatrixMode
            }
        },
    }
}

impl SkillName {
    /// The tree the skill belongs to.
    pub open spec fn spec_tree(self) -> SkillTreeType {
        match self {
            SkillName::RapidFire
            | SkillName::SharpenedProjectiles
            | SkillName::PowerCapacitors
            | SkillName::PiercingShots
            | SkillName::FocusedAim
            | SkillName::ExpandedAmmo
            | SkillName::ExplosivePayload
            | SkillName::TwinCannons
            | SkillName::HighVelocityRounds
            | SkillName::TargetingSystem
            | SkillName::CriticalStrikes
            | SkillName::OverpressureCoolant
            | SkillName::BulletStorm
            | SkillName::PlasmaCannon => SkillTreeType::Combat,
            SkillName::ReinforcedHull
            | SkillName::EvasiveManeuvers
            | SkillName::ImpactFrame
            | SkillName::ImpactDampeners
            | SkillName::ShieldCore
            | SkillName::EnergyEfficiency
            | SkillName::ReactiveArmor
            | SkillName::EmergencyRepair
            | SkillName::AdaptivePlating
            | SkillName::PhaseTraining
            | SkillName::FortifiedField
            | SkillName::KineticShielding
            | SkillName::GuardianAngel
            | SkillName::FortressMode => SkillTreeType::Survival,
            SkillName::MagneticField
            | SkillName::LuckyFind
            | SkillName::QuickGrab
            | SkillName::GoldenInsight
            | SkillName::TreasureHoarder
            | SkillName::PointBooster
            | SkillName::LongerTreasures
            | SkillName::ComboHunter
            | SkillName::TreasureInstinct
            | SkillName::TreasureRadar
            | SkillName::LuckyJackpot
            | SkillName::ExtraStorage
            | SkillName::JackpotParty
            | SkillName::GoldenTouch => SkillTreeType::Treasure,
            SkillName::EngineBoost
            | SkillName::ChronoTraining
            | SkillName::OptimizedBattery
            | SkillName::EmpRounds
            | SkillName::TemporalBuffer
            | SkillName::OverclockedFire
            | SkillName::MiniBlackHole
            | SkillName::TimeFreezeMastery
            | SkillName::PulseDisruptor
            | SkillName::OverdriveCalibration
            | SkillName::TemporalSurge
            | SkillName::EnergyOverflow
            | SkillName::Singularity
            | SkillName::MatrixMode => SkillTreeType::Tech,
        }
    }

    /// Position of the skill in its tree's catalogue.
    pub open spec fn spec_slot(self) -> int {
        match self {
            SkillName::RapidFire => 0,
            SkillName::SharpenedProjectiles => 1,
            SkillName::PowerCapacitors => 2,
            SkillName::PiercingShots => 3,
            SkillName::FocusedAim => 4,
            SkillName::ExpandedAmmo => 5,
            SkillName::ExplosivePayload => 6,
            SkillName::TwinCannons => 7,
            SkillName::HighVelocityRounds => 8,
            SkillName::TargetingSystem => 9,
            SkillName::CriticalStrikes => 10,
            SkillName::OverpressureCoolant => 11,
            SkillName::BulletStorm => 12,
            SkillName::PlasmaCannon => 13,
            SkillName::ReinforcedHull => 0,
            SkillName::EvasiveManeuvers => 1,
            SkillName::ImpactFrame => 2,
            SkillName::ImpactDampeners => 3,
            SkillName::ShieldCore => 4,
            SkillName::EnergyEfficiency => 5,
            SkillName::ReactiveArmor => 6,
            SkillName::EmergencyRepair => 7,
            SkillName::AdaptivePlating => 8,
            SkillName::PhaseTraining => 9,
            SkillName::FortifiedField => 10,
            SkillName::KineticShielding => 11,
            SkillName::GuardianAngel => 12,
            SkillName::FortressMode => 13,
            SkillName::MagneticField => 0,
            SkillName::LuckyFind => 1,
            SkillName::QuickGrab => 2,
            SkillName::GoldenInsight => 3,
            SkillName::TreasureHoarder => 4,
            SkillName::PointBooster => 5,
            SkillName::LongerTreasures => 6,
            SkillName::ComboHunter => 7,
            SkillName::TreasureInstinct => 8,
            SkillName::TreasureRadar => 9,
            SkillName::LuckyJackpot => 10,
            SkillName::ExtraStorage => 11,
            SkillName::JackpotParty => 12,
            SkillName::GoldenTouch => 13,
            SkillName::EngineBoost => 0,
            SkillName::ChronoTraining => 1,
            SkillName::OptimizedBattery => 2,
            SkillName::EmpRounds => 3,
            SkillName::TemporalBuffer => 4,
            SkillName::OverclockedFire => 5,
            SkillName::MiniBlackHole => 6,
            SkillName::TimeFreezeMastery => 7,
            SkillName::PulseDisruptor => 8,
            SkillName::OverdriveCalibration => 9,
            SkillName::TemporalSurge => 10,
            SkillName::EnergyOverflow => 11,
            SkillName::Singularity => 12,
            SkillName::MatrixMode => 13,
        }
    }

    /// The most points the skill can hold.
    pub open spec fn spec_max_points(self) -> u8 {
        match self {
            SkillName::BulletStorm
            | SkillName::PlasmaCannon
            | SkillName::GuardianAngel
            | SkillName::FortressMode
            | SkillName::ExtraStorage
            | SkillName::JackpotParty
            | SkillName::GoldenTouch
            | SkillName::Singularity
            | SkillName::MatrixMode => 1,
            SkillName::PiercingShots
            | SkillName::ExplosivePayload
            | SkillName::TargetingSystem
            | SkillName::ShieldCore
            | SkillName::ReactiveArmor
            | SkillName::PhaseTraining
            | SkillName::KineticShielding
            | SkillName::ComboHunter
            | SkillName::TreasureRadar
            | SkillName::TimeFreezeMastery
            | SkillName::PulseDisruptor
            | SkillName::EnergyOverflow => 3,
            SkillName::RapidFire
            | SkillName::SharpenedProjectiles
            | SkillName::PowerCapacitors
            | SkillName::FocusedAim
            | SkillName::ExpandedAmmo
            | SkillName::TwinCannons
            | SkillName::HighVelocityRounds
            | SkillName::CriticalStrikes
            | SkillName::OverpressureCoolant
            | SkillName::ReinforcedHull
            | SkillName::EvasiveManeuvers
            | SkillName::ImpactFrame
            | SkillName::ImpactDampeners
            | SkillName::EnergyEfficiency
            | SkillName::EmergencyRepair
            | SkillName::AdaptivePlating
            | SkillName::FortifiedField
            | SkillName::MagneticField
            | SkillName::LuckyFind
            | SkillName::QuickGrab
            | SkillName::GoldenInsight
            | SkillName::TreasureHoarder
            | SkillName::PointBooster
            | SkillName::LongerTreasures
            | SkillName::TreasureInstinct
            | SkillName::LuckyJackpot
            | SkillName::EngineBoost
            | SkillName::ChronoTraining
            | SkillName::OptimizedBattery
            | SkillName::EmpRounds
            | SkillName::TemporalBuffer
            | SkillName::OverclockedFire
            | SkillName::MiniBlackHole
            | SkillName::OverdriveCalibration
            | SkillName::TemporalSurge => 5,
        }
    }

    pub open spec fn spec_tier(self) -> u8 {
        tier_of_slot(self.spec_slot())
    }

    pub fn tree(&self) -> (r: SkillTreeType)
        ensures
            r == self.spec_tree(),
    {
        match self {
            SkillName::RapidFire
            | SkillName::SharpenedProjectiles
            | SkillName::PowerCapacitors
            | SkillName::PiercingShots
            | SkillName::FocusedAim
            | SkillName::ExpandedAmmo
            | SkillName::ExplosivePayload
            | SkillName::TwinCannons
            | SkillName::HighVelocityRounds
            | SkillName::TargetingSystem
            | SkillName::CriticalStrikes
            | SkillName::OverpressureCoolant
            | SkillName::BulletStorm
            | SkillName::PlasmaCannon => SkillTreeType::Combat,
            SkillName::ReinforcedHull
            | SkillName::EvasiveManeuvers
            | SkillName::ImpactFrame
            | SkillName::ImpactDampeners
            | SkillName::ShieldCore
            | SkillName::EnergyEfficiency
            | SkillName::ReactiveArmor
            | SkillName::EmergencyRepair
            | SkillName::AdaptivePlating
            | SkillName::PhaseTraining
            | SkillName::FortifiedField
            | SkillName::KineticShielding
            | SkillName::GuardianAngel
            | SkillName::FortressMode => SkillTreeType::Survival,
            SkillName::MagneticField
            | SkillName::LuckyFind
            | SkillName::QuickGrab
            | SkillName::GoldenInsight
            | SkillName::TreasureHoarder
            | SkillName::PointBooster
            | SkillName::LongerTreasures
            | SkillName::ComboHunter
            | SkillName::TreasureInstinct
            | SkillName::TreasureRadar
            | SkillName::LuckyJackpot
            | SkillName::ExtraStorage
            | SkillName::JackpotParty
            | SkillName::GoldenTouch => SkillTreeType::Treasure,
            SkillName::EngineBoost
            | SkillName::ChronoTraining
            | SkillName::OptimizedBattery
            | SkillName::EmpRounds
            | SkillName::TemporalBuffer
            | SkillName::OverclockedFire
            | SkillName::MiniBlackHole
            | SkillName::TimeFreezeMastery
            | SkillName::PulseDisruptor
            | SkillName::OverdriveCalibration
            | SkillName::TemporalSurge
            | SkillName::EnergyOverflow
            | SkillName::Singularity
            | SkillName::MatrixMode => SkillTreeType::Tech,
        }
    }

    pub fn slot(&self) -> (r: usize)
        ensures
            r as int == self.spec_slot(),
            r < SKILLS_PER_TREE,
    {
        match self {
            SkillName::RapidFire => 0,
            SkillName::SharpenedProjectiles => 1,
            SkillName::PowerCapacitors => 2,
            SkillName::PiercingShots => 3,
            SkillName::FocusedAim => 4,
            SkillName::ExpandedAmmo => 5,
            SkillName::ExplosivePayload => 6,
            SkillName::TwinCannons => 7,
            SkillName::HighVelocityRounds => 8,
            SkillName::TargetingSystem => 9,
            SkillName::CriticalStrikes => 10,
            SkillName::OverpressureCoolant => 11,
            SkillName::BulletStorm => 12,
            SkillName::PlasmaCannon => 13,
            SkillName::ReinforcedHull => 0,
            SkillName::EvasiveManeuvers => 1,
            SkillName::ImpactFrame => 2,
            SkillName::ImpactDampeners => 3,
            SkillName::ShieldCore => 4,
            SkillName::EnergyEfficiency => 5,
            SkillName::ReactiveArmor => 6,
            SkillName::EmergencyRepair => 7,
            SkillName::AdaptivePlating => 8,
            SkillName::PhaseTraining => 9,
            SkillName::FortifiedField => 10,
            SkillName::KineticShielding => 11,
            SkillName::GuardianAngel => 12,
            SkillName::FortressMode => 13,
            SkillName::MagneticField => 0,
            SkillName::LuckyFind => 1,
            SkillName::QuickGrab => 2,
            SkillName::GoldenInsight => 3,
            SkillName::TreasureHoarder => 4,
            SkillName::PointBooster => 5,
            SkillName::LongerTreasures => 6,
            SkillName::ComboHunter => 7,
            SkillName::TreasureInstinct => 8,
            SkillName::TreasureRadar => 9,
            SkillName::LuckyJackpot => 10,
            SkillName::ExtraStorage => 11,
            SkillName::JackpotParty => 12,
            SkillName::GoldenTouch => 13,
            SkillName::EngineBoost => 0,
            SkillName::ChronoTraining => 1,
            SkillName::OptimizedBattery => 2,
            SkillName::EmpRounds => 3,
            SkillName::TemporalBuffer => 4,
            SkillName::OverclockedFire => 5,
            SkillName::MiniBlackHole => 6,
            SkillName::TimeFreezeMastery => 7,
            SkillName::PulseDisruptor => 8,
            SkillName::OverdriveCalibration => 9,
            SkillName::TemporalSurge => 10,
            SkillName::EnergyOverflow => 11,
            SkillName::Singularity => 12,
            SkillName::MatrixMode => 13,
        }
    }

    pub fn max_points(&self) -> (r: u8)
        ensures
            r == self.spec_max_points(),
    {
        match self {
            SkillName::BulletStorm
            | SkillName::PlasmaCannon
            | SkillName::GuardianAngel
            | SkillName::FortressMode
            | SkillName::ExtraStorage
            | SkillName::JackpotParty
            | SkillName::GoldenTouch
            | SkillName::Singularity
            | SkillName::MatrixMode => 1,
            SkillName::PiercingShots
            | SkillName::ExplosivePayload
            | SkillName::TargetingSystem
            | SkillName::ShieldCore
            | SkillName::ReactiveArmor
            | SkillName::PhaseTraining
            | SkillName::KineticShielding
            | SkillName::ComboHunter
            | SkillName::TreasureRadar
            | SkillName::TimeFreezeMastery
            | SkillName::PulseDisruptor
            | SkillName::EnergyOverflow => 3,
            SkillName::RapidFire
            | SkillName::SharpenedProjectiles
            | SkillName::PowerCapacitors
            | SkillName::FocusedAim
            | SkillName::ExpandedAmmo
            | SkillName::TwinCannons
            | SkillName::HighVelocityRounds
            | SkillName::CriticalStrikes
            | SkillName::OverpressureCoolant
            | SkillName::ReinforcedHull
            | SkillName::EvasiveManeuvers
            | SkillName::ImpactFrame
            | SkillName::ImpactDampeners
            | SkillName::EnergyEfficiency
            | SkillName::EmergencyRepair
            | SkillName::AdaptivePlating
            | SkillName::FortifiedField
            | SkillName::MagneticField
            | SkillName::LuckyFind
            | SkillName::QuickGrab
            | SkillName::GoldenInsight
            | SkillName::TreasureHoarder
            | SkillName::PointBooster
            | SkillName::LongerTreasures
            | SkillName::TreasureInstinct
            | SkillName::LuckyJackpot
            | SkillName::EngineBoost
            | SkillName::ChronoTraining
            | SkillName::OptimizedBattery
            | SkillName::EmpRounds
            | SkillName::TemporalBuffer
            | SkillName::OverclockedFire
            | SkillName::MiniBlackHole
            | SkillName::OverdriveCalibration
            | SkillName::TemporalSurge => 5,
        }
    }

    pub fn tier(&self) -> (r: u8)
        ensures
            r == self.spec_tier(),
            1 <= r <= 5,
    {
        let s = self.slot();
        if s >= 12 {
            5
        } else {
            (s / 3 + 1) as u8
        }
    }
}

/// The skill at position `slot` of a tree's catalogue.
pub fn skill_at(tree: SkillTreeType, slot: usize) -> (r: SkillName)
    requires
        slot < SKILLS_PER_TREE,
    ensures
        r == spec_skill_at(tree, slot as int),
{
    match tree {
        SkillTreeType::Combat => match slot {
            0 => SkillName::RapidFire,
            1 => SkillName::SharpenedProjectiles,
            2 => SkillName::PowerCapacitors,
            3 => SkillName::PiercingShots,
            4 => SkillName::FocusedAim,
            5 => SkillName::ExpandedAmmo,
            6 => SkillName::ExplosivePayload,
            7 => SkillName::TwinCannons,
            8 => SkillName::HighVelocityRounds,
            9 => SkillName::TargetingSystem,
            10 => SkillName::CriticalStrikes,
            11 => SkillName::OverpressureCoolant,
            12 => SkillName::BulletStorm,
            _ => SkillName::PlasmaCannon,
        },
        SkillTreeType::Survival => match slot {
            0 => SkillName::ReinforcedHull,
            1 => SkillName::EvasiveManeuvers,
            2 => SkillName::ImpactFrame,
            3 => SkillName::ImpactDampeners,
            4 => SkillName::ShieldCore,
            5 => SkillName::EnergyEfficiency,
            6 => SkillName::ReactiveArmor,
            7 => SkillName::EmergencyRepair,
            8 => SkillName::AdaptivePlating,
            9 => SkillName::PhaseTraining,
            10 => SkillName::FortifiedField,
            11 => SkillName::KineticShielding,
            12 => SkillName::GuardianAngel,
            _ => SkillName::FortressMode,
        },
        SkillTreeType::Treasure => match slot {
            0 => SkillName::MagneticField,
            1 => SkillName::LuckyFind,
            2 => SkillName::QuickGrab,
            3 => SkillName::GoldenInsight,
            4 => SkillName::TreasureHoarder,
            5 => SkillName::PointBooster,
            6 => SkillName::LongerTreasures,
            7 => SkillName::ComboHunter,
            8 => SkillName::TreasureInstinct,
            9 => SkillName::TreasureRadar,
            10 => SkillName::LuckyJackpot,
            11 => SkillName::ExtraStorage,
            12 => SkillName::JackpotParty,
            _ => SkillName::GoldenTouch,
        },
        SkillTreeType::Tech => match slot {
            0 => SkillName::EngineBoost,
            1 => SkillName::ChronoTraining,
            2 => SkillName::OptimizedBattery,
            3 => SkillName::EmpRounds,
            4 => SkillName::TemporalBuffer,
            5 => SkillName::OverclockedFire,
            6 => SkillName::MiniBlackHole,
            7 => SkillName::TimeFreezeMastery,
            8 => SkillName::PulseDisruptor,
            9 => SkillName::OverdriveCalibration,
            10 => SkillName::TemporalSurge,
            11 => SkillName::EnergyOverflow,
            12 => SkillName::Singularity,
            _ => SkillName::MatrixMode,
        },
    }
}

/// The catalogue text of a skill: what it does, and what each point adds.
pub open spec fn skill_texts(s: SkillName) -> (Seq<char>, Seq<char>) {
    match s {
        SkillName::RapidFire => ("Reduces shooting cooldown"@, "-3% cooldown per point"@),
        SkillName::SharpenedProjectiles => ("Increases bullet damage"@, "+4% damage per point"@),
        SkillName::PowerCapacitors => ("Faster reload speed"@, "+2% reload speed per point"@),
        SkillName::PiercingShots => ("Bullets pierce through enemies"@, "+1 enemy pierced per point"@),
        SkillName::FocusedAim => ("Bullets travel faster"@, "+5% bullet speed per point"@),
        SkillName::ExpandedAmmo => ("Larger bullet hitbox"@, "+10% hitbox size per point"@),
        SkillName::ExplosivePayload => ("Bullets deal area damage"@, "10% AoE damage per point"@),
        SkillName::TwinCannons => ("Chance to fire double shots"@, "+5% double shot chance per point"@),
        SkillName::HighVelocityRounds => ("Bullets ignore enemy armor"@, "-5% enemy damage reduction per point"@),
        SkillName::TargetingSystem => ("Bullets slightly home towards enemies"@, "+5% homing angle per point"@),
        SkillName::CriticalStrikes => ("Chance for critical hits"@, "+2% crit chance per point"@),
        SkillName::OverpressureCoolant => ("More damage but slower firing"@, "+2% damage, +1% cooldown per point"@),
        SkillName::BulletStorm => ("Active: 3 seconds of continuous fire"@, "Ultimate ability"@),
        SkillName::PlasmaCannon => ("Active: Chargeable mega shot"@, "Ultimate ability"@),
        SkillName::ReinforcedHull => ("Increases maximum health"@, "+0.4 HP per point"@),
        SkillName::EvasiveManeuvers => ("Increases movement speed"@, "+3% speed per point"@),
        SkillName::ImpactFrame => ("Reduces knockback effects"@, "+5% knockback resistance per point"@),
        SkillName::ImpactDampeners => ("Reduces damage from debris"@, "-3% debris damage per point"@),
        SkillName::ShieldCore => ("Shield items last longer"@, "+1s shield duration per point"@),
        SkillName::EnergyEfficiency => ("Reduces item cooldowns"@, "-2% item cooldowns per point"@),
        SkillName::ReactiveArmor => ("Periodically ignore damage"@, "-4s between immunity per point"@),
        SkillName::EmergencyRepair => ("Passive health regeneration"@, "+0.1 HP per 10s per point"@),
        SkillName::AdaptivePlating => ("Damage reduction builds up over time"@, "-3% damage per 3s without hits per point"@),
        SkillName::PhaseTraining => ("Phase shift items last longer"@, "+1.5s phase duration per point"@),
        SkillName::FortifiedField => ("Additional damage reduction"@, "-3% damage per point"@),
        SkillName::KineticShielding => ("Speed boost when taking damage"@, "+30% speed for 2s per point"@),
        SkillName::GuardianAngel => ("Survive one fatal hit per run"@, "Ultimate ability"@),
        SkillName::FortressMode => ("Active: 2s invulnerability"@, "Ultimate ability"@),
        SkillName::MagneticField => ("Increases magnet radius"@, "+6% magnet radius per point"@),
        SkillName::LuckyFind => ("Items spawn more frequently"@, "+3% item spawn chance per point"@),
        SkillName::QuickGrab => ("Items move faster towards player"@, "+5% item movement speed per point"@),
        SkillName::GoldenInsight => ("Increases score gained"@, "+4% score per point"@),
        SkillName::TreasureHoarder => ("Items stay on ground longer"@, "+2s item lifetime per point"@),
        SkillName::PointBooster => ("Increases score multiplier"@, "+0.1 score multiplier per point"@),
        SkillName::LongerTreasures => ("Item effects last longer"@, "+5% effect duration per point"@),
        SkillName::ComboHunter => ("Bonus score for quick pickups"@, "+5% combo bonus per point"@),
        SkillName::TreasureInstinct => ("Items spawn when enemies die"@, "+2% death drop chance per point"@),
        SkillName::TreasureRadar => ("Items spawn closer to player"@, "+5% close spawn chance per point"@),
        SkillName::LuckyJackpot => ("Chance for super items"@, "+2% super item chance per point"@),
        SkillName::ExtraStorage => ("Can have one additional active item"@, "+1 item slot"@),
        SkillName::JackpotParty => ("Active: 10s triple score and double items"@, "Ultimate ability"@),
        SkillName::GoldenTouch => ("Every 10th pickup gives bonus points"@, "Ultimate ability"@),
        SkillName::EngineBoost => ("Speed boost items are more effective"@, "+6% speed boost effect per point"@),
        SkillName::ChronoTraining => ("Slow motion lasts longer"@, "+0.4s slow motion per point"@),
        SkillName::OptimizedBattery => ("All items last longer"@, "+2% item duration per point"@),
        SkillName::EmpRounds => ("Bullets can slow enemies"@, "+3% slow chance per point"@),
        SkillName::TemporalBuffer => ("Move slower but items last longer"@, "-1% speed, +5% item duration per point"@),
        SkillName::OverclockedFire => ("Increased firing rate"@, "+4% fire rate per point"@),
        SkillName::MiniBlackHole => ("Periodic gravitational pull"@, "-6s between pulls per point"@),
        SkillName::TimeFreezeMastery => ("Time freeze lasts longer"@, "+1s freeze duration per point"@),
        SkillName::PulseDisruptor => ("Periodically stops all bullets"@, "0.5s bullet stop every 20s per point"@),
        SkillName::OverdriveCalibration => ("Reduces overdrive hitbox penalty"@, "-10% hitbox penalty per point"@),
        SkillName::TemporalSurge => ("Item pickups slow the game"@, "-5% game speed for 2s per point"@),
        SkillName::EnergyOverflow => ("Pickups extend active effects"@, "+5% extension per point"@),
        SkillName::Singularity => ("Active: 5s black hole pulls enemies"@, "Ultimate ability"@),
        SkillName::MatrixMode => ("Active: Everything slows except player"@, "Ultimate ability"@),
    }
}

/// A catalogue entry.
#[derive(Clone, Debug)]
pub struct Skill {
    pub name: SkillName,
    pub max_points: u8,
    pub tier: u8,
    pub description: String,
    pub per_point_effect: String,
}

fn entry(name: SkillName, description: &str, per_point_effect: &str) -> (r: Skill)
    ensures
        r.name == name,
        r.max_points == name.spec_max_points(),
        r.tier == name.spec_tier(),
        r.description@ == description@,
        r.per_point_effect@ == per_point_effect@,
{
    Skill {
        name,
        max_points: name.max_points(),
        tier: name.tier(),
        description: description.to_owned(),
        per_point_effect: per_point_effect.to_owned(),
    }
}

impl SkillTree {
    /// The catalogue of a tree, in the order of its slots.
    pub fn get_skills_for_tree(tree_type: &SkillTreeType) -> (r: Vec<Skill>)
        ensures
            r@.len() == SKILLS_PER_TREE,
            forall|i: int|
                0 <= i < SKILLS_PER_TREE ==> {
                    &&& (#[trigger] r@[i]).name == spec_skill_at(*tree_type, i)
                    &&& r@[i].max_points == r@[i].name.spec_max_points()
                    &&& r@[i].tier == r@[i].name.spec_tier()
                    &&& (r@[i].description@, r@[i].per_point_effect@) == skill_texts(r@[i].name)
                },
    {
        match tree_type {
            SkillTreeType::Combat => vec![
                entry(
                    SkillName::RapidFire,
                    "Reduces shooting cooldown",
                    "-3% cooldown per point",
                ),
                entry(
                    SkillName::SharpenedProjectiles,
                    "Increases bullet damage",
                    "+4% damage per point",
                ),
                entry(
                    SkillName::PowerCapacitors,
                    "Faster reload speed",
                    "+2% reload speed per point",
                ),
                entry(
                    SkillName::PiercingShots,
                    "Bullets pierce through enemies",
                    "+1 enemy pierced per point",
                ),
                entry(
                    SkillName::FocusedAim,
                    "Bullets travel faster",
                    "+5% bullet speed per point",
                ),
                entry(
                    SkillName::ExpandedAmmo,
                    "Larger bullet hitbox",
                    "+10% hitbox size per point",
                ),
                entry(
                    SkillName::ExplosivePayload,
                    "Bullets deal area damage",
                    "10% AoE damage per point",
                ),
                entry(
                    SkillName::TwinCannons,
                    "Chance to fire double shots",
                    "+5% double shot chance per point",
                ),
                entry(
                    SkillName::HighVelocityRounds,
                    "Bullets ignore enemy armor",
                    "-5% enemy damage reduction per point",
                ),
                entry(
                    SkillName::TargetingSystem,
                    "Bullets slightly home towards enemies",
                    "+5% homing angle per point",
                ),
                entry(
                    SkillName::CriticalStrikes,
                    "Chance for critical hits",
                    "+2% crit chance per point",
                ),
                entry(
                    SkillName::OverpressureCoolant,
                    "More damage but slower firing",
                    "+2% damage, +1% cooldown per point",
                ),
                entry(
                    SkillName::BulletStorm,
                    "Active: 3 seconds of continuous fire",
                    "Ultimate ability",
                ),
                entry(
                    SkillName::PlasmaCannon,
                    "Active: Chargeable mega shot",
                    "Ultimate ability",
                ),
            ],
            SkillTreeType::Survival => vec![
                entry(
                    SkillName::ReinforcedHull,
                    "Increases maximum health",
                    "+0.4 HP per point",
                ),
                entry(
                    SkillName::EvasiveManeuvers,
                    "Increases movement speed",
                    "+3% speed per point",
                ),
                entry(
                    SkillName::ImpactFrame,
                    "Reduces knockback effects",
                    "+5% knockback resistance per point",
                ),
                entry(
                    SkillName::ImpactDampeners,
                    "Reduces damage from debris",
                    "-3% debris damage per point",
                ),
                entry(
                    SkillName::ShieldCore,
                    "Shield items last longer",
                    "+1s shield duration per point",
                ),
                entry(
                    SkillName::EnergyEfficiency,
                    "Reduces item cooldowns",
                    "-2% item cooldowns per point",
                ),
                entry(
                    SkillName::ReactiveArmor,
                    "Periodically ignore damage",
                    "-4s between immunity per point",
                ),
                entry(
                    SkillName::EmergencyRepair,
                    "Passive health regeneration",
                    "+0.1 HP per 10s per point",
                ),
                entry(
                    SkillName::AdaptivePlating,
                    "Damage reduction builds up over time",
                    "-3% damage per 3s without hits per point",
                ),
                entry(
                    SkillName::PhaseTraining,
                    "Phase shift items last longer",
                    "+1.5s phase duration per point",
                ),
                entry(
                    SkillName::FortifiedField,
                    "Additional damage reduction",
                    "-3% damage per point",
                ),
                entry(
                    SkillName::KineticShielding,
                    "Speed boost when taking damage",
                    "+30% speed for 2s per point",
                ),
                entry(
                    SkillName::GuardianAngel,
                    "Survive one fatal hit per run",
                    "Ultimate ability",
                ),
                entry(
                    SkillName::FortressMode,
                    "Active: 2s invulnerability",
                    "Ultimate ability",
                ),
            ],
            SkillTreeType::Treasure => vec![
                entry(
                    SkillName::MagneticField,
                    "Increases magnet radius",
                    "+6% magnet radius per point",
                ),
                entry(
                    SkillName::LuckyFind,
                    "Items spawn more frequently",
                    "+3% item spawn chance per point",
                ),
                entry(
                    SkillName::QuickGrab,
                    "Items move faster towards player",
                    "+5% item movement speed per point",
                ),
                entry(
                    SkillName::GoldenInsight,
                    "Increases score gained",
                    "+4% score per point",
                ),
                entry(
                    SkillName::TreasureHoarder,
                    "Items stay on ground longer",
                    "+2s item lifetime per point",
                ),
                entry(
                    SkillName::PointBooster,
                    "Increases score multiplier",
                    "+0.1 score multiplier per point",
                ),
                entry(
                    SkillName::LongerTreasures,
                    "Item effects last longer",
                    "+5% effect duration per point",
                ),
                entry(
                    SkillName::ComboHunter,
                    "Bonus score for quick pickups",
                    "+5% combo bonus per point",
                ),
                entry(
                    SkillName::TreasureInstinct,
                    "Items spawn when enemies die",
                    "+2% death drop chance per point",
                ),
                entry(
                    SkillName::TreasureRadar,
                    "Items spawn closer to player",
                    "+5% close spawn chance per point",
                ),
                entry(
                    SkillName::LuckyJackpot,
                    "Chance for super items",
                    "+2% super item chance per point",
                ),
                entry(
                    SkillName::ExtraStorage,
                    "Can have one additional active item",
                    "+1 item slot",
                ),
                entry(
                    SkillName::JackpotParty,
                    "Active: 10s triple score and double items",
                    "Ultimate ability",
                ),
                entry(
                    SkillName::GoldenTouch,
                    "Every 10th pickup gives bonus points",
                    "Ultimate ability",
                ),
            ],
            SkillTreeType::Tech => vec![
                entry(
                    SkillName::EngineBoost,
                    "Speed boost items are more effective",
                    "+6% speed boost effect per point",
                ),
                entry(
                    SkillName::ChronoTraining,
                    "Slow motion lasts longer",
                    "+0.4s slow motion per point",
                ),
                entry(
                    SkillName::OptimizedBattery,
                    "All items last longer",
                    "+2% item duration per point",
                ),
                entry(
                    SkillName::EmpRounds,
                    "Bullets can slow enemies",
                    "+3% slow chance per point",
                ),
                entry(
                    SkillName::TemporalBuffer,
                    "Move slower but items last longer",
                    "-1% speed, +5% item duration per point",
                ),
                entry(
                    SkillName::OverclockedFire,
                    "Increased firing rate",
                    "+4% fire rate per point",
                ),
                entry(
                    SkillName::MiniBlackHole,
                    "Periodic gravitational pull",
                    "-6s between pulls per point",
                ),
                entry(
                    SkillName::TimeFreezeMastery,
                    "Time freeze lasts longer",
                    "+1s freeze duration per point",
                ),
                entry(
                    SkillName::PulseDisruptor,
                    "Periodically stops all bullets",
                    "0.5s bullet stop every 20s per point",
                ),
                entry(
                    SkillName::OverdriveCalibration,
                    "Reduces overdrive hitbox penalty",
                    "-10% hitbox penalty per point",
                ),
                entry(
                    SkillName::TemporalSurge,
                    "Item pickups slow the game",
                    "-5% game speed for 2s per point",
                ),
                entry(
                    SkillName::EnergyOverflow,
                    "Pickups extend active effects",
                    "+5% extension per point",
                ),
                entry(
                    SkillName::Singularity,
                    "Active: 5s black hole pulls enemies",
                    "Ultimate ability",
                ),
                entry(
                    SkillName::MatrixMode,
                    "Active: Everything slows except player",
                    "Ultimate ability",
                ),
            ],
        }
    }
}
/// Sum of a sequence of point counts.
pub open spec fn points_sum(s: Seq<u8>) -> int
    decreases s.len(),
{
    if s.len() == 0 {
        0
    } else {
        points_sum(s.drop_last()) + s.last()
    }
}

proof fn lemma_points_sum_update(s: Seq<u8>, i: int, v: u8)
    requires
        0 <= i < s.len(),
    ensures
        points_sum(s.update(i, v)) == points_sum(s) - s[i] + v,
    decreases s.len(),
{
    if i == s.len() - 1 {
        assert(s.update(i, v).drop_last() =~= s.drop_last());
    } else {
        lemma_points_sum_update(s.drop_last(), i, v);
        assert(s.update(i, v).drop_last() =~= s.drop_last().update(i, v));
    }
}

proof fn lemma_points_sum_bound(s: Seq<u8>)
    requires
        forall|i: int| 0 <= i < s.len() ==> s[i] <= 5,
    ensures
        0 <= points_sum(s) <= 5 * s.len(),
    decreases s.len(),
{
    if s.len() > 0 {
        lemma_points_sum_bound(s.drop_last());
    }
}

/// One category's allocation: points per catalogue slot, the running total
/// and the chosen ultimate.
#[derive(Clone, Debug)]
pub struct SkillTree {
    pub tree_type: SkillTreeType,
    pub allocated_points: Vec<u8>,
    pub total_points_spent: u8,
    pub selected_ultimate: Option<SkillName>,
}

impl SkillTree {
    /// Points allocated to `skill` in this tree (zero for a skill of another tree).
    pub open spec fn points_of(&self, skill: SkillName) -> int {
        if skill.spec_tree() == self.tree_type && 0 <= skill.spec_slot() < self.allocated_points@.len() {
            self.allocated_points@[skill.spec_slot()] as int
        } else {
            0
        }
    }

    pub open spec fn wf(&self) -> bool {
        &&& self.allocated_points@.len() == SKILLS_PER_TREE
        &&& forall|i: int|
            0 <= i < SKILLS_PER_TREE ==> #[trigger] self.allocated_points@[i]
                <= spec_skill_at(self.tree_type, i).spec_max_points()
        &&& self.total_points_spent == points_sum(self.allocated_points@)
        &&& match self.selected_ultimate {
            None => self.allocated_points@[12] == 0 && self.allocated_points@[13] == 0,
            Some(u) => {
                &&& u.spec_tree() == self.tree_type
                &&& u.spec_tier() == 5
                &&& self.allocated_points@[u.spec_slot()] == 1
                &&& self.allocated_points@[if u.spec_slot() == 12 { 13int } else { 12 }] == 0
            },
        }
    }

    /// The allocation rule: the skill belongs to this tree, is below its
    /// maximum, the tree holds enough points for its tier, and an ultimate
    /// also needs 20 points and no ultimate chosen yet.
    pub open spec fn can_allocate_spec(&self, skill: SkillName) -> bool {
        &&& skill.spec_tree() == self.tree_type
        &&& self.points_of(skill) < skill.spec_max_points()
        &&& self.total_points_spent >= tier_threshold(skill.spec_tier())
        &&& skill.spec_tier() == 5 ==> self.total_points_spent >= 20
            && self.selected_ultimate.is_none()
    }

    pub fn new(tree_type: SkillTreeType) -> (r: Self)
        ensures
            r.wf(),
            r.tree_type == tree_type,
            r.total_points_spent == 0,
            r.selected_ultimate.is_none(),
            forall|s: SkillName| r.points_of(s) == 0,
    {
        let allocated_points: Vec<u8> = vec![0u8; SKILLS_PER_TREE];
        proof {
            assert forall|k: int| 0 <= k <= SKILLS_PER_TREE implies points_sum(
                allocated_points@.take(k),
            ) == 0 by {
                lemma_zero_prefix_sum(allocated_points@, k);
            }
            assert(allocated_points@.take(14) =~= allocated_points@);
        }
        SkillTree { tree_type, allocated_points, total_points_spent: 0, selected_ultimate: None }
    }

    pub fn can_allocate_point(&self, skill_name: &SkillName) -> (r: bool)
        requires
            self.wf(),
        ensures
            r == self.can_allocate_spec(*skill_name),
    {
        if skill_name.tree() != self.tree_type {
            return false;
        }
        let slot = skill_name.slot();
        let tier = skill_name.tier();
        if self.allocated_points[slot] >= skill_name.max_points() {
            return false;
        }
        let required_points: u8 = (tier - 1) * 5;
        if self.total_points_spent < required_points {
            return false;
        }
        if tier == 5 {
            if self.total_points_spent < 20 || self.selected_ultimate.is_some() {
                return false;
            }
        }
        true
    }

    /// Puts one point into `skill_name` when the allocation rule allows it;
    /// otherwise leaves the tree unchanged.
    pub fn allocate_point(&mut self, skill_name: SkillName) -> (r: bool)
        requires
            old(self).wf(),
        ensures
            final(self).wf(),
            r == old(self).can_allocate_spec(skill_name),
            !r ==> *final(self) == *old(self),
            r ==> {
                &&& final(self).tree_type == old(self).tree_type
                &&& final(self).total_points_spent == old(self).total_points_spent + 1
                &&& final(self).points_of(skill_name) == old(self).points_of(skill_name) + 1
                &&& forall|s: SkillName|
                    s != skill_name ==> #[trigger] final(self).points_of(s) == old(self).points_of(s)
                &&& final(self).selected_ultimate == if skill_name.spec_tier() == 5 {
                    Some(skill_name)
                } else {
                    old(self).selected_ultimate
                }
            },
            old(self).selected_ultimate.is_some() ==> final(self).selected_ultimate == old(
                self,
            ).selected_ultimate,
    {
        if !self.can_allocate_point(&skill_name) {
            return false;
        }
        let slot = skill_name.slot();
        let current = self.allocated_points[slot];
        proof {
            lemma_catalog_slot(skill_name);
            lemma_points_sum_update(self.allocated_points@, slot as int, (current + 1) as u8);
            lemma_points_sum_bound(self.allocated_points@);
        }
        self.allocated_points.set(slot, current + 1);
        self.total_points_spent = self.total_points_spent + 1;
        if skill_name.tier() == 5 {
            self.selected_ultimate = Some(skill_name);
        }
        proof {
            assert forall|s: SkillName| s != skill_name implies #[trigger] self.points_of(s)
                == old(self).points_of(s) by {
                lemma_catalog_slot(s);
                lemma_catalog_slot(skill_name);
            }
        }
        true
    }
}

proof fn lemma_zero_prefix_sum(s: Seq<u8>, k: int)
    requires
        0 <= k <= s.len(),
        forall|i: int| 0 <= i < s.len() ==> s[i] == 0,
    ensures
        points_sum(s.take(k)) == 0,
    decreases k,
{
    if k > 0 {
        lemma_zero_prefix_sum(s, k - 1);
        assert(s.take(k).drop_last() =~= s.take(k - 1));
    }
}

/// The catalogue is consistent: a skill sits at its own slot of its own tree.
pub proof fn lemma_catalog_slot(s: SkillName)
    ensures
        0 <= s.spec_slot() < SKILLS_PER_TREE,
        spec_skill_at(s.spec_tree(), s.spec_slot()) == s,
        s.spec_max_points() <= 5,
        s.spec_tier() == 5 <==> s.spec_slot() >= 12,
{
}

/// Out of tier order: while a tree holds fewer points than a skill's tier
/// asks for, a point for that skill is refused (and `allocate_point` then
/// leaves the tree, its total included, as it was).
pub proof fn lemma_tier_order_enforced(t: SkillTree, s: SkillName)
    requires
        t.wf(),
        t.total_points_spent < tier_threshold(s.spec_tier()),
    ensures
        !t.can_allocate_spec(s),
{
}

/// One ultimate per tree: once an ultimate is chosen, every point for a
/// tier-five skill of that tree is refused; `allocate_point` keeps the
/// choice, so this holds for the rest of the tree's life.
pub proof fn lemma_single_ultimate(t: SkillTree, s: SkillName)
    requires
        t.wf(),
        t.selected_ultimate.is_some(),
        s.spec_tier() == 5,
    ensures
        !t.can_allocate_spec(s),
{
}

/// Skill points that a score is worth: one per 1000 points, none for a
/// score below 1000.
pub open spec fn points_from_score(score: i32) -> int {
    if score <= 0 {
        0
    } else {
        score as int / 1000
    }
}

/// Points earned in total once `highscore` has been counted: the points it
/// is worth, or what was earned before if that is more.
pub open spec fn earned_after(earned: int, highscore: i32) -> int {
    if points_from_score(highscore) > earned {
        points_from_score(highscore)
    } else {
        earned
    }
}

/// Owner of the four trees and of the pool of unspent points.
#[derive(Debug)]
pub struct SkillTreeManager {
    pub combat: SkillTree,
    pub survival: SkillTree,
    pub treasure: SkillTree,
    pub tech: SkillTree,
    pub available_skill_points: u32,
    pub total_skill_points_earned: u32,
    pub active_tab: SkillTreeType,
}

impl SkillTreeManager {
    pub open spec fn tree_spec(&self, t: SkillTreeType) -> SkillTree {
        match t {
            SkillTreeType::Combat => self.combat,
            SkillTreeType::Survival => self.survival,
            SkillTreeType::Treasure => self.treasure,
            SkillTreeType::Tech => self.tech,
        }
    }

    /// Points spent over all four trees.
    pub open spec fn total_spent(&self) -> int {
        self.combat.total_points_spent + self.survival.total_points_spent
            + self.treasure.total_points_spent + self.tech.total_points_spent
    }

    pub open spec fn wf(&self) -> bool {
        &&& forall|t: SkillTreeType|
            #![trigger self.tree_spec(t)]
            self.tree_spec(t).wf() && self.tree_spec(t).tree_type == t
        &&& self.total_skill_points_earned == self.available_skill_points + self.total_spent()
    }

    pub fn new() -> (r: Self)
        ensures
            r.wf(),
            r.available_skill_points == 0,
            r.total_skill_points_earned == 0,
            r.active_tab == SkillTreeType::Combat,
            forall|t: SkillTreeType, s: SkillName| #[trigger] r.tree_spec(t).points_of(s) == 0,
            forall|t: SkillTreeType| #[trigger] r.tree_spec(t).selected_ultimate.is_none(),
    {
        SkillTreeManager {
            combat: SkillTree::new(SkillTreeType::Combat),
            survival: SkillTree::new(SkillTreeType::Survival),
            treasure: SkillTree::new(SkillTreeType::Treasure),
            tech: SkillTree::new(SkillTreeType::Tech),
            available_skill_points: 0,
            total_skill_points_earned: 0,
            active_tab: SkillTreeType::Combat,
        }
    }

    /// The tree of category `t`.
    pub fn tree(&self, t: SkillTreeType) -> (r: &SkillTree)
        ensures
            *r == self.tree_spec(t),
    {
        match t {
            SkillTreeType::Combat => &self.combat,
            SkillTreeType::Survival => &self.survival,
            SkillTreeType::Treasure => &self.treasure,
            SkillTreeType::Tech => &self.tech,
        }
    }

    pub fn earn_skill_point(&mut self)
        requires
            old(self).wf(),
            old(self).total_skill_points_earned < u32::MAX,
        ensures
            final(self).wf(),
            final(self).available_skill_points == old(self).available_skill_points + 1,
            final(self).total_skill_points_earned == old(self).total_skill_points_earned + 1,
            forall|t: SkillTreeType| #[trigger] final(self).tree_spec(t) == old(self).tree_spec(t),
            final(self).active_tab == old(self).active_tab,
    {
        self.available_skill_points = self.available_skill_points + 1;
        self.total_skill_points_earned = self.total_skill_points_earned + 1;
        proof {
            assert forall|t: SkillTreeType|
                #![trigger self.tree_spec(t)]
                self.tree_spec(t).wf() && self.tree_spec(t).tree_type == t by {
                assert(old(self).tree_spec(t).wf());
            }
        }
    }

    /// Spends one unspent point on `skill_name` in the tree of the active tab.
    pub fn spend_skill_point(&mut self, skill_name: SkillName) -> (r: bool)
        requires
            old(self).wf(),
        ensures
            final(self).wf(),
            r == (old(self).available_skill_points > 0 && old(self).tree_spec(
                old(self).active_tab,
            ).can_allocate_spec(skill_name)),
            !r ==> *final(self) == *old(self),
            r ==> final(self).available_skill_points == old(self).available_skill_points - 1,
            final(self).total_skill_points_earned == old(self).total_skill_points_earned,
            final(self).active_tab == old(self).active_tab,
            forall|t: SkillTreeType|
                t != old(self).active_tab ==> #[trigger] final(self).tree_spec(t) == old(
                    self,
                ).tree_spec(t),
            r ==> {
                let before = old(self).tree_spec(old(self).active_tab);
                let after = final(self).tree_spec(old(self).active_tab);
                &&& after.total_points_spent == before.total_points_spent + 1
                &&& after.points_of(skill_name) == before.points_of(skill_name) + 1
                &&& forall|s: SkillName|
                    s != skill_name ==> #[trigger] after.points_of(s) == before.points_of(s)
            },
    {
        if self.available_skill_points == 0 {
            return false;
        }
        proof {
            assert(self.tree_spec(SkillTreeType::Combat).wf());
            assert(self.tree_spec(SkillTreeType::Survival).wf());
            assert(self.tree_spec(SkillTreeType::Treasure).wf());
            assert(self.tree_spec(SkillTreeType::Tech).wf());
        }
        let done = match self.active_tab {
            SkillTreeType::Combat => self.combat.allocate_point(skill_name),
            SkillTreeType::Survival => self.survival.allocate_point(skill_name),
            SkillTreeType::Treasure => self.treasure.allocate_point(skill_name),
            SkillTreeType::Tech => self.tech.allocate_point(skill_name),
        };
        if done {
            self.available_skill_points = self.available_skill_points - 1;
        }
        proof {
            assert forall|t: SkillTreeType|
                #![trigger self.tree_spec(t)]
                self.tree_spec(t).wf() && self.tree_spec(t).tree_type == t by {
                assert(old(self).tree_spec(t).wf());
            }
        }
        done
    }

    /// Skill points that `score` is worth.
    pub fn calculate_skill_points_from_score(score: i32) -> (r: u32)
        ensures
            r == points_from_score(score),
    {
        if score <= 0 {
            0
        } else {
            (score / 1000) as u32
        }
    }

    /// Grants the points that `highscore` is worth and that were not granted
    /// before.
    pub fn award_points_for_highscore(&mut self, highscore: i32)
        requires
            old(self).wf(),
        ensures
            final(self).wf(),
            final(self).total_skill_points_earned == earned_after(
                old(self).total_skill_points_earned as int,
                highscore,
            ),
            final(self).available_skill_points == old(self).available_skill_points + (
            final(self).total_skill_points_earned - old(self).total_skill_points_earned),
            forall|t: SkillTreeType| #[trigger] final(self).tree_spec(t) == old(self).tree_spec(t),
            final(self).active_tab == old(self).active_tab,
    {
        let earned = Self::calculate_skill_points_from_score(highscore);
        if earned > self.total_skill_points_earned {
            let new_points = earned - self.total_skill_points_earned;
            self.available_skill_points = self.available_skill_points + new_points;
            self.total_skill_points_earned = earned;
        }
        proof {
            assert forall|t: SkillTreeType|
                #![trigger self.tree_spec(t)]
                self.tree_spec(t).wf() && self.tree_spec(t).tree_type == t by {
                assert(old(self).tree_spec(t).wf());
            }
        }
    }
}

/// Points come from the best score only: counting one highscore and then
/// another leaves as many points earned as the better of the two is worth,
/// never their sum.
pub proof fn lemma_points_granted_once(h1: i32, h2: i32)
    ensures
        earned_after(earned_after(0, h1), h2) == if points_from_score(h1) > points_from_score(h2) {
            points_from_score(h1)
        } else {
            points_from_score(h2)
        },
{
}

} // verus!
