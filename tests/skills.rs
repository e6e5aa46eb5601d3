use gtrust::skill_tree::{SkillName, SkillTree, SkillTreeManager, SkillTreeType};
use gtrust::stats::StatBlock;

fn fill(tree: &mut SkillTree, skill: SkillName, points: u32) {
    for _ in 0..points {
        assert!(tree.allocate_point(skill));
    }
}

#[test]
fn out_of_tier_order_allocation_fails() {
    let mut tree = SkillTree::new(SkillTreeType::Combat);
    assert!(!tree.allocate_point(SkillName::PiercingShots));
    assert!(!tree.allocate_point(SkillName::CriticalStrikes));
    assert!(!tree.allocate_point(SkillName::BulletStorm));
    assert_eq!(tree.total_points_spent, 0);
    fill(&mut tree, SkillName::RapidFire, 4);
    assert!(!tree.can_allocate_point(&SkillName::PiercingShots));
    assert!(!tree.allocate_point(SkillName::PiercingShots));
    assert_eq!(tree.total_points_spent, 4);
}

#[test]
fn tier_opens_after_five_points() {
    let mut tree = SkillTree::new(SkillTreeType::Combat);
    fill(&mut tree, SkillName::RapidFire, 5);
    assert!(!tree.allocate_point(SkillName::RapidFire));
    assert!(tree.allocate_point(SkillName::PiercingShots));
    assert_eq!(tree.total_points_spent, 6);
    assert_eq!(tree.allocated_points[SkillName::PiercingShots.slot()], 1);
}

#[test]
fn skill_of_another_tree_is_refused() {
    let mut tree = SkillTree::new(SkillTreeType::Survival);
    assert!(!tree.allocate_point(SkillName::RapidFire));
    assert!(tree.allocate_point(SkillName::ReinforcedHull));
}

#[test]
fn one_ultimate_per_tree() {
    let mut tree = SkillTree::new(SkillTreeType::Combat);
    fill(&mut tree, SkillName::RapidFire, 5);
    fill(&mut tree, SkillName::SharpenedProjectiles, 5);
    fill(&mut tree, SkillName::PowerCapacitors, 5);
    assert!(tree.can_allocate_point(&SkillName::CriticalStrikes));
    assert!(!tree.can_allocate_point(&SkillName::BulletStorm));
    fill(&mut tree, SkillName::FocusedAim, 5);
    assert_eq!(tree.total_points_spent, 20);
    assert!(tree.allocate_point(SkillName::BulletStorm));
    assert_eq!(tree.selected_ultimate, Some(SkillName::BulletStorm));
    assert!(!tree.allocate_point(SkillName::PlasmaCannon));
    assert!(!tree.allocate_point(SkillName::BulletStorm));
    fill(&mut tree, SkillName::ExpandedAmmo, 5);
    assert!(!tree.allocate_point(SkillName::PlasmaCannon));
    assert_eq!(tree.selected_ultimate, Some(SkillName::BulletStorm));
    assert_eq!(tree.total_points_spent, 26);
}

#[test]
fn catalogue_of_each_tree() {
    let combat = SkillTree::get_skills_for_tree(&SkillTreeType::Combat);
    assert_eq!(combat.len(), 14);
    assert_eq!(combat[0].name, SkillName::RapidFire);
    assert_eq!(combat[0].tier, 1);
    assert_eq!(combat[0].max_points, 5);
    assert_eq!(combat[3].name, SkillName::PiercingShots);
    assert_eq!(combat[3].max_points, 3);
    assert_eq!(combat[13].name, SkillName::PlasmaCannon);
    assert_eq!(combat[13].tier, 5);
    let treasure = SkillTree::get_skills_for_tree(&SkillTreeType::Treasure);
    assert_eq!(treasure[11].name, SkillName::ExtraStorage);
    assert_eq!(treasure[11].max_points, 1);
    assert_eq!(treasure[11].tier, 4);
    assert_eq!(treasure[11].description, "Can have one additional active item");
}

#[test]
fn points_from_score() {
    assert_eq!(SkillTreeManager::calculate_skill_points_from_score(0), 0);
    assert_eq!(SkillTreeManager::calculate_skill_points_from_score(999), 0);
    assert_eq!(SkillTreeManager::calculate_skill_points_from_score(1000), 1);
    assert_eq!(SkillTreeManager::calculate_skill_points_from_score(2500), 2);
    assert_eq!(SkillTreeManager::calculate_skill_points_from_score(-5000), 0);
}

#[test]
fn highscore_points_are_granted_incrementally() {
    let mut m = SkillTreeManager::new();
    m.award_points_for_highscore(2500);
    assert_eq!(m.available_skill_points, 2);
    assert_eq!(m.total_skill_points_earned, 2);
    m.award_points_for_highscore(3100);
    assert_eq!(m.available_skill_points, 3);
    assert_eq!(m.total_skill_points_earned, 3);
    m.award_points_for_highscore(3100);
    assert_eq!(m.available_skill_points, 3);
    m.award_points_for_highscore(1200);
    assert_eq!(m.total_skill_points_earned, 3);
}

#[test]
fn spending_needs_an_available_point() {
    let mut m = SkillTreeManager::new();
    assert!(!m.spend_skill_point(SkillName::RapidFire));
    m.earn_skill_point();
    assert!(!m.spend_skill_point(SkillName::ReinforcedHull));
    assert!(m.spend_skill_point(SkillName::RapidFire));
    assert_eq!(m.available_skill_points, 0);
    assert_eq!(m.total_skill_points_earned, 1);
    assert_eq!(m.tree(SkillTreeType::Combat).total_points_spent, 1);
    assert!(!m.spend_skill_point(SkillName::RapidFire));
}

#[test]
fn apply_pass_is_idempotent() {
    let mut m = SkillTreeManager::new();
    for _ in 0..10 {
        m.earn_skill_point();
    }
    for _ in 0..5 {
        assert!(m.spend_skill_point(SkillName::SharpenedProjectiles));
    }
    for _ in 0..3 {
        assert!(m.spend_skill_point(SkillName::PiercingShots));
    }
    let mut a = StatBlock::new();
    let mut b = StatBlock::new();
    m.apply_to_player(&mut a);
    m.apply_to_player(&mut b);
    assert_eq!(a, b);
    assert_eq!(a.bullet_pierce_count, 3);
}

#[test]
fn tree_bonuses_apply_without_points() {
    let m = SkillTreeManager::new();
    let mut s = StatBlock::new();
    m.apply_to_player(&mut s);
    assert_eq!(s.speed_multiplier, 1102);
    assert_eq!(s.bullet_speed_multiplier, 1100);
    assert_eq!(s.damage_multiplier, 1050);
    assert_eq!(s.max_hp, 4000);
    assert_eq!(s.points_multiplier, 1100);
    assert_eq!(s.item_effect_duration_multiplier, 1050);
}

#[test]
fn skill_formulas_apply_once_for_all_points() {
    let mut m = SkillTreeManager::new();
    for _ in 0..3 {
        m.earn_skill_point();
    }
    for _ in 0..3 {
        assert!(m.spend_skill_point(SkillName::SharpenedProjectiles));
    }
    let mut s = StatBlock::new();
    m.apply_to_player(&mut s);
    assert_eq!(s.damage_multiplier, 1176);
}

#[test]
fn single_skill_formulas() {
    let mut s = StatBlock::new();
    gtrust::stats::apply_skill_effect(&mut s, SkillName::ReactiveArmor, 1);
    assert_eq!(s.immunity_interval, 8_000_000);
    gtrust::stats::apply_skill_effect(&mut s, SkillName::RapidFire, 5);
    assert_eq!(s.base_shoot_cooldown, 425_000);
    gtrust::stats::apply_skill_effect(&mut s, SkillName::PointBooster, 2);
    assert_eq!(s.points_multiplier, 1200);
    gtrust::stats::apply_skill_effect(&mut s, SkillName::ExtraStorage, 1);
    assert_eq!(s.max_active_items, 2);
    let before = s;
    gtrust::stats::apply_skill_effect(&mut s, SkillName::Singularity, 1);
    assert_eq!(s, before);
}
