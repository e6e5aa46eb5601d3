use gtrust::items::ItemType;
use gtrust::player::{FrameInput, Player, ShotRolls};
use gtrust::bullet::Bullet;
use gtrust::skill_tree::{SkillName, SkillTreeManager, SkillTreeType};

const W: u64 = 1_920_000;
const H: u64 = 1_080_000;

fn effect_time(p: &Player, k: ItemType) -> Option<u64> {
    p.active_effects.iter().find(|e| e.effect_type == k).map(|e| e.remaining_time)
}

#[test]
fn fresh_player() {
    let p = Player::new(W, H);
    assert_eq!(p.hp, 3000);
    assert_eq!(p.x, 960_000);
    assert_eq!(p.y, 972_000);
    assert_eq!(p.base_size, 32_400);
    assert_eq!(p.current.size, 32_400);
    assert!(!p.is_destroyed());
    assert_eq!(p.get_pickup_radius(), 48_600);
}

#[test]
fn different_overrides_coexist() {
    let mut p = Player::new(W, H);
    p.apply_item_effect(ItemType::Shield);
    p.apply_item_effect(ItemType::Magnet);
    p.recompute_frame_overrides();
    assert_eq!(p.current.damage_reduction, 500);
    assert_eq!(p.current.magnet_range, 162_000);
    assert!(p.current.magnet_range > 0);
    assert!(!p.current.can_phase_through);
}

#[test]
fn repeated_pickup_resets_duration() {
    let mut p = Player::new(W, H);
    p.apply_item_effect(ItemType::Shield);
    assert_eq!(effect_time(&p, ItemType::Shield), Some(5_000_000));
    p.update_effects(3_000_000);
    assert_eq!(effect_time(&p, ItemType::Shield), Some(2_000_000));
    p.apply_item_effect(ItemType::Shield);
    assert_eq!(effect_time(&p, ItemType::Shield), Some(5_000_000));
    assert_eq!(p.active_effects.len(), 1);
    p.update_effects(1);
    assert_eq!(effect_time(&p, ItemType::Shield), Some(4_999_999));
}

#[test]
fn effects_expire() {
    let mut p = Player::new(W, H);
    p.apply_item_effect(ItemType::PhaseShift);
    p.update_effects(1_000_000);
    assert!(p.current.can_phase_through);
    p.update_effects(2_000_000);
    assert!(!p.has_effect(&ItemType::PhaseShift));
    assert!(!p.current.can_phase_through);
}

#[test]
fn black_hole_grants_no_timed_effect() {
    let mut p = Player::new(W, H);
    p.apply_item_effect(ItemType::BlackHole);
    assert!(p.active_effects.is_empty());
}

#[test]
fn score_effects_combine() {
    let mut p = Player::new(W, H);
    p.apply_item_effect(ItemType::DoublePoints);
    p.apply_item_effect(ItemType::Overdrive);
    p.apply_item_effect(ItemType::SpeedBoost);
    p.recompute_frame_overrides();
    assert_eq!(p.current.points_multiplier, 6000);
    assert_eq!(p.current.speed_multiplier, 2000);
    assert_eq!(p.current.max_shoot_cooldown, 150_000);
    assert_eq!(p.current.size, 48_600);
}

#[test]
fn energy_overflow_extends_effects() {
    let mut p = Player::new(W, H);
    p.stats.energy_overflow_bonus = 100;
    p.apply_item_effect(ItemType::Magnet);
    p.on_item_pickup();
    assert_eq!(p.pickup_count, 1);
    assert_eq!(effect_time(&p, ItemType::Magnet), Some(8_800_000));
}

#[test]
fn three_hits_destroy_a_fresh_player() {
    let mut p = Player::new(W, H);
    assert!(!p.take_damage(1000, 1_000_000));
    assert!(!p.take_damage(1000, 2_000_000));
    assert!(p.take_damage(1000, 3_000_000));
    assert!(p.hp <= 0);
    assert!(p.is_destroyed());
}

#[test]
fn immunity_registers_damage_once() {
    let mut p = Player::new(W, H);
    p.stats.immunity_interval = 8_000_000;
    p.last_immunity_time = 0;
    assert!(!p.take_damage(1000, 10_000_000));
    assert_eq!(p.hp, 2000);
    assert!(!p.take_damage(1000, 11_000_000));
    assert_eq!(p.hp, 2000);
    assert!(!p.take_damage(1000, 18_000_000));
    assert_eq!(p.hp, 1000);
}

#[test]
fn reductions_apply_in_order() {
    let mut p = Player::new(W, H);
    p.apply_item_effect(ItemType::Shield);
    p.recompute_frame_overrides();
    p.stats.debris_damage_reduction = 100;
    p.adaptive_armor_stacks = 2;
    p.stats.adaptive_armor_rate = 50;
    p.take_damage(1000, 1_000_000);
    assert_eq!(p.hp, 3000 - 405);
    assert_eq!(p.adaptive_armor_stacks, 0);
}

#[test]
fn skill_timers() {
    let mut p = Player::new(W, H);
    p.stats.health_regen_rate = 50;
    p.stats.adaptive_armor_rate = 30;
    p.hp = 1000;
    p.update_skill_effects(3_000_000, 3_000_000);
    assert_eq!(p.hp, 1050);
    assert_eq!(p.adaptive_armor_stacks, 1);
    assert_eq!(p.adaptive_armor_timer, 0);
    p.update_skill_effects(500_000, 3_500_000);
    assert_eq!(p.hp, 1050);
    assert_eq!(p.adaptive_armor_timer, 500_000);
}

#[test]
fn firing_and_moving() {
    let mut p = Player::new(W, H);
    let mut bullets: Vec<Bullet> = Vec::new();
    let input = FrameInput { move_up: false, move_down: false, move_left: true, move_right: false, fire: true };
    let rolls = ShotRolls { double_roll: 1000, crit_roll_first: 1000, crit_roll_left: 1000, crit_roll_right: 1000 };
    assert!(p.update(input, 100_000, 100_000, W, H, &mut bullets, rolls));
    assert_eq!(bullets.len(), 1);
    assert_eq!(bullets[0].velocity_y, -1_080_000);
    assert_eq!(bullets[0].damage, 2500);
    assert_eq!(p.shoot_cooldown, 400_000);
    assert_eq!(p.x, 960_000 - 48_000);
    assert_eq!(p.facing_x, -1000);
    assert!(!p.update(input, 100_000, 200_000, W, H, &mut bullets, rolls));
    assert_eq!(bullets.len(), 1);
}

#[test]
fn double_shot_fires_three() {
    let mut p = Player::new(W, H);
    p.stats.double_shot_chance = 250;
    p.stats.crit_chance = 100;
    let mut bullets: Vec<Bullet> = Vec::new();
    let input = FrameInput { move_up: false, move_down: false, move_left: false, move_right: false, fire: true };
    let rolls = ShotRolls { double_roll: 100, crit_roll_first: 50, crit_roll_left: 500, crit_roll_right: 99 };
    assert!(p.update(input, 10_000, 10_000, W, H, &mut bullets, rolls));
    assert_eq!(bullets.len(), 3);
    assert!(bullets[0].is_critical);
    assert_eq!(bullets[0].damage, 5000);
    assert!(!bullets[1].is_critical);
    assert!(bullets[2].is_critical);
    assert!(bullets[1].velocity_x < 0 && bullets[2].velocity_x > 0);
}

#[test]
fn hull_upgrade_raises_hit_points() {
    let mut m = SkillTreeManager::new();
    m.active_tab = SkillTreeType::Survival;
    m.earn_skill_point();
    m.earn_skill_point();
    assert!(m.spend_skill_point(SkillName::ReinforcedHull));
    assert!(m.spend_skill_point(SkillName::ReinforcedHull));
    let mut p = Player::new(W, H);
    p.apply_skill_tree(&m);
    assert_eq!(p.stats.max_hp, 4800);
    assert_eq!(p.hp, 4800);
    assert_eq!(p.get_position(), (960_000, 972_000));
}

#[test]
fn shield_overrides_permanent_reduction() {
    let mut p = Player::new(W, H);
    p.stats.damage_reduction = 150;
    p.recompute_frame_overrides();
    assert_eq!(p.current.damage_reduction, 150);
    p.apply_item_effect(ItemType::Shield);
    p.recompute_frame_overrides();
    assert_eq!(p.current.damage_reduction, 500);
    p.stats.overdrive_hitbox_reduction = 500;
    p.apply_item_effect(ItemType::Overdrive);
    p.recompute_frame_overrides();
    assert_eq!(p.current.size, 24_300);
}
