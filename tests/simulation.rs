use gtrust::debris::{Debris, DebrisRolls};
use gtrust::items::{ItemManager, ItemRolls, ItemType};
use gtrust::player::{FrameInput, Player, ShotRolls};
use gtrust::random::draw_frame_rolls;
use gtrust::savegame::{load_unlocked_skills, unlock_skill, update_highscore, update_settings, GameSettings, SaveData};
use gtrust::simulation::{difficulty_step, FloatingText, FrameRolls, Simulation, INITIAL_SPAWN_RATE, MIN_SPAWN_RATE};
use gtrust::skill_tree::SkillTreeManager;

const W: u64 = 1_920_000;
const H: u64 = 1_080_000;

fn debris_at(x: i64, y: i64, hp: i64) -> Debris {
    Debris {
        x,
        y,
        size: 10_000,
        velocity_x: 0,
        velocity_y: 0,
        hp,
        max_hp: 1000,
        damage: 1000,
        rotation: 0,
        rotation_speed: 0,
        debris_type: 1,
        color_variant: 0,
        speed_multiplier: 1000,
    }
}

fn plain_sim() -> Simulation {
    let mut sim = Simulation::new(W, H, &SkillTreeManager::new());
    sim.player = Player::new(W, H);
    sim
}

fn quiet_rolls() -> FrameRolls {
    FrameRolls {
        shot: ShotRolls { double_roll: 1000, crit_roll_first: 1000, crit_roll_left: 1000, crit_roll_right: 1000 },
        debris: DebrisRolls {
            size_roll: 500,
            side_roll: 0,
            edge_roll: 500,
            angle_roll: 500,
            speed_roll: 500,
            rotation_roll: 0,
            spin_roll: 500,
            type_roll: 0,
            color_roll: 0,
        },
        item: ItemRolls { kind_roll: 0, x_roll: 500, y_roll: 500 },
    }
}

#[test]
fn spawn_rate_decays_every_ten_seconds() {
    let (mut timer, mut rate) = (0u64, INITIAL_SPAWN_RATE);
    for _ in 0..9 {
        let r = difficulty_step(timer, rate, 1_000_000);
        timer = r.0;
        rate = r.1;
        assert_eq!(rate, 1_000_000);
    }
    let r = difficulty_step(timer, rate, 1_000_000);
    assert_eq!(r, (0, 900_000));
    let (mut timer, mut rate) = r;
    for _ in 0..200 {
        let r = difficulty_step(timer, rate, 1_000_000);
        timer = r.0;
        rate = r.1;
    }
    assert_eq!(rate, MIN_SPAWN_RATE);
}

#[test]
fn destroyed_debris_scores_with_explosion_and_popup() {
    let mut sim = plain_sim();
    sim.debris.push(debris_at(100_000, 100_000, 0));
    sim.debris.push(debris_at(200_000, 100_000, 500));
    sim.retire_destroyed();
    assert_eq!(sim.score, 50);
    assert_eq!(sim.explosions.len(), 1);
    assert_eq!(sim.floating_texts.len(), 1);
    assert_eq!(sim.floating_texts[0].points, 50);
    assert_eq!(sim.debris.len(), 1);
    sim.player.current.points_multiplier = 2000;
    sim.debris[0].hp = -5;
    sim.retire_destroyed();
    assert_eq!(sim.score, 150);
    assert_eq!(sim.explosions.len(), 2);
}

#[test]
fn passed_debris_scores_without_explosion() {
    let mut sim = plain_sim();
    sim.debris.push(debris_at(-1_000_000, 0, 1000));
    sim.retire_off_screen();
    assert_eq!(sim.score, 10);
    assert!(sim.explosions.is_empty());
    assert!(sim.floating_texts.is_empty());
    assert!(sim.debris.is_empty());
    sim.player.current.points_multiplier = 2000;
    sim.debris.push(debris_at(0, 5_000_000, 1000));
    sim.retire_off_screen();
    assert_eq!(sim.score, 30);
    assert!(sim.explosions.is_empty());
    assert_eq!(sim.floating_texts.len(), 1);
    assert_eq!(sim.floating_texts[0].multiplier, 2);
}

#[test]
fn debris_touching_player_hits_it() {
    let mut sim = plain_sim();
    let (px, py) = (sim.player.x, sim.player.y);
    sim.debris.push(debris_at(px, py, 1000));
    sim.debris.push(debris_at(0, 0, 1000));
    assert!(!sim.resolve_player_contacts());
    assert_eq!(sim.player.hp, 2000);
    assert_eq!(sim.debris.len(), 1);
    sim.player.apply_item_effect(ItemType::PhaseShift);
    sim.player.recompute_frame_overrides();
    sim.debris.push(debris_at(px, py, 1000));
    assert!(!sim.resolve_player_contacts());
    assert_eq!(sim.player.hp, 2000);
    assert_eq!(sim.debris.len(), 2);
}

#[test]
fn debris_spawns_when_due() {
    let mut sim = plain_sim();
    assert!(!sim.spawn_debris_if_due(1_000_000, quiet_rolls().debris));
    assert!(sim.spawn_debris_if_due(1, quiet_rolls().debris));
    assert_eq!(sim.debris.len(), 1);
    assert_eq!(sim.spawn_timer, 0);
    sim.player.apply_item_effect(ItemType::TimeFreeze);
    assert!(!sim.spawn_debris_if_due(2_000_000, quiet_rolls().debris));
    assert!(sim.spawn_debris_if_due(1_000_001, quiet_rolls().debris));
}

#[test]
fn a_frame_runs_in_order() {
    let mut sim = plain_sim();
    let input = FrameInput { move_up: false, move_down: false, move_left: false, move_right: false, fire: true };
    assert!(!sim.step(input, 16_000, quiet_rolls()));
    assert_eq!(sim.bullets.len(), 1);
    assert_eq!(sim.difficulty_timer, 16_000);
    assert_eq!(sim.time, 16_000);
    assert_eq!(sim.spawn_rate, INITIAL_SPAWN_RATE);
    for _ in 0..100 {
        if sim.step_random(input, 16_000) {
            break;
        }
    }
    assert!(sim.time > 16_000);
}

#[test]
fn popups_age_and_die() {
    let mut t = FloatingText::new(0, 0, 50);
    t.update(1_000_000);
    assert_eq!(t.y, -50_000);
    assert!(!t.is_dead());
    t.update(1_000_000);
    assert!(t.is_dead());
    let b = FloatingText::new_with_text(0, 0, 20, 2);
    assert_eq!(b.lifetime, 2_500_000);
}

#[test]
fn items_spawn_expire_and_are_collected() {
    let mut m = ItemManager::new();
    let rolls = ItemRolls { kind_roll: 10, x_roll: 0, y_roll: 1000 };
    assert!(!m.update(2_000_000, 2_000_000, rolls, W, H));
    assert!(m.update(1_000_000, 3_000_000, rolls, W, H));
    assert_eq!(m.get_items().len(), 1);
    let it = m.get_items()[0];
    assert_eq!(it.item_type, ItemType::SpeedBoost);
    assert_eq!(it.x, 50_000);
    assert_eq!(it.y, 1_030_000);
    let mut p = Player::new(W, H);
    p.x = 60_000;
    p.y = 1_030_000;
    let got = m.check_pickups(&p);
    assert_eq!(got, vec![ItemType::SpeedBoost]);
    assert!(m.get_items().is_empty());
    m.update(3_000_000, 6_000_000, rolls, W, H);
    assert_eq!(m.get_items().len(), 1);
    m.update(0, 14_000_000, rolls, W, H);
    assert!(m.get_items().is_empty());
    m.remove_item(3);
}

#[test]
fn random_draws_stay_in_range_and_vary() {
    let mut seen = std::collections::HashSet::new();
    for _ in 0..200 {
        let r = draw_frame_rolls();
        assert!(r.shot.double_roll <= 1000);
        assert!(r.debris.side_roll < 4);
        assert!(r.item.kind_roll < 9);
        assert!(r.debris.size_roll <= 1000);
        seen.insert(r.debris.size_roll);
    }
    assert!(seen.len() > 10);
}

#[test]
fn save_data_updates() {
    let mut data = SaveData::default();
    assert_eq!(data.highscore, 0);
    assert_eq!(data.settings, GameSettings { music_volume: 700, sound_volume: 800 });
    update_highscore(&mut data, 4200);
    assert_eq!(data.highscore, 4200);
    update_settings(&mut data, GameSettings { music_volume: 100, sound_volume: 0 });
    assert_eq!(data.settings.music_volume, 100);
    assert!(unlock_skill(&mut data, "RapidFire"));
    assert!(!unlock_skill(&mut data, "RapidFire"));
    assert!(unlock_skill(&mut data, "MatrixMode"));
    assert_eq!(load_unlocked_skills(&data), vec!["RapidFire".to_string(), "MatrixMode".to_string()]);
    assert_eq!(data.highscore, 4200);
}

#[test]
fn random_draws_reach_every_side_and_kind() {
    let mut sides = [false; 4];
    let mut kinds = [false; 9];
    for _ in 0..5000 {
        let r = draw_frame_rolls();
        sides[r.debris.side_roll as usize] = true;
        kinds[r.item.kind_roll as usize] = true;
        assert!(r.debris.edge_roll <= 1000);
    }
    assert!(sides.iter().all(|s| *s));
    assert!(kinds.iter().all(|k| *k));
}

#[test]
fn spawned_debris_is_the_rolled_one() {
    let mut sim = plain_sim();
    let rolls = quiet_rolls().debris;
    assert!(sim.spawn_debris_if_due(1_000_001, rolls));
    assert_eq!(sim.debris[0], Debris::new(W, H, rolls));
}

#[test]
fn fresh_run_carries_tree_bonuses() {
    let sim = Simulation::new(W, H, &SkillTreeManager::new());
    assert_eq!(sim.player.stats.max_hp, 4000);
    assert_eq!(sim.player.hp, 4000);
    assert_eq!(sim.player.x, 960_000);
    assert_eq!(sim.player.y, 972_000);
}

#[test]
fn long_frame_is_capped_at_a_second() {
    let mut sim = plain_sim();
    let input = FrameInput { move_up: false, move_down: false, move_left: false, move_right: false, fire: false };
    assert!(!sim.step(input, 5_000_000, quiet_rolls()));
    assert_eq!(sim.time, 1_000_000);
    assert_eq!(sim.difficulty_timer, 1_000_000);
}
