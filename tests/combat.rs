use gtrust::bullet::Bullet;
use gtrust::debris::{Debris, DebrisRolls};
use gtrust::stats::StatBlock;

fn debris_at(x: i64, y: i64, size: u64, hp: i64) -> Debris {
    Debris {
        x,
        y,
        size,
        velocity_x: 0,
        velocity_y: 0,
        hp,
        max_hp: hp,
        damage: 1000,
        rotation: 0,
        rotation_speed: 0,
        debris_type: 0,
        color_variant: 0,
        speed_multiplier: 1000,
    }
}

fn bullet_at(x: i64, y: i64) -> Bullet {
    let mut b = Bullet::new(x, y, 0, -1000, 1_920_000, 1_080_000);
    b.size = 1000;
    b
}

#[test]
fn pierce_budget_over_three_frames() {
    let mut b = bullet_at(0, 0);
    b.pierce_count = 2;
    b.remaining_pierces = 2;
    let mut bullets = vec![b];
    for frame in 0..3 {
        let mut debris = vec![debris_at(0, 0, 1000, 100_000)];
        Bullet::handle_collisions(&mut bullets, &mut debris);
        assert_eq!(debris[0].hp, 100_000 - 2500);
        if frame < 2 {
            assert_eq!(bullets.len(), 1);
            assert_eq!(bullets[0].remaining_pierces, 1 - frame as u8);
        } else {
            assert!(bullets.is_empty());
        }
    }
}

#[test]
fn only_first_overlapping_debris_is_hit() {
    let mut bullets = vec![bullet_at(0, 0)];
    let mut debris = vec![debris_at(500, 0, 1000, 10_000), debris_at(0, 0, 1000, 10_000)];
    Bullet::handle_collisions(&mut bullets, &mut debris);
    assert_eq!(debris[0].hp, 7500);
    assert_eq!(debris[1].hp, 10_000);
    assert!(bullets.is_empty());
}

#[test]
fn miss_keeps_bullet() {
    let mut bullets = vec![bullet_at(0, 0)];
    let mut debris = vec![debris_at(2000, 0, 1000, 10_000)];
    Bullet::handle_collisions(&mut bullets, &mut debris);
    assert_eq!(bullets.len(), 1);
    assert_eq!(debris[0].hp, 10_000);
}

#[test]
fn splash_falls_off_with_distance() {
    let mut b = bullet_at(0, 0);
    b.explosion_damage = 500;
    let mut bullets = vec![b];
    let mut debris = vec![
        debris_at(0, 0, 1000, 10_000),
        debris_at(3000, 0, 100, 10_000),
        debris_at(5000, 0, 100, 10_000),
    ];
    Bullet::handle_collisions(&mut bullets, &mut debris);
    assert_eq!(debris[0].hp, 10_000 - 2500 - 1250);
    assert_eq!(debris[1].hp, 10_000 - 312);
    assert_eq!(debris[2].hp, 10_000);
}

#[test]
fn armor_penetration_raises_direct_damage() {
    let mut b = bullet_at(0, 0);
    b.armor_penetration = 500;
    let mut bullets = vec![b];
    let mut debris = vec![debris_at(0, 0, 1000, 10_000)];
    Bullet::handle_collisions(&mut bullets, &mut debris);
    assert_eq!(debris[0].hp, 6250);
}

#[test]
fn bullet_from_stats() {
    let mut s = StatBlock::new();
    s.damage_multiplier = 1200;
    s.bullet_speed_multiplier = 1500;
    s.bullet_pierce_count = 2;
    s.crit_chance = 300;
    let b = Bullet::new_with_player_skills(0, 0, 1000, 0, 1_920_000, 1_080_000, &s, 299);
    assert!(b.is_critical);
    assert_eq!(b.damage, 6000);
    assert_eq!(b.speed, 1_620_000);
    assert_eq!(b.velocity_x, 1_620_000);
    assert_eq!(b.velocity_y, 0);
    assert_eq!(b.remaining_pierces, 2);
    let c = Bullet::new_with_player_skills(0, 0, 1000, 0, 1_920_000, 1_080_000, &s, 300);
    assert!(!c.is_critical);
    assert_eq!(c.damage, 3000);
}

#[test]
fn bullet_moves_and_ages() {
    let mut b = Bullet::new(0, 0, 1000, 0, 1_920_000, 1_080_000);
    b.update(&Vec::new(), 500_000);
    assert_eq!(b.x, 540_000);
    assert_eq!(b.lifetime, 500_000);
    assert!(!b.is_off_screen(1_920_000, 1_080_000));
    b.lifetime = 5_000_001;
    assert!(b.is_off_screen(1_920_000, 1_080_000));
}

#[test]
fn homing_steers_toward_nearest() {
    let mut b = Bullet::new(0, 0, 1000, 0, 1_920_000, 1_080_000);
    b.homing_strength = 200;
    let debris = vec![debris_at(0, 500_000, 1000, 1000), debris_at(0, 100_000, 1000, 1000)];
    b.update(&debris, 100_000);
    assert_eq!(b.velocity_x, 1_080_000 - 108_000);
    assert_eq!(b.velocity_y, 108_000);
}

#[test]
fn debris_damage_and_bounds() {
    let mut d = debris_at(0, 0, 1000, 2000);
    assert!(!d.take_damage(1500));
    assert!(d.take_damage(500));
    assert!(d.is_destroyed());
    let far = debris_at(-3000, 0, 1000, 1000);
    assert!(far.is_off_screen(1_920_000, 1_080_000));
    let near = debris_at(-2000, 0, 1000, 1000);
    assert!(!near.is_off_screen(1_920_000, 1_080_000));
}

#[test]
fn debris_spawn_from_rolls() {
    let rolls = DebrisRolls {
        size_roll: 0,
        side_roll: 0,
        edge_roll: 0,
        angle_roll: 0,
        speed_roll: 0,
        rotation_roll: 0,
        spin_roll: 1000,
        type_roll: 6,
        color_roll: 300,
    };
    let d = Debris::new(1_920_000, 1_080_000, rolls);
    assert_eq!(d.size, 21_600);
    assert_eq!(d.max_hp, 2000);
    assert_eq!(d.hp, 2000);
    assert_eq!(d.x, 0);
    assert_eq!(d.y, -21_600);
    assert_eq!(d.velocity_x, 63_808);
    assert_eq!(d.velocity_y, 206_500);
    assert_eq!(d.rotation_speed, 2000);
    assert_eq!(d.debris_type, 2);
    let right = Debris::new(1_920_000, 1_080_000, DebrisRolls { side_roll: 3, edge_roll: 500, angle_roll: 500, ..rolls });
    assert_eq!(right.x, 1_920_000 + 21_600);
    assert_eq!(right.y, 540_000);
    assert_eq!(right.velocity_x, -216_000);
    assert_eq!(right.velocity_y, 0);
}

#[test]
fn debris_moves_at_its_speed_multiplier() {
    let mut d = debris_at(0, 0, 1000, 1000);
    d.velocity_x = 100_000;
    d.speed_multiplier = 300;
    d.update(1_000_000);
    assert_eq!(d.x, 30_000);
    d.speed_multiplier = 0;
    d.update(1_000_000);
    assert_eq!(d.x, 30_000);
}

#[test]
fn homing_tie_goes_to_first_debris() {
    let mut b = Bullet::new(0, 0, 0, -1000, 1_920_000, 1_080_000);
    b.homing_strength = 2000;
    let debris = vec![debris_at(100_000, 0, 1000, 1000), debris_at(-100_000, 0, 1000, 1000)];
    b.update(&debris, 100_000);
    assert_eq!(b.velocity_x, 1_080_000);
    assert_eq!(b.velocity_y, 0);
}
