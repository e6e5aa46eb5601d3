//! Bullets: spawning from the player's stats, homing, and the resolution of
//! their hits on debris.

use vstd::prelude::*;
use crate::fixed::{
    ONE, SECOND, CAP, COORD_LIMIT, scale, add_capped, scaled, capped_sum, signed_ratio,
    scale_direction, moved, move_coord, dist_sq, distance_squared, circles_overlap, overlap,
    int_sqrt, sqrt_floor, is_int_sqrt,
};
use crate::debris::{Debris, lowered_hp};
use crate::stats::StatBlock;

verus! {

/// Damage of a bullet without modifiers (thousandths of a hit point).
pub const BASE_BULLET_DAMAGE: u64 = 2500;

/// Time a bullet lives (microseconds).
pub const BULLET_LIFETIME: u64 = 5_000_000;

/// A projectile.
#[derive(Clone, Copy, Debug, PartialEq, Eq, Structural)]
pub struct Bullet {
    pub x: i64,
    pub y: i64,
    pub velocity_x: i64,
    pub velocity_y: i64,
    /// Radius (thousandths of a pixel).
    pub size: u64,
    /// Damage per hit (thousandths of a hit point).
    pub damage: u64,
    /// Speed (thousandths of a pixel per second).
    pub speed: u64,
    pub pierce_count: u8,
    /// Hits the bullet survives before it is spent.
    pub remaining_pierces: u8,
    /// Share of its damage dealt as splash around a hit (ratio).
    pub explosion_damage: u64,
    pub armor_penetration: u64,
    pub homing_strength: u64,
    pub is_critical: bool,
    /// Age and life span (microseconds).
    pub lifetime: u64,
    pub max_lifetime: u64,
}

impl Bullet {
    pub open spec fn wf(&self) -> bool {
        &&& -COORD_LIMIT <= self.x <= COORD_LIMIT
        &&& -COORD_LIMIT <= self.y <= COORD_LIMIT
        &&& -(CAP as int) <= self.velocity_x <= CAP
        &&& -(CAP as int) <= self.velocity_y <= CAP
        &&& self.size <= CAP
        &&& self.damage <= CAP
        &&& self.speed <= CAP
        &&& self.explosion_damage <= CAP
        &&& self.armor_penetration <= CAP
        &&& self.homing_strength <= CAP
        &&& self.lifetime <= CAP
        &&& self.max_lifetime <= CAP
    }

    /// A bullet at (`x`, `y`) flying along the direction (`dir_x`, `dir_y`)
    /// (a vector of length about `ONE`) at the height of the play area per
    /// second, with a radius of 1% of its smaller side.
    pub fn new(x: i64, y: i64, dir_x: i64, dir_y: i64, screen_w: u64, screen_h: u64) -> (r: Bullet)
        requires
            -COORD_LIMIT <= x <= COORD_LIMIT,
            -COORD_LIMIT <= y <= COORD_LIMIT,
            -(ONE as int) <= dir_x <= ONE,
            -(ONE as int) <= dir_y <= ONE,
            screen_w <= COORD_LIMIT,
            screen_h <= COORD_LIMIT,
        ensures
            r.wf(),
            r.x == x && r.y == y,
            r.speed == screen_h,
            r.velocity_x == signed_ratio(dir_x as int, screen_h as int, ONE as int),
            r.velocity_y == signed_ratio(dir_y as int, screen_h as int, ONE as int),
            r.size == scaled(if screen_w < screen_h { screen_w as int } else { screen_h as int }, 10),
            r.damage == BASE_BULLET_DAMAGE,
            r.pierce_count == 0 && r.remaining_pierces == 0,
            r.explosion_damage == 0 && r.armor_penetration == 0 && r.homing_strength == 0,
            !r.is_critical,
            r.lifetime == 0 && r.max_lifetime == BULLET_LIFETIME,
    {
        let m = if screen_w < screen_h { screen_w } else { screen_h };
        Bullet {
            x,
            y,
            velocity_x: scale_direction(screen_h, dir_x, ONE),
            velocity_y: scale_direction(screen_h, dir_y, ONE),
            size: scale(m, 10),
            damage: BASE_BULLET_DAMAGE,
            speed: screen_h,
            pierce_count: 0,
            remaining_pierces: 0,
            explosion_damage: 0,
            armor_penetration: 0,
            homing_strength: 0,
            is_critical: false,
            lifetime: 0,
            max_lifetime: BULLET_LIFETIME,
        }
    }

    /// A bullet carrying the player's modifiers, fixed for its whole life.
    /// It is critical when `crit_roll` (a draw in `0..=1000`) falls below the
    /// crit chance, and a critical bullet does double damage.
    pub fn new_with_player_skills(
        x: i64,
        y: i64,
        dir_x: i64,
        dir_y: i64,
        screen_w: u64,
        screen_h: u64,
        stats: &StatBlock,
        crit_roll: u64,
    ) -> (r: Bullet)
        requires
            -COORD_LIMIT <= x <= COORD_LIMIT,
            -COORD_LIMIT <= y <= COORD_LIMIT,
            -(ONE as int) <= dir_x <= ONE,
            -(ONE as int) <= dir_y <= ONE,
            screen_w <= COORD_LIMIT,
            screen_h <= COORD_LIMIT,
            stats.wf(),
        ensures
            r.wf(),
            r.x == x && r.y == y,
            r.is_critical == (crit_roll < stats.crit_chance),
            r.damage == if r.is_critical {
                scaled(scaled(BASE_BULLET_DAMAGE as int, stats.damage_multiplier as int), 2000)
            } else {
                scaled(BASE_BULLET_DAMAGE as int, stats.damage_multiplier as int)
            },
            r.speed == scaled(screen_h as int, stats.bullet_speed_multiplier as int),
            r.size == scaled(
                scaled(if screen_w < screen_h { screen_w as int } else { screen_h as int }, 10),
                stats.bullet_size_multiplier as int,
            ),
            r.velocity_x == signed_ratio(dir_x as int, r.speed as int, ONE as int),
            r.velocity_y == signed_ratio(dir_y as int, r.speed as int, ONE as int),
            r.pierce_count == stats.bullet_pierce_count,
            r.remaining_pierces == stats.bullet_pierce_count,
            r.explosion_damage == stats.bullet_explosion_damage,
            r.armor_penetration == stats.armor_penetration,
            r.homing_strength == stats.bullet_homing_strength,
            r.lifetime == 0 && r.max_lifetime == BULLET_LIFETIME,
            r == player_shot(x, y, dir_x, dir_y, screen_w, screen_h, *stats, crit_roll),
    {
        let mut b = Bullet::new(x, y, dir_x, dir_y, screen_w, screen_h);
        b.damage = scale(b.damage, stats.damage_multiplier);
        b.speed = scale(b.speed, stats.bullet_speed_multiplier);
        b.size = scale(b.size, stats.bullet_size_multiplier);
        b.pierce_count = stats.bullet_pierce_count;
        b.remaining_pierces = stats.bullet_pierce_count;
        b.explosion_damage = stats.bullet_explosion_damage;
        b.armor_penetration = stats.armor_penetration;
        b.homing_strength = stats.bullet_homing_strength;
        if crit_roll < stats.crit_chance {
            b.is_critical = true;
            b.damage = scale(b.damage, 2000);
        }
        b.velocity_x = scale_direction(b.speed, dir_x, ONE);
        b.velocity_y = scale_direction(b.speed, dir_y, ONE);
        b
    }

    /// Whether the bullet is too old or beyond the play area by its size.
    pub fn is_off_screen(&self, screen_w: u64, screen_h: u64) -> (r: bool)
        requires
            self.wf(),
            screen_w <= COORD_LIMIT,
            screen_h <= COORD_LIMIT,
        ensures
            r == (self.lifetime > self.max_lifetime || self.x < -self.size || self.x > screen_w
                + self.size || self.y < -self.size || self.y > screen_h + self.size),
    {
        let s = self.size as i128;
        self.lifetime > self.max_lifetime || (self.x as i128) < -s || (self.x as i128) > screen_w as i128 + s
            || (self.y as i128) < -s || (self.y as i128) > screen_h as i128 + s
    }

    pub fn collides_with(&self, debris: &Debris) -> (r: bool)
        requires
            self.wf(),
            debris.wf(),
        ensures
            r == hits(*self, *debris),
    {
        overlap(self.x, self.y, self.size, debris.x, debris.y, debris.size)
    }
}

/// The bullet overlaps the debris.
pub open spec fn hits(b: Bullet, d: Debris) -> bool {
    circles_overlap(b.x as int, b.y as int, b.size as int, d.x as int, d.y as int, d.size as int)
}

/// Index of the first debris in `d` that the bullet overlaps.
pub open spec fn first_hit(b: Bullet, d: Seq<Debris>) -> Option<int>
    decreases d.len(),
{
    if d.len() == 0 {
        None
    } else {
        match first_hit(b, d.drop_last()) {
            Some(i) => Some(i),
            None => if hits(b, d.last()) {
                Some(d.len() - 1)
            } else {
                None
            },
        }
    }
}

/// Damage of a direct hit: the bullet's damage raised by its armor
/// penetration.
pub open spec fn direct_damage(b: Bullet) -> int {
    scaled(b.damage as int, capped_sum(ONE as int, b.armor_penetration as int))
}

/// Splash damage that a hit by `b` deals to `d`: the splash share of the
/// bullet's damage, falling off linearly to zero at four times its size.
pub open spec fn splash_damage(b: Bullet, d: Debris) -> int {
    let radius = 4 * b.size;
    let dist = int_sqrt(dist_sq(d.x as int, d.y as int, b.x as int, b.y as int));
    if radius > 0 && dist <= radius {
        scaled(b.damage as int, b.explosion_damage as int) * (radius - dist) / radius
    } else {
        0
    }
}

pub open spec fn damaged_debris(d: Debris, amount: int) -> Debris {
    Debris { hp: lowered_hp(d.hp as int, amount) as i64, ..d }
}

/// Every debris of `d` after the splash of a hit by `b`.
pub open spec fn splashed(b: Bullet, d: Seq<Debris>) -> Seq<Debris> {
    d.map_values(|x: Debris| damaged_debris(x, splash_damage(b, x)))
}

/// One bullet against the debris: the bullet that goes on (if any) and the
/// debris after its hit. Only the first overlapping debris is hit; a bullet
/// with pierces left loses one and goes on, otherwise it is spent.
pub open spec fn bullet_hit(b: Bullet, d: Seq<Debris>) -> (Option<Bullet>, Seq<Debris>) {
    match first_hit(b, d) {
        None => (Some(b), d),
        Some(i) => {
            let d1 = d.update(i, damaged_debris(d[i], direct_damage(b)));
            let d2 = if b.explosion_damage > 0 {
                splashed(b, d1)
            } else {
                d1
            };
            if b.remaining_pierces > 0 {
                (Some(Bullet { remaining_pierces: (b.remaining_pierces - 1) as u8, ..b }), d2)
            } else {
                (None, d2)
            }
        },
    }
}

/// All bullets, in order, against the debris.
pub open spec fn resolve_hits(bs: Seq<Bullet>, d: Seq<Debris>) -> (Seq<Bullet>, Seq<Debris>)
    decreases bs.len(),
{
    if bs.len() == 0 {
        (bs, d)
    } else {
        let (kept, d1) = resolve_hits(bs.drop_last(), d);
        let (b, d2) = bullet_hit(bs.last(), d1);
        match b {
            Some(nb) => (kept.push(nb), d2),
            None => (kept, d2),
        }
    }
}

pub open spec fn all_debris_wf(d: Seq<Debris>) -> bool {
    forall|i: int| 0 <= i < d.len() ==> (#[trigger] d[i]).wf()
}

pub open spec fn all_bullets_wf(b: Seq<Bullet>) -> bool {
    forall|i: int| 0 <= i < b.len() ==> (#[trigger] b[i]).wf()
}

fn find_first_hit(b: &Bullet, debris: &Vec<Debris>) -> (r: Option<usize>)
    requires
        b.wf(),
        all_debris_wf(debris@),
    ensures
        r matches Some(i) ==> first_hit(*b, debris@) == Some(i as int) && i < debris@.len(),
        r is None ==> first_hit(*b, debris@) is None,
{
    let n = debris.len();
    for i in 0..n
        invariant
            n == debris@.len(),
            b.wf(),
            all_debris_wf(debris@),
            first_hit(*b, debris@.take(i as int)) is None,
    {
        proof {
            assert(debris@.take(i + 1).drop_last() =~= debris@.take(i as int));
        }
        if b.collides_with(&debris[i]) {
            proof {
                lemma_first_hit_prefix(*b, debris@, i as int + 1);
            }
            return Some(i);
        }
    }
    proof {
        assert(debris@.take(n as int) =~= debris@);
    }
    None
}

proof fn lemma_first_hit_prefix(b: Bullet, d: Seq<Debris>, k: int)
    requires
        0 < k <= d.len(),
        first_hit(b, d.take(k)) is Some,
    ensures
        first_hit(b, d) == first_hit(b, d.take(k)),
    decreases d.len() - k,
{
    if k < d.len() {
        assert(d.take(k + 1).drop_last() =~= d.take(k));
        lemma_first_hit_prefix(b, d, k + 1);
    } else {
        assert(d.take(k) =~= d);
    }
}

fn splash_damage_exec(b: &Bullet, d: &Debris) -> (r: u64)
    requires
        b.wf(),
        d.wf(),
    ensures
        r == splash_damage(*b, *d),
        r <= CAP,
{
    let radius = 4 * (b.size as u128);
    let dist = sqrt_floor(distance_squared(d.x, d.y, b.x, b.y)) as u128;
    if radius > 0 && dist <= radius {
        let base = scale(b.damage, b.explosion_damage) as u128;
        proof {
            assert(base * (radius - dist) <= base * radius) by (nonlinear_arith)
                requires
                    dist <= radius,
                    base >= 0,
            ;
            assert(base * radius <= CAP * (4 * CAP)) by (nonlinear_arith)
                requires
                    base <= CAP,
                    radius <= 4 * CAP,
            ;
            assert(base * (radius - dist) / (radius as int) <= base) by (nonlinear_arith)
                requires
                    base * (radius - dist) <= base * radius,
                    radius > 0,
            ;
        }
        (base * (radius - dist) / radius) as u64
    } else {
        0
    }
}

impl Bullet {
    /// Resolves this frame's hits: each bullet in order hits the first debris
    /// it overlaps (damage raised by armor penetration), splashes the debris
    /// around it if it is explosive, and is removed unless it has a pierce
    /// left, which it then spends.
    pub fn handle_collisions(bullets: &mut Vec<Bullet>, debris: &mut Vec<Debris>)
        requires
            all_bullets_wf(old(bullets)@),
            all_debris_wf(old(debris)@),
        ensures
            all_bullets_wf(final(bullets)@),
            all_debris_wf(final(debris)@),
            (final(bullets)@, final(debris)@) == resolve_hits(old(bullets)@, old(debris)@),
    {
        let ghost bs0 = bullets@;
        let ghost ds0 = debris@;
        let mut kept: Vec<Bullet> = Vec::new();
        let n = bullets.len();
        for k in 0..n
            invariant
                n == bullets@.len(),
                bs0 == bullets@,
                all_bullets_wf(bs0),
                all_debris_wf(debris@),
                all_bullets_wf(kept@),
                (kept@, debris@) == resolve_hits(bs0.take(k as int), ds0),
        {
            let b = bullets[k];
            proof {
                assert(bs0.take(k + 1).drop_last() =~= bs0.take(k as int));
                assert(bs0.take(k + 1).last() == b);
            }
            let ghost before = debris@;
            match find_first_hit(&b, debris) {
                None => {
                    kept.push(b);
                },
                Some(i) => {
                    let mut target = debris[i];
                    target.take_damage(scale(b.damage, add_capped(ONE, b.armor_penetration)));
                    debris.set(i, target);
                    if b.explosion_damage > 0 {
                        let ghost d1 = debris@;
                        let m = debris.len();
                        for j in 0..m
                            invariant
                                m == debris@.len(),
                                d1.len() == m,
                                b.wf(),
                                all_debris_wf(d1),
                                debris@ =~= splashed(b, d1).take(j as int) + d1.skip(j as int),
                        {
                            let mut x = debris[j];
                            proof {
                                assert(x == d1[j as int]);
                            }
                            let s = splash_damage_exec(&b, &x);
                            x.take_damage(s);
                            debris.set(j, x);
                        }
                        proof {
                            assert(debris@ =~= splashed(b, d1));
                        }
                    }
                    if b.remaining_pierces > 0 {
                        kept.push(Bullet { remaining_pierces: b.remaining_pierces - 1, ..b });
                    }
                },
            }
        }
        proof {
            assert(bs0.take(n as int) =~= bs0);
        }
        *bullets = kept;
    }
}

/// A bullet with `n` pierces left survives each of its first `n` hits and is
/// spent by the next one.
pub proof fn lemma_pierce_budget(b: Bullet, d: Seq<Debris>)
    requires
        first_hit(b, d) is Some,
    ensures
        b.remaining_pierces > 0 ==> bullet_hit(b, d).0 == Some(
            Bullet { remaining_pierces: (b.remaining_pierces - 1) as u8, ..b },
        ),
        b.remaining_pierces == 0 ==> bullet_hit(b, d).0 is None,
{
}

/// Index of the debris nearest to the bullet (the first of equals).
pub open spec fn nearest(b: Bullet, d: Seq<Debris>) -> int
    decreases d.len(),
{
    if d.len() <= 1 {
        0
    } else {
        let p = nearest(b, d.drop_last());
        if dist_sq(d.last().x as int, d.last().y as int, b.x as int, b.y as int) < dist_sq(
            d[p].x as int,
            d[p].y as int,
            b.x as int,
            b.y as int,
        ) {
            d.len() - 1
        } else {
            p
        }
    }
}

/// `a` moved toward `b` by the share `f` (a ratio of at most `ONE`) of the gap.
pub open spec fn lerp_spec(a: int, b: int, f: int) -> int {
    if b >= a {
        a + (b - a) * f / (ONE as int)
    } else {
        a - (a - b) * f / (ONE as int)
    }
}

/// Share of the gap to the homing velocity closed in `dt`: homing strength
/// times five per second, at most all of it.
pub open spec fn homing_factor(strength: u64, dt: u64) -> int {
    let f = strength * dt * 5 / (SECOND as int);
    if f > ONE as int {
        ONE as int
    } else {
        f
    }
}

/// Velocity of a homing bullet after `dt`: steered part of the way toward
/// flying straight at the nearest debris at the bullet's speed.
pub open spec fn homed_velocity(b: Bullet, d: Seq<Debris>, dt: u64) -> (int, int) {
    let t = d[nearest(b, d)];
    let dist = int_sqrt(dist_sq(t.x as int, t.y as int, b.x as int, b.y as int));
    if dist > 0 {
        let f = homing_factor(b.homing_strength, dt);
        (
            lerp_spec(b.velocity_x as int, signed_ratio(t.x - b.x, b.speed as int, dist), f),
            lerp_spec(b.velocity_y as int, signed_ratio(t.y - b.y, b.speed as int, dist), f),
        )
    } else {
        (b.velocity_x as int, b.velocity_y as int)
    }
}

fn lerp(a: i64, b: i64, f: u64) -> (r: i64)
    requires
        -(CAP as int) <= a <= CAP,
        -(CAP as int) <= b <= CAP,
        f <= ONE,
    ensures
        r == lerp_spec(a as int, b as int, f as int),
        -(CAP as int) <= r <= CAP,
{
    if b >= a {
        let gap = (b - a) as u64;
        proof {
            assert(gap * f <= gap * ONE) by (nonlinear_arith)
                requires
                    f <= ONE,
            ;
            assert(gap * f / (ONE as int) <= gap) by (nonlinear_arith)
                requires
                    gap * f <= gap * ONE,
            ;
        }
        a + (gap * f / ONE) as i64
    } else {
        let gap = (a - b) as u64;
        proof {
            assert(gap * f <= gap * ONE) by (nonlinear_arith)
                requires
                    f <= ONE,
            ;
            assert(gap * f / (ONE as int) <= gap) by (nonlinear_arith)
                requires
                    gap * f <= gap * ONE,
            ;
        }
        a - (gap * f / ONE) as i64
    }
}

proof fn lemma_component_within_root(c: int, other: int, s: int)
    requires
        is_int_sqrt(s, c * c + other * other),
    ensures
        -s <= c <= s,
{
    assert(c * c <= c * c + other * other) by (nonlinear_arith);
    if c > s {
        assert((s + 1) * (s + 1) <= c * c) by (nonlinear_arith)
            requires
                c >= s + 1,
                s >= 0,
        ;
    }
    if c < -s {
        assert((s + 1) * (s + 1) <= c * c) by (nonlinear_arith)
            requires
                -c >= s + 1,
                s >= 0,
        ;
    }
}

impl Bullet {
    fn nearest_index(&self, debris: &Vec<Debris>) -> (r: usize)
        requires
            self.wf(),
            all_debris_wf(debris@),
            debris@.len() > 0,
        ensures
            r == nearest(*self, debris@),
            r < debris@.len(),
    {
        let mut best: usize = 0;
        let mut best_d = distance_squared(debris[0].x, debris[0].y, self.x, self.y);
        let n = debris.len();
        for i in 1..n
            invariant
                n == debris@.len(),
                n > 0,
                self.wf(),
                all_debris_wf(debris@),
                best < i,
                best == nearest(*self, debris@.take(i as int)),
                best_d == dist_sq(debris@[best as int].x as int, debris@[best as int].y as int, self.x as int, self.y as int),
        {
            proof {
                assert(debris@.take(i + 1).drop_last() =~= debris@.take(i as int));
                assert(debris@.take(i as int)[best as int] == debris@[best as int]);
            }
            let di = distance_squared(debris[i].x, debris[i].y, self.x, self.y);
            if di < best_d {
                best = i;
                best_d = di;
            }
        }
        proof {
            assert(debris@.take(n as int) =~= debris@);
        }
        best
    }

    /// Steers the bullet toward the nearest debris (see `homed_velocity`).
    fn apply_homing(&mut self, debris: &Vec<Debris>, dt: u64)
        requires
            old(self).wf(),
            all_debris_wf(debris@),
            debris@.len() > 0,
            dt <= SECOND,
        ensures
            final(self).wf(),
            (final(self).velocity_x as int, final(self).velocity_y as int) == homed_velocity(
                *old(self),
                debris@,
                dt,
            ),
            *final(self) == (Bullet {
                velocity_x: final(self).velocity_x,
                velocity_y: final(self).velocity_y,
                ..*old(self)
            }),
    {
        let t = debris[self.nearest_index(debris)];
        let n = distance_squared(t.x, t.y, self.x, self.y);
        let dist = sqrt_floor(n);
        if dist > 0 {
            let dx = t.x - self.x;
            let dy = t.y - self.y;
            proof {
                assert(n == dx * dx + dy * dy);
                lemma_component_within_root(dx as int, dy as int, dist as int);
                assert(n == dy * dy + dx * dx);
                lemma_component_within_root(dy as int, dx as int, dist as int);
                assert(dist * dist <= 8 * COORD_LIMIT * COORD_LIMIT);
                assert(dist <= CAP) by (nonlinear_arith)
                    requires
                        dist * dist <= 8 * COORD_LIMIT * COORD_LIMIT,
                        dist >= 0,
                ;
            }
            let tvx = scale_direction(self.speed, dx, dist);
            let tvy = scale_direction(self.speed, dy, dist);
            proof {
                assert(self.homing_strength * dt * 5 <= CAP * SECOND * 5) by (nonlinear_arith)
                    requires
                        self.homing_strength <= CAP,
                        dt <= SECOND,
                ;
            }
            let raw = (self.homing_strength as u128) * (dt as u128) * 5 / (SECOND as u128);
            let f: u64 = if raw > ONE as u128 { ONE } else { raw as u64 };
            self.velocity_x = lerp(self.velocity_x, tvx, f);
            self.velocity_y = lerp(self.velocity_y, tvy, f);
        }
    }

    /// Ages the bullet by `dt`, steers it if it homes and debris is about,
    /// and moves it.
    pub fn update(&mut self, debris: &Vec<Debris>, dt: u64)
        requires
            old(self).wf(),
            all_debris_wf(debris@),
            dt <= SECOND,
        ensures
            final(self).wf(),
            final(self).lifetime == capped_sum(old(self).lifetime as int, dt as int),
            ({
                let (vx, vy) = if old(self).homing_strength > 0 && debris@.len() > 0 {
                    homed_velocity(*old(self), debris@, dt)
                } else {
                    (old(self).velocity_x as int, old(self).velocity_y as int)
                };
                &&& final(self).velocity_x == vx
                &&& final(self).velocity_y == vy
                &&& final(self).x == moved(old(self).x as int, vx, dt as int)
                &&& final(self).y == moved(old(self).y as int, vy, dt as int)
            }),
            *final(self) == bullet_moved(*old(self), debris@, dt),
    {
        if self.homing_strength > 0 && debris.len() > 0 {
            self.apply_homing(debris, dt);
        }
        self.lifetime = add_capped(self.lifetime, dt);
        self.x = move_coord(self.x, self.velocity_x, dt);
        self.y = move_coord(self.y, self.velocity_y, dt);
    }
}

/// The bullet that `new_with_player_skills` makes.
pub open spec fn player_shot(
    x: i64,
    y: i64,
    dir_x: i64,
    dir_y: i64,
    screen_w: u64,
    screen_h: u64,
    stats: StatBlock,
    crit_roll: u64,
) -> Bullet {
    let m = if screen_w < screen_h { screen_w as int } else { screen_h as int };
    let critical = crit_roll < stats.crit_chance;
    let base = scaled(BASE_BULLET_DAMAGE as int, stats.damage_multiplier as int);
    let speed = scaled(screen_h as int, stats.bullet_speed_multiplier as int);
    Bullet {
        x,
        y,
        velocity_x: signed_ratio(dir_x as int, speed, ONE as int) as i64,
        velocity_y: signed_ratio(dir_y as int, speed, ONE as int) as i64,
        size: scaled(scaled(m, 10), stats.bullet_size_multiplier as int) as u64,
        damage: (if critical { scaled(base, 2000) } else { base }) as u64,
        speed: speed as u64,
        pierce_count: stats.bullet_pierce_count,
        remaining_pierces: stats.bullet_pierce_count,
        explosion_damage: stats.bullet_explosion_damage,
        armor_penetration: stats.armor_penetration,
        homing_strength: stats.bullet_homing_strength,
        is_critical: critical,
        lifetime: 0,
        max_lifetime: BULLET_LIFETIME,
    }
}

/// The bullet after `update(debris, dt)`.
pub open spec fn bullet_moved(b: Bullet, d: Seq<Debris>, dt: u64) -> Bullet {
    let (vx, vy) = if b.homing_strength > 0 && d.len() > 0 {
        homed_velocity(b, d, dt)
    } else {
        (b.velocity_x as int, b.velocity_y as int)
    };
    Bullet {
        x: moved(b.x as int, vx, dt as int) as i64,
        y: moved(b.y as int, vy, dt as int) as i64,
        velocity_x: vx as i64,
        velocity_y: vy as i64,
        lifetime: capped_sum(b.lifetime as int, dt as int) as u64,
        ..b
    }
}

} // verus!
