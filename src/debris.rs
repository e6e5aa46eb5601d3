//! Debris: the obstacles that drift in from the edges of the play area.

use vstd::prelude::*;
use crate::fixed::{
    ONE, SECOND, CAP, COORD_LIMIT, scale, scaled, sqrt_floor, int_sqrt, signed_ratio, mul_div_signed,
    scale_direction, moved, move_coord, circles_overlap, overlap,
};
use crate::player::Player;

verus! {

/// Largest spin speed, in thousandths of a radian per second.
pub const MAX_SPIN: i64 = 2000;

/// A full turn, in thousandths of a radian.
pub const TURN: i64 = 6283;

/// Random draws that shape a new piece of debris; each lies in `0..=1000`
/// (a side or a visual variant is taken modulo four).
#[derive(Clone, Copy, Debug, PartialEq, Eq, Structural)]
pub struct DebrisRolls {
    pub size_roll: u32,
    pub side_roll: u32,
    pub edge_roll: u32,
    pub angle_roll: u32,
    pub speed_roll: u32,
    pub rotation_roll: u32,
    pub spin_roll: u32,
    pub type_roll: u32,
    pub color_roll: u32,
}

impl DebrisRolls {
    pub open spec fn wf(&self) -> bool {
        &&& self.size_roll <= 1000
        &&& self.edge_roll <= 1000
        &&& self.angle_roll <= 1000
        &&& self.speed_roll <= 1000
        &&& self.rotation_roll <= 1000
        &&& self.spin_roll <= 1000
        &&& self.color_roll <= 1000
    }
}

/// An obstacle.
#[derive(Clone, Copy, Debug, PartialEq, Eq, Structural)]
pub struct Debris {
    pub x: i64,
    pub y: i64,
    /// Radius (thousandths of a pixel).
    pub size: u64,
    /// Velocity (thousandths of a pixel per second).
    pub velocity_x: i64,
    pub velocity_y: i64,
    /// Hit points (thousandths of a hit point).
    pub hp: i64,
    pub max_hp: i64,
    /// Damage dealt to the player on contact (thousandths of a hit point).
    pub damage: u64,
    /// Orientation and spin (thousandths of a radian, and per second).
    pub rotation: i64,
    pub rotation_speed: i64,
    pub debris_type: u8,
    pub color_variant: u64,
    /// Share of its velocity the debris moves at (ratio); effects lower it.
    pub speed_multiplier: u64,
}

/// The debris that `rolls` describe on a `screen_w` by `screen_h` play
/// area: just outside one edge, heading inward within about 17 degrees of
/// the edge's normal. Its size lies between 2% and 6% of the smaller side,
/// its speed between 20% and 60% of it, and its hit points grow with its
/// size (one per 1% of the smaller side, at least one).
pub open spec fn spawned_debris(screen_w: u64, screen_h: u64, rolls: DebrisRolls) -> Debris {
    let m = if screen_w < screen_h { screen_w as int } else { screen_h as int };
    let unit = scaled(m, 10);
    let size = scaled(m, 20 + 40 * rolls.size_roll / 1000);
    let hp = if unit > 0 && size * 1000 / unit > 1000 { size * 1000 / unit } else { 1000 };
    let speed = scaled(m, 200 + 400 * rolls.speed_roll / 1000);
    let offset = rolls.angle_roll * 618 / 1000 - 309;
    let len = int_sqrt(1_000_000 + offset * offset);
    let side = spawn_side(rolls);
    let (dx, dy) = if side == 0 {
        (-offset, 1000int)
    } else if side == 1 {
        (offset, -1000int)
    } else if side == 2 {
        (1000int, offset)
    } else {
        (-1000int, -offset)
    };
    let (x, y) = if side == 0 {
        (rolls.edge_roll * screen_w / 1000, -size)
    } else if side == 1 {
        (rolls.edge_roll * screen_w / 1000, screen_h + size)
    } else if side == 2 {
        (-size, rolls.edge_roll * screen_h / 1000)
    } else {
        (screen_w + size, rolls.edge_roll * screen_h / 1000)
    };
    Debris {
        x: x as i64,
        y: y as i64,
        size: size as u64,
        velocity_x: signed_ratio(dx, speed, len) as i64,
        velocity_y: signed_ratio(dy, speed, len) as i64,
        hp: hp as i64,
        max_hp: hp as i64,
        damage: ONE,
        rotation: (rolls.rotation_roll * TURN / 1000) as i64,
        rotation_speed: (rolls.spin_roll * 4 - MAX_SPIN) as i64,
        debris_type: (rolls.type_roll % 4) as u8,
        color_variant: rolls.color_roll as u64,
        speed_multiplier: ONE,
    }
}

/// Orientation after turning at `spin` for `dt`, kept within a turn of zero.
pub open spec fn turned(rotation: i64, spin: i64, dt: u64) -> i64 {
    let t = rotation + signed_ratio(spin as int, dt as int, SECOND as int);
    (if t > TURN {
        t - TURN
    } else if t < -TURN {
        t + TURN
    } else {
        t
    }) as i64
}

/// The debris after moving and spinning for `dt` at its speed multiplier.
pub open spec fn debris_moved(d: Debris, dt: u64) -> Debris {
    Debris {
        x: moved(d.x as int, scaled_velocity(d.velocity_x, d.speed_multiplier), dt as int) as i64,
        y: moved(d.y as int, scaled_velocity(d.velocity_y, d.speed_multiplier), dt as int) as i64,
        rotation: turned(d.rotation, d.rotation_speed, dt),
        ..d
    }
}

/// Side the debris enters from: 0 top, 1 bottom, 2 left, 3 right.
pub open spec fn spawn_side(r: DebrisRolls) -> int {
    r.side_roll as int % 4
}

impl Debris {
    pub open spec fn wf(&self) -> bool {
        &&& -COORD_LIMIT <= self.x <= COORD_LIMIT
        &&& -COORD_LIMIT <= self.y <= COORD_LIMIT
        &&& self.size <= COORD_LIMIT
        &&& -(CAP as int) <= self.velocity_x <= CAP
        &&& -(CAP as int) <= self.velocity_y <= CAP
        &&& -(CAP as int) <= self.hp <= CAP
        &&& 0 < self.max_hp <= CAP
        &&& self.damage <= CAP
        &&& -TURN <= self.rotation <= TURN
        &&& -MAX_SPIN <= self.rotation_speed <= MAX_SPIN
        &&& self.speed_multiplier <= ONE
    }

    /// New debris (see `spawned_debris`).
    pub fn new(screen_w: u64, screen_h: u64, rolls: DebrisRolls) -> (r: Debris)
        requires
            0 < screen_w <= COORD_LIMIT / 2,
            0 < screen_h <= COORD_LIMIT / 2,
            rolls.wf(),
        ensures
            r.wf(),
            r == spawned_debris(screen_w, screen_h, rolls),
    {
        let m = if screen_w < screen_h { screen_w } else { screen_h };
        let unit = scale(m, 10);
        let size = scale(m, 20 + 40 * (rolls.size_roll as u64) / 1000);
        proof {
            let f = 20 + 40 * rolls.size_roll / 1000;
            assert(f <= 60);
            assert(m * f <= m * 60) by (nonlinear_arith)
                requires
                    f <= 60,
                    m >= 0,
            ;
            assert(m * f / 1000 <= m * 60 / 1000) by (nonlinear_arith)
                requires
                    m * f <= m * 60,
            ;
        }
        let max_hp: u64 = if unit > 0 && size * 1000 / unit > 1000 {
            proof {
                assert(size * 1000 / (unit as int) <= size * 1000) by (nonlinear_arith)
                    requires
                        unit > 0,
                        size >= 0,
                ;
            }
            size * 1000 / unit
        } else {
            1000
        };
        let speed = scale(m, 200 + 400 * (rolls.speed_roll as u64) / 1000);
        let offset: i64 = (rolls.angle_roll as i64) * 618 / 1000 - 309;
        proof {
            assert(-309 <= offset <= 309);
            assert(0 <= offset * offset <= 95_481) by (nonlinear_arith)
                requires
                    -309 <= offset <= 309,
            ;
        }
        let sq: i64 = offset * offset;
        let len = sqrt_floor((1_000_000 + sq) as u128);
        proof {
            assert(len * len <= 1_095_481);
            assert(len <= 1047) by (nonlinear_arith)
                requires len * len <= 1_095_481, len >= 0;
            assert(len >= 1000) by (nonlinear_arith)
                requires 1_000_000 < (len + 1) * (len + 1), len >= 0;
        }
        let side = rolls.side_roll % 4;
        let along: i64 = 1000;
        let (dx, dy): (i64, i64) = if side == 0 {
            (-offset, along)
        } else if side == 1 {
            (offset, -along)
        } else if side == 2 {
            (along, offset)
        } else {
            (-along, -offset)
        };
        proof {
            assert(rolls.edge_roll * screen_w <= 1000 * screen_w) by (nonlinear_arith)
                requires
                    rolls.edge_roll <= 1000,
            ;
            assert(rolls.edge_roll * screen_h <= 1000 * screen_h) by (nonlinear_arith)
                requires
                    rolls.edge_roll <= 1000,
            ;
            assert(rolls.edge_roll * screen_w / 1000 <= screen_w) by (nonlinear_arith)
                requires
                    rolls.edge_roll * screen_w <= 1000 * screen_w,
            ;
            assert(rolls.edge_roll * screen_h / 1000 <= screen_h) by (nonlinear_arith)
                requires
                    rolls.edge_roll * screen_h <= 1000 * screen_h,
            ;
        }
        let edge_x = ((rolls.edge_roll as u64) * screen_w / 1000) as i64;
        let edge_y = ((rolls.edge_roll as u64) * screen_h / 1000) as i64;
        let (x, y): (i64, i64) = if side == 0 {
            (edge_x, -(size as i64))
        } else if side == 1 {
            (edge_x, screen_h as i64 + size as i64)
        } else if side == 2 {
            (-(size as i64), edge_y)
        } else {
            (screen_w as i64 + size as i64, edge_y)
        };
        let vx = scale_direction(speed, dx, len);
        let vy = scale_direction(speed, dy, len);
        let r = Debris {
            x,
            y,
            size,
            velocity_x: vx,
            velocity_y: vy,
            hp: max_hp as i64,
            max_hp: max_hp as i64,
            damage: ONE,
            rotation: (rolls.rotation_roll as i64) * TURN / 1000,
            rotation_speed: (rolls.spin_roll as i64) * 4 - MAX_SPIN,
            debris_type: (rolls.type_roll % 4) as u8,
            color_variant: rolls.color_roll as u64,
            speed_multiplier: ONE,
        };
        r
    }

    /// Moves and spins the debris for `dt` microseconds, at its speed
    /// multiplier.
    pub fn update(&mut self, dt: u64)
        requires
            old(self).wf(),
            dt <= SECOND,
        ensures
            final(self).wf(),
            final(self).x == moved(
                old(self).x as int,
                scaled_velocity(old(self).velocity_x, old(self).speed_multiplier),
                dt as int,
            ),
            final(self).y == moved(
                old(self).y as int,
                scaled_velocity(old(self).velocity_y, old(self).speed_multiplier),
                dt as int,
            ),
            *final(self) == debris_moved(*old(self), dt),
    {
        let vx = mul_div_signed(self.velocity_x, self.speed_multiplier, ONE);
        let vy = mul_div_signed(self.velocity_y, self.speed_multiplier, ONE);
        self.x = move_coord(self.x, vx, dt);
        self.y = move_coord(self.y, vy, dt);
        let turned = self.rotation + mul_div_signed(self.rotation_speed, dt, SECOND);
        self.rotation = if turned > TURN {
            turned - TURN
        } else if turned < -TURN {
            turned + TURN
        } else {
            turned
        };
    }

    /// Whether the debris is more than twice its size beyond the play area.
    pub fn is_off_screen(&self, screen_w: u64, screen_h: u64) -> (r: bool)
        requires
            self.wf(),
            screen_w <= COORD_LIMIT,
            screen_h <= COORD_LIMIT,
        ensures
            r == (self.x < -2 * self.size || self.x > screen_w + 2 * self.size || self.y < -2
                * self.size || self.y > screen_h + 2 * self.size),
    {
        let margin = 2 * (self.size as i64);
        self.x < -margin || self.x > screen_w as i64 + margin || self.y < -margin || self.y
            > screen_h as i64 + margin
    }

    pub fn collides_with(&self, player: &Player) -> (r: bool)
        requires
            self.wf(),
            player.wf(),
        ensures
            r == circles_overlap(
                self.x as int,
                self.y as int,
                self.size as int,
                player.x as int,
                player.y as int,
                player.current.size as int,
            ),
    {
        overlap(self.x, self.y, self.size, player.x, player.y, player.current.size)
    }

    /// Removes `damage` hit points; tells whether the debris is destroyed.
    pub fn take_damage(&mut self, damage: u64) -> (destroyed: bool)
        requires
            old(self).wf(),
            damage <= CAP,
        ensures
            final(self).wf(),
            *final(self) == (Debris { hp: final(self).hp, ..*old(self) }),
            final(self).hp == lowered_hp(old(self).hp as int, damage as int),
            destroyed == (final(self).hp <= 0),
    {
        let hp = self.hp - damage as i64;
        self.hp = if hp < -(CAP as i64) { -(CAP as i64) } else { hp };
        self.hp <= 0
    }

    pub fn is_destroyed(&self) -> (r: bool)
        ensures
            r == (self.hp <= 0),
    {
        self.hp <= 0
    }
}

/// Hit points after `damage`, never below `-CAP`.
pub open spec fn lowered_hp(hp: int, damage: int) -> int {
    if hp - damage < -(CAP as int) {
        -(CAP as int)
    } else {
        hp - damage
    }
}

/// A velocity component at a speed multiplier.
pub open spec fn scaled_velocity(v: i64, m: u64) -> int {
    signed_ratio(v as int, m as int, ONE as int)
}

} // verus!
