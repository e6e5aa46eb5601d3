//! Random draws for the simulation, from macroquad's generator.

use vstd::prelude::*;
use crate::debris::DebrisRolls;
use crate::items::ItemRolls;
use crate::player::ShotRolls;
use crate::simulation::{FrameRolls, Simulation, frame_rel, frame_time};
use crate::player::FrameInput;

verus! {

/// Relies on `macroquad::rand::gen_range` (quad-rand) for `u32`: it adds to
/// `low` the span times a 32-bit fraction below one, in `f64`, and truncates.
/// The result lies between `low` and `high`; rounding can reach `high` only
/// when `low` is large, so from `low == 0` the result stays below `high`.
#[verifier::external_body]
fn random_in(low: u32, high: u32) -> (r: u32)
    requires
        low <= high,
    ensures
        low <= r <= high,
        low == 0 && 0 < high ==> r < high,
{
    macroquad::rand::gen_range(low, high)
}

/// A draw in `0..=1000`.
fn roll() -> (r: u32)
    ensures
        r <= 1000,
{
    random_in(0, 1001)
}

/// Fresh draws for one frame of the simulation.
pub fn draw_frame_rolls() -> (r: FrameRolls)
    ensures
        r.wf(),
        r.shot.double_roll <= 1000,
        r.shot.crit_roll_first <= 1000,
        r.shot.crit_roll_left <= 1000,
        r.shot.crit_roll_right <= 1000,
        r.debris.side_roll < 4,
        r.debris.type_roll < 4,
        r.item.kind_roll < 9,
{
    let shot = ShotRolls {
        double_roll: roll() as u64,
        crit_roll_first: roll() as u64,
        crit_roll_left: roll() as u64,
        crit_roll_right: roll() as u64,
    };
    let debris = DebrisRolls {
        size_roll: roll(),
        side_roll: random_in(0, 4),
        edge_roll: roll(),
        angle_roll: roll(),
        speed_roll: roll(),
        rotation_roll: roll(),
        spin_roll: roll(),
        type_roll: random_in(0, 4),
        color_roll: roll(),
    };
    let item = ItemRolls { kind_roll: random_in(0, 9), x_roll: roll(), y_roll: roll() };
    FrameRolls { shot, debris, item }
}

impl Simulation {
    /// One frame of `dt` microseconds with fresh random draws (see `step`):
    /// whatever is drawn, the frame is the one `frame_rel` gives for some
    /// well-formed draws.
    pub fn step_random(&mut self, input: FrameInput, dt: u64) -> (game_over: bool)
        requires
            old(self).wf(),
        ensures
            final(self).wf(),
            game_over == (final(self).player.hp <= 0),
            exists|r: FrameRolls|
                r.wf() && #[trigger] frame_rel(*old(self), *final(self), input, frame_time(dt), r, game_over),
    {
        let rolls = draw_frame_rolls();
        let over = self.step(input, dt, rolls);
        proof {
            assert(rolls.wf());
        }
        over
    }
}

} // verus!
