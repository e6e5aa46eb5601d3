//! The per-frame simulation: difficulty pacing, spawning, collisions and
//! scoring, run in a fixed order over one state.

use vstd::prelude::*;
use crate::fixed::{
    ONE, SECOND, CAP, COORD_LIMIT, scale, add_capped, scaled, capped_sum, moved, move_coord,
    circles_overlap,
};
use crate::bullet::{Bullet, all_bullets_wf, all_debris_wf, bullet_moved, resolve_hits};
use crate::debris::{Debris, DebrisRolls, debris_moved, spawned_debris};
use crate::items::{
    ItemManager, ItemRolls, ItemType, alive_items, items_left, kinds_collected, spawned_item,
    base_duration_spec,
};
use crate::player::{
    Player, FrameInput, ShotRolls, ActiveEffect, has_kind, decay_effects, without_kind,
    extended_effects, effect_duration_spec, player_after_frame, volley,
};
use crate::skill_tree::SkillTreeManager;
use crate::stats::{StatBlock, manager_applied};

verus! {

/// Time between debris spawns at the start of a run (microseconds).
pub const INITIAL_SPAWN_RATE: u64 = 1_000_000;

/// Shortest time between debris spawns (microseconds).
pub const MIN_SPAWN_RATE: u64 = 200_000;

/// Time after which the spawn rate tightens (microseconds).
pub const DIFFICULTY_INTERVAL: u64 = 10_000_000;

/// Factor applied to the spawn rate each difficulty interval (ratio).
pub const SPAWN_DECAY: u64 = 900;

/// Score for destroying debris and for debris that leaves the play area,
/// before the points multiplier.
pub const DESTROY_SCORE: u64 = 50;
pub const PASS_SCORE: u64 = 10;

/// A score popup.
#[derive(Clone, Copy, Debug, PartialEq, Eq, Structural)]
pub struct FloatingText {
    pub x: i64,
    pub y: i64,
    pub points: u64,
    /// Multiplier shown beside the points; zero when none is shown.
    pub multiplier: u64,
    /// Upward drift (thousandths of a pixel per second).
    pub velocity_y: i64,
    /// Time left and life span (microseconds).
    pub lifetime: u64,
    pub max_lifetime: u64,
}

impl FloatingText {
    pub open spec fn wf(&self) -> bool {
        &&& -COORD_LIMIT <= self.x <= COORD_LIMIT
        &&& -COORD_LIMIT <= self.y <= COORD_LIMIT
        &&& -(CAP as int) <= self.velocity_y <= CAP
    }

    pub open spec fn popup(x: i64, y: i64, points: u64) -> FloatingText {
        FloatingText {
            x,
            y,
            points,
            multiplier: 0,
            velocity_y: -50_000i64,
            lifetime: 2_000_000,
            max_lifetime: 2_000_000,
        }
    }

    pub open spec fn bonus_popup(x: i64, y: i64, points: u64, multiplier: u64) -> FloatingText {
        FloatingText {
            x,
            y,
            points,
            multiplier,
            velocity_y: -30_000i64,
            lifetime: 2_500_000,
            max_lifetime: 2_500_000,
        }
    }

    /// A "+points" popup that rises for two seconds.
    pub fn new(x: i64, y: i64, points: u64) -> (r: FloatingText)
        ensures
            r == FloatingText::popup(x, y, points),
    {
        FloatingText {
            x,
            y,
            points,
            multiplier: 0,
            velocity_y: -50_000,
            lifetime: 2_000_000,
            max_lifetime: 2_000_000,
        }
    }

    /// A "+points (multiplier x)" popup that rises for two and a half seconds.
    pub fn new_with_text(x: i64, y: i64, points: u64, multiplier: u64) -> (r: FloatingText)
        ensures
            r == FloatingText::bonus_popup(x, y, points, multiplier),
    {
        FloatingText {
            x,
            y,
            points,
            multiplier,
            velocity_y: -30_000,
            lifetime: 2_500_000,
            max_lifetime: 2_500_000,
        }
    }

    pub fn update(&mut self, dt: u64)
        requires
            old(self).wf(),
            dt <= SECOND,
        ensures
            final(self).wf(),
            final(self).y == moved(old(self).y as int, old(self).velocity_y as int, dt as int),
            final(self).lifetime == if old(self).lifetime > dt { old(self).lifetime - dt } else { 0 },
            *final(self) == (FloatingText {
                y: final(self).y,
                lifetime: final(self).lifetime,
                ..*old(self)
            }),
    {
        self.y = move_coord(self.y, self.velocity_y, dt);
        self.lifetime = if self.lifetime > dt { self.lifetime - dt } else { 0 };
    }

    pub fn is_dead(&self) -> (r: bool)
        ensures
            r == (self.lifetime == 0),
    {
        self.lifetime == 0
    }
}

/// Where and how debris blew up, for the particle burst drawn there.
#[derive(Clone, Copy, Debug, PartialEq, Eq, Structural)]
pub struct Explosion {
    pub x: i64,
    pub y: i64,
    pub size: u64,
    pub velocity_x: i64,
    pub velocity_y: i64,
    pub debris_type: u8,
}

pub open spec fn explosion_of(d: Debris) -> Explosion {
    Explosion {
        x: d.x,
        y: d.y,
        size: d.size,
        velocity_x: d.velocity_x,
        velocity_y: d.velocity_y,
        debris_type: d.debris_type,
    }
}

/// `score` raised by `amount`, held at `i32::MAX`.
pub open spec fn added_score(score: i32, amount: int) -> i32 {
    if score + amount > i32::MAX {
        i32::MAX
    } else {
        (score + amount) as i32
    }
}

/// The points a scoring event is worth at the points multiplier `pm`.
pub open spec fn event_points(base: u64, pm: u64) -> int {
    scaled(base as int, pm as int)
}

/// What retiring destroyed debris yields: the new score, the explosions and
/// the popups it adds.
pub open spec fn destroy_outcome(score: i32, pm: u64, d: Debris) -> (
    i32,
    Seq<Explosion>,
    Seq<FloatingText>,
) {
    let points = event_points(DESTROY_SCORE, pm);
    (
        added_score(score, points),
        seq![explosion_of(d)],
        seq![FloatingText::popup(d.x, d.y, points as u64)],
    )
}

/// What retiring debris that left the play area yields: the new score, no
/// explosion, and a popup only when the multiplier is above one.
pub open spec fn pass_outcome(score: i32, pm: u64, d: Debris) -> (
    i32,
    Seq<Explosion>,
    Seq<FloatingText>,
) {
    let points = event_points(PASS_SCORE, pm);
    (
        added_score(score, points),
        Seq::empty(),
        if pm > ONE {
            seq![FloatingText::bonus_popup(d.x, d.y, points as u64, pm / ONE)]
        } else {
            Seq::empty()
        },
    )
}

/// Scoring of retired debris: destroyed debris awards `50 × multiplier` with
/// exactly one explosion and one popup; debris that left the play area awards
/// `10 × multiplier`, no explosion, and no popup at a multiplier of one or less.
pub proof fn lemma_retirement_scoring(score: i32, pm: u64, d: Debris)
    requires
        score >= 0,
        pm <= CAP,
    ensures
        destroy_outcome(score, pm, d).0 == added_score(score, scaled(50, pm as int)),
        destroy_outcome(score, pm, d).1.len() == 1,
        destroy_outcome(score, pm, d).2.len() == 1,
        pass_outcome(score, pm, d).0 == added_score(score, scaled(10, pm as int)),
        pass_outcome(score, pm, d).1.len() == 0,
        pm <= ONE ==> pass_outcome(score, pm, d).2.len() == 0,
{
}

/// The difficulty clock after `dt`: once it reaches the interval the spawn
/// rate tightens by the decay factor, never below the minimum, and the clock
/// restarts.
pub open spec fn next_difficulty(timer: u64, rate: u64, dt: u64) -> (u64, u64) {
    let t = capped_sum(timer as int, dt as int);
    if t >= DIFFICULTY_INTERVAL {
        let r = scaled(rate as int, SPAWN_DECAY as int);
        (0, if r < MIN_SPAWN_RATE { MIN_SPAWN_RATE } else { r as u64 })
    } else {
        (t as u64, rate)
    }
}

pub fn difficulty_step(timer: u64, rate: u64, dt: u64) -> (r: (u64, u64))
    requires
        rate <= CAP,
    ensures
        r == next_difficulty(timer, rate, dt),
        MIN_SPAWN_RATE <= rate ==> MIN_SPAWN_RATE <= r.1 <= rate,
{
    proof {
        assert(rate * 900 / 1000 <= rate) by (nonlinear_arith);
    }
    let t = add_capped(timer, dt);
    if t >= DIFFICULTY_INTERVAL {
        let r = scale(rate, SPAWN_DECAY);
        (0, if r < MIN_SPAWN_RATE { MIN_SPAWN_RATE } else { r })
    } else {
        (t, rate)
    }
}

/// The spawn rate never drops below its minimum, and a rate at the minimum
/// stays there.
pub proof fn lemma_spawn_rate_floor(timer: u64, rate: u64, dt: u64)
    requires
        MIN_SPAWN_RATE <= rate <= CAP,
    ensures
        next_difficulty(timer, rate, dt).1 >= MIN_SPAWN_RATE,
        rate == MIN_SPAWN_RATE ==> next_difficulty(timer, rate, dt).1 == MIN_SPAWN_RATE,
{
}

/// Spawn interval under the active effects: half again as long in slow
/// motion, three times as long in a time freeze.
pub open spec fn effective_spawn_rate(rate: u64, slow: bool, freeze: bool) -> int {
    let r1 = if slow { scaled(rate as int, 1500) } else { rate as int };
    if freeze { scaled(r1, 3000) } else { r1 }
}

/// Share of its velocity debris moves at: none in a time freeze, 30% in
/// slow motion.
pub open spec fn debris_speed_spec(slow: bool, freeze: bool) -> u64 {
    if freeze {
        0
    } else if slow {
        300
    } else {
        ONE
    }
}

/// The debris of `s` not yet destroyed, in order.
pub open spec fn surviving(s: Seq<Debris>) -> Seq<Debris>
    decreases s.len(),
{
    if s.len() == 0 {
        s
    } else if s.last().hp <= 0 {
        surviving(s.drop_last())
    } else {
        surviving(s.drop_last()).push(s.last())
    }
}

/// The debris of `s` still in or near the play area, in order.
pub open spec fn on_screen(s: Seq<Debris>, w: u64, h: u64) -> Seq<Debris>
    decreases s.len(),
{
    if s.len() == 0 {
        s
    } else {
        let d = s.last();
        let off = d.x < -2 * d.size || d.x > w + 2 * d.size || d.y < -2 * d.size || d.y > h + 2 * d.size;
        if off {
            on_screen(s.drop_last(), w, h)
        } else {
            on_screen(s.drop_last(), w, h).push(d)
        }
    }
}

/// Random draws for one frame.
#[derive(Clone, Copy, Debug, PartialEq, Eq, Structural)]
pub struct FrameRolls {
    pub shot: ShotRolls,
    pub debris: DebrisRolls,
    pub item: ItemRolls,
}

impl FrameRolls {
    pub open spec fn wf(&self) -> bool {
        &&& self.debris.wf()
        &&& self.item.x_roll <= 1000
        &&& self.item.y_roll <= 1000
    }
}

/// A run in progress: every entity, the score and the pacing clocks.
#[derive(Debug)]
pub struct Simulation {
    pub player: Player,
    pub bullets: Vec<Bullet>,
    pub debris: Vec<Debris>,
    pub items: ItemManager,
    pub floating_texts: Vec<FloatingText>,
    /// Explosions that happened during the last frame.
    pub explosions: Vec<Explosion>,
    pub score: i32,
    pub spawn_timer: u64,
    pub difficulty_timer: u64,
    /// Time between debris spawns (microseconds).
    pub spawn_rate: u64,
    /// Time since the run started (microseconds).
    pub time: u64,
    pub screen_w: u64,
    pub screen_h: u64,
}

pub open spec fn all_texts_wf(s: Seq<FloatingText>) -> bool {
    forall|i: int| 0 <= i < s.len() ==> (#[trigger] s[i]).wf()
}

impl Simulation {
    pub open spec fn wf(&self) -> bool {
        &&& self.player.wf()
        &&& all_bullets_wf(self.bullets@)
        &&& all_debris_wf(self.debris@)
        &&& self.items.wf()
        &&& all_texts_wf(self.floating_texts@)
        &&& self.score >= 0
        &&& MIN_SPAWN_RATE <= self.spawn_rate <= INITIAL_SPAWN_RATE
        &&& 0 < self.screen_w <= COORD_LIMIT / 2
        &&& 0 < self.screen_h <= COORD_LIMIT / 2
    }

    /// A fresh run on a `screen_w` by `screen_h` play area, the player's stats
    /// shaped by the skill trees of `skills`.
    pub fn new(screen_w: u64, screen_h: u64, skills: &SkillTreeManager) -> (r: Simulation)
        requires
            0 < screen_w <= COORD_LIMIT / 2,
            0 < screen_h <= COORD_LIMIT / 2,
            skills.wf(),
        ensures
            r.wf(),
            r.score == 0,
            r.spawn_rate == INITIAL_SPAWN_RATE,
            r.spawn_timer == 0 && r.difficulty_timer == 0 && r.time == 0,
            r.bullets@.len() == 0 && r.debris@.len() == 0 && r.items.items@.len() == 0,
            r.player.stats == manager_applied(StatBlock::fresh_spec(), *skills),
            r.player.hp == if r.player.stats.max_hp > 3000 { r.player.stats.max_hp as i64 } else { 3000 },
            r.player.x == screen_w / 2,
            r.player.y == scaled(screen_h as int, 900),
            r.player.active_effects@.len() == 0,
            r.player.current == r.player.frame_stats(),
            r.floating_texts@.len() == 0 && r.explosions@.len() == 0,
    {
        let mut player = Player::new(screen_w, screen_h);
        player.apply_skill_tree(skills);
        Simulation {
            player,
            bullets: Vec::new(),
            debris: Vec::new(),
            items: ItemManager::new(),
            floating_texts: Vec::new(),
            explosions: Vec::new(),
            score: 0,
            spawn_timer: 0,
            difficulty_timer: 0,
            spawn_rate: INITIAL_SPAWN_RATE,
            time: 0,
            screen_w,
            screen_h,
        }
    }

    /// Retires destroyed debris `d` (see `destroy_outcome`).
    pub fn award_destroyed(&mut self, d: &Debris)
        requires
            old(self).wf(),
            d.wf(),
        ensures
            final(self).wf(),
            ({
                let pm = old(self).player.current.points_multiplier;
                let (score, ex, tx) = destroy_outcome(old(self).score, pm, *d);
                &&& final(self).score == score
                &&& final(self).explosions@ == old(self).explosions@ + ex
                &&& final(self).floating_texts@ == old(self).floating_texts@ + tx
            }),
            *final(self) == (Simulation {
                score: final(self).score,
                explosions: final(self).explosions,
                floating_texts: final(self).floating_texts,
                ..*old(self)
            }),
    {
        let points = scale(DESTROY_SCORE, self.player.current.points_multiplier);
        self.score = add_score(self.score, points);
        self.explosions.push(Explosion {
            x: d.x,
            y: d.y,
            size: d.size,
            velocity_x: d.velocity_x,
            velocity_y: d.velocity_y,
            debris_type: d.debris_type,
        });
        let ghost before = self.floating_texts@;
        self.floating_texts.push(FloatingText::new(d.x, d.y, points));
        proof {
            assert(self.explosions@ =~= old(self).explosions@ + seq![explosion_of(*d)]);
            assert(self.floating_texts@ =~= before + seq![FloatingText::popup(d.x, d.y, points)]);
            assert forall|i: int| 0 <= i < self.floating_texts@.len() implies (#[trigger] self.floating_texts@[i]).wf() by {
                if i < before.len() {
                    assert(self.floating_texts@[i] == before[i]);
                }
            }
        }
    }

    /// Retires debris `d` that left the play area (see `pass_outcome`).
    pub fn award_passed(&mut self, d: &Debris)
        requires
            old(self).wf(),
            d.wf(),
        ensures
            final(self).wf(),
            ({
                let pm = old(self).player.current.points_multiplier;
                let (score, ex, tx) = pass_outcome(old(self).score, pm, *d);
                &&& final(self).score == score
                &&& final(self).explosions@ == old(self).explosions@ + ex
                &&& final(self).floating_texts@ == old(self).floating_texts@ + tx
            }),
            *final(self) == (Simulation {
                score: final(self).score,
                floating_texts: final(self).floating_texts,
                ..*old(self)
            }),
    {
        let pm = self.player.current.points_multiplier;
        let points = scale(PASS_SCORE, pm);
        self.score = add_score(self.score, points);
        let ghost before = self.floating_texts@;
        if pm > ONE {
            self.floating_texts.push(FloatingText::new_with_text(d.x, d.y, points, pm / ONE));
        }
        proof {
            assert(old(self).explosions@ + Seq::<Explosion>::empty() =~= old(self).explosions@);
            if pm > ONE {
                assert(self.floating_texts@ =~= before + seq![FloatingText::bonus_popup(d.x, d.y, points, pm / ONE)]);
            } else {
                assert(self.floating_texts@ =~= before + Seq::<FloatingText>::empty());
            }
            assert forall|i: int| 0 <= i < self.floating_texts@.len() implies (#[trigger] self.floating_texts@[i]).wf() by {
                if i < before.len() {
                    assert(self.floating_texts@[i] == before[i]);
                }
            }
        }
    }

    /// Retires every destroyed debris, in order, keeping the rest; the
    /// score, explosions and popups are those of `destroyed_fold`.
    pub fn retire_destroyed(&mut self)
        requires
            old(self).wf(),
        ensures
            final(self).wf(),
            final(self).debris@ == surviving(old(self).debris@),
            ({
                let pm = old(self).player.current.points_multiplier;
                let (score, ex, tx) = destroyed_fold(old(self).score, pm, old(self).debris@);
                &&& final(self).score == score
                &&& final(self).explosions@ == old(self).explosions@ + ex
                &&& final(self).floating_texts@ == old(self).floating_texts@ + tx
            }),
            *final(self) == (Simulation {
                debris: final(self).debris,
                score: final(self).score,
                explosions: final(self).explosions,
                floating_texts: final(self).floating_texts,
                ..*old(self)
            }),
    {
        let ghost start = self.debris@;
        let ghost pm = self.player.current.points_multiplier;
        let mut kept: Vec<Debris> = Vec::new();
        let n = self.debris.len();
        let mut i: usize = 0;
        while i < n
            invariant
                self.wf(),
                n == self.debris@.len(),
                start == self.debris@,
                start == old(self).debris@,
                pm == old(self).player.current.points_multiplier,
                i <= n,
                all_debris_wf(kept@),
                kept@ == surviving(start.take(i as int)),
                ({
                    let (score, ex, tx) = destroyed_fold(old(self).score, pm, start.take(i as int));
                    &&& self.score == score
                    &&& self.explosions@ == old(self).explosions@ + ex
                    &&& self.floating_texts@ == old(self).floating_texts@ + tx
                }),
                *self == (Simulation {
                    score: self.score,
                    explosions: self.explosions,
                    floating_texts: self.floating_texts,
                    ..*old(self)
                }),
            decreases n - i,
        {
            let d = self.debris[i];
            proof {
                assert(start.take(i + 1).drop_last() =~= start.take(i as int));
                assert(start.take(i + 1).last() == d);
            }
            let ghost before = *self;
            if d.is_destroyed() {
                self.award_destroyed(&d);
                proof {
                    let (s0, e0, t0) = destroyed_fold(old(self).score, pm, start.take(i as int));
                    let (s1, e1, t1) = destroy_outcome(s0, pm, d);
                    assert(old(self).explosions@ + e0 + e1 =~= old(self).explosions@ + (e0 + e1));
                    assert(old(self).floating_texts@ + t0 + t1 =~= old(self).floating_texts@ + (t0 + t1));
                }
            } else {
                kept.push(d);
            }
            i = i + 1;
        }
        proof {
            assert(start.take(n as int) =~= start);
        }
        self.debris = kept;
    }

    /// Retires every debris that left the play area, in order, keeping the
    /// rest; the score and popups are those of `passed_fold`.
    pub fn retire_off_screen(&mut self)
        requires
            old(self).wf(),
        ensures
            final(self).wf(),
            final(self).debris@ == on_screen(old(self).debris@, old(self).screen_w, old(self).screen_h),
            ({
                let pm = old(self).player.current.points_multiplier;
                let (w, h) = (old(self).screen_w, old(self).screen_h);
                let (score, ex, tx) = passed_fold(old(self).score, pm, old(self).debris@, w, h);
                &&& final(self).score == score
                &&& ex.len() == 0
                &&& final(self).floating_texts@ == old(self).floating_texts@ + tx
            }),
            *final(self) == (Simulation {
                debris: final(self).debris,
                score: final(self).score,
                floating_texts: final(self).floating_texts,
                ..*old(self)
            }),
    {
        let ghost start = self.debris@;
        let ghost pm = self.player.current.points_multiplier;
        let mut kept: Vec<Debris> = Vec::new();
        let n = self.debris.len();
        let mut i: usize = 0;
        while i < n
            invariant
                self.wf(),
                n == self.debris@.len(),
                start == self.debris@,
                start == old(self).debris@,
                pm == old(self).player.current.points_multiplier,
                i <= n,
                all_debris_wf(kept@),
                kept@ == on_screen(start.take(i as int), self.screen_w, self.screen_h),
                ({
                    let (score, ex, tx) = passed_fold(
                        old(self).score,
                        pm,
                        start.take(i as int),
                        self.screen_w,
                        self.screen_h,
                    );
                    &&& self.score == score
                    &&& ex.len() == 0
                    &&& self.floating_texts@ == old(self).floating_texts@ + tx
                }),
                *self == (Simulation {
                    score: self.score,
                    floating_texts: self.floating_texts,
                    ..*old(self)
                }),
            decreases n - i,
        {
            let d = self.debris[i];
            proof {
                assert(start.take(i + 1).drop_last() =~= start.take(i as int));
                assert(start.take(i + 1).last() == d);
            }
            if d.is_off_screen(self.screen_w, self.screen_h) {
                self.award_passed(&d);
                proof {
                    let (s0, e0, t0) = passed_fold(old(self).score, pm, start.take(i as int), self.screen_w, self.screen_h);
                    let (s1, e1, t1) = pass_outcome(s0, pm, d);
                    assert(old(self).floating_texts@ + t0 + t1 =~= old(self).floating_texts@ + (t0 + t1));
                    assert(self.explosions@ =~= old(self).explosions@);
                }
            } else {
                kept.push(d);
            }
            i = i + 1;
        }
        proof {
            assert(start.take(n as int) =~= start);
        }
        self.debris = kept;
    }
}

/// Retiring the destroyed debris of `s` in order from `score`: the final
/// score and the explosions and popups added (see `destroy_outcome`).
pub open spec fn destroyed_fold(score: i32, pm: u64, s: Seq<Debris>) -> (
    i32,
    Seq<Explosion>,
    Seq<FloatingText>,
)
    decreases s.len(),
{
    if s.len() == 0 {
        (score, Seq::empty(), Seq::empty())
    } else {
        let (sc, ex, tx) = destroyed_fold(score, pm, s.drop_last());
        if s.last().hp <= 0 {
            let (s2, e2, t2) = destroy_outcome(sc, pm, s.last());
            (s2, ex + e2, tx + t2)
        } else {
            (sc, ex, tx)
        }
    }
}

/// Retiring the debris of `s` that left a `w` by `h` play area in order from
/// `score`: the final score and the explosions and popups added (see
/// `pass_outcome`).
pub open spec fn passed_fold(score: i32, pm: u64, s: Seq<Debris>, w: u64, h: u64) -> (
    i32,
    Seq<Explosion>,
    Seq<FloatingText>,
)
    decreases s.len(),
{
    if s.len() == 0 {
        (score, Seq::empty(), Seq::empty())
    } else {
        let (sc, ex, tx) = passed_fold(score, pm, s.drop_last(), w, h);
        let d = s.last();
        let off = d.x < -2 * d.size || d.x > w + 2 * d.size || d.y < -2 * d.size || d.y > h + 2 * d.size;
        if off {
            let (s2, e2, t2) = pass_outcome(sc, pm, d);
            (s2, ex + e2, tx + t2)
        } else {
            (sc, ex, tx)
        }
    }
}

fn add_score(score: i32, amount: u64) -> (r: i32)
    requires
        score >= 0,
    ensures
        r == added_score(score, amount as int),
        r >= score,
{
    if (score as u128) + (amount as u128) > i32::MAX as u128 {
        i32::MAX
    } else {
        score + amount as i32
    }
}

/// Debris `d` touches the player.
pub open spec fn touching(d: Debris, p: Player) -> bool {
    circles_overlap(
        d.x as int,
        d.y as int,
        d.size as int,
        p.x as int,
        p.y as int,
        p.current.size as int,
    )
}

/// The player after every debris of `s` that touches it has hit it, in order.
pub open spec fn after_contacts(p: Player, s: Seq<Debris>, now: u64) -> Player
    decreases s.len(),
{
    if s.len() == 0 {
        p
    } else {
        let prev = after_contacts(p, s.drop_last(), now);
        if touching(s.last(), p) {
            prev.damaged(s.last().damage, now)
        } else {
            prev
        }
    }
}

/// The debris of `s` that does not touch the player, in order.
pub open spec fn untouched(s: Seq<Debris>, p: Player) -> Seq<Debris>
    decreases s.len(),
{
    if s.len() == 0 {
        s
    } else if touching(s.last(), p) {
        untouched(s.drop_last(), p)
    } else {
        untouched(s.drop_last(), p).push(s.last())
    }
}

proof fn lemma_contacts_keep_shape(p: Player, s: Seq<Debris>, now: u64)
    ensures
        after_contacts(p, s, now).x == p.x,
        after_contacts(p, s, now).y == p.y,
        after_contacts(p, s, now).current == p.current,
        after_contacts(p, s, now).stats == p.stats,
        after_contacts(p, s, now).active_effects == p.active_effects,
    decreases s.len(),
{
    if s.len() > 0 {
        lemma_contacts_keep_shape(p, s.drop_last(), now);
    }
}

/// Debris after a frame of `dt` at the speed share `speed`.
pub open spec fn debris_after_move(d: Debris, dt: u64, speed: u64) -> Debris {
    debris_moved(Debris { speed_multiplier: speed, ..d }, dt)
}

fn move_all_debris(debris: &mut Vec<Debris>, dt: u64, speed: u64)
    requires
        all_debris_wf(old(debris)@),
        dt <= SECOND,
        speed <= ONE,
    ensures
        all_debris_wf(final(debris)@),
        final(debris)@ == old(debris)@.map_values(|d: Debris| debris_after_move(d, dt, speed)),
{
    let ghost start = debris@;
    let n = debris.len();
    for i in 0..n
        invariant
            n == debris@.len(),
            start == old(debris)@,
            n == start.len(),
            all_debris_wf(debris@),
            all_debris_wf(start),
            dt <= SECOND,
            speed <= ONE,
            forall|k: int| 0 <= k < i ==> (#[trigger] debris@[k]) == debris_after_move(start[k], dt, speed),
            forall|k: int| i <= k < n ==> (#[trigger] debris@[k]) == start[k],
    {
        let mut d = debris[i];
        d.speed_multiplier = speed;
        d.update(dt);
        debris.set(i, d);
    }
    proof {
        assert(debris@ =~= start.map_values(|d: Debris| debris_after_move(d, dt, speed)));
    }
}

fn move_all_bullets(bullets: &mut Vec<Bullet>, debris: &Vec<Debris>, dt: u64)
    requires
        all_bullets_wf(old(bullets)@),
        all_debris_wf(debris@),
        dt <= SECOND,
    ensures
        all_bullets_wf(final(bullets)@),
        final(bullets)@ == old(bullets)@.map_values(|b: Bullet| bullet_moved(b, debris@, dt)),
{
    let ghost start = bullets@;
    let n = bullets.len();
    for i in 0..n
        invariant
            n == bullets@.len(),
            start == old(bullets)@,
            n == start.len(),
            all_bullets_wf(bullets@),
            all_bullets_wf(start),
            all_debris_wf(debris@),
            dt <= SECOND,
            forall|k: int| 0 <= k < i ==> (#[trigger] bullets@[k]) == bullet_moved(start[k], debris@, dt),
            forall|k: int| i <= k < n ==> (#[trigger] bullets@[k]) == start[k],
    {
        let mut b = bullets[i];
        b.update(debris, dt);
        bullets.set(i, b);
    }
    proof {
        assert(bullets@ =~= start.map_values(|b: Bullet| bullet_moved(b, debris@, dt)));
    }
}

/// The bullets of `s` still in play, in order.
pub open spec fn bullets_in_play(s: Seq<Bullet>, w: u64, h: u64) -> Seq<Bullet>
    decreases s.len(),
{
    if s.len() == 0 {
        s
    } else {
        let b = s.last();
        let off = b.lifetime > b.max_lifetime || b.x < -b.size || b.x > w + b.size || b.y < -b.size
            || b.y > h + b.size;
        if off {
            bullets_in_play(s.drop_last(), w, h)
        } else {
            bullets_in_play(s.drop_last(), w, h).push(b)
        }
    }
}

fn drop_spent_bullets(bullets: &mut Vec<Bullet>, w: u64, h: u64)
    requires
        all_bullets_wf(old(bullets)@),
        w <= COORD_LIMIT,
        h <= COORD_LIMIT,
    ensures
        all_bullets_wf(final(bullets)@),
        final(bullets)@ == bullets_in_play(old(bullets)@, w, h),
{
    let ghost start = bullets@;
    let mut kept: Vec<Bullet> = Vec::new();
    let n = bullets.len();
    for i in 0..n
        invariant
            n == bullets@.len(),
            start == bullets@,
            all_bullets_wf(start),
            all_bullets_wf(kept@),
            w <= COORD_LIMIT,
            h <= COORD_LIMIT,
            kept@ == bullets_in_play(start.take(i as int), w, h),
    {
        let b = bullets[i];
        proof {
            assert(start.take(i + 1).drop_last() =~= start.take(i as int));
        }
        if !b.is_off_screen(w, h) {
            kept.push(b);
        }
    }
    proof {
        assert(start.take(n as int) =~= start);
    }
    *bullets = kept;
}

/// A popup after `dt`: drifted and with less time left.
pub open spec fn text_aged(t: FloatingText, dt: u64) -> FloatingText {
    FloatingText {
        y: moved(t.y as int, t.velocity_y as int, dt as int) as i64,
        lifetime: if t.lifetime > dt { (t.lifetime - dt) as u64 } else { 0 },
        ..t
    }
}

/// The popups of `s` after `dt`, those with no time left dropped.
pub open spec fn texts_aged(s: Seq<FloatingText>, dt: u64) -> Seq<FloatingText>
    decreases s.len(),
{
    if s.len() == 0 {
        s
    } else {
        let prev = texts_aged(s.drop_last(), dt);
        let t = text_aged(s.last(), dt);
        if t.lifetime == 0 {
            prev
        } else {
            prev.push(t)
        }
    }
}

fn age_texts(texts: &mut Vec<FloatingText>, dt: u64)
    requires
        all_texts_wf(old(texts)@),
        dt <= SECOND,
    ensures
        all_texts_wf(final(texts)@),
        final(texts)@ == texts_aged(old(texts)@, dt),
{
    let ghost start = texts@;
    let mut kept: Vec<FloatingText> = Vec::new();
    let n = texts.len();
    for i in 0..n
        invariant
            n == texts@.len(),
            start == texts@,
            all_texts_wf(texts@),
            all_texts_wf(kept@),
            dt <= SECOND,
            kept@ == texts_aged(start.take(i as int), dt),
    {
        let mut t = texts[i];
        proof {
            assert(start.take(i + 1).drop_last() =~= start.take(i as int));
            assert(start.take(i + 1).last() == t);
        }
        t.update(dt);
        if !t.is_dead() {
            kept.push(t);
        }
    }
    proof {
        assert(start.take(n as int) =~= start);
    }
    *texts = kept;
}

impl Simulation {
    /// Every debris that touches the player hits it (unless the player is
    /// phasing) and is removed; tells whether the player is destroyed.
    pub fn resolve_player_contacts(&mut self) -> (destroyed: bool)
        requires
            old(self).wf(),
        ensures
            final(self).wf(),
            destroyed == (final(self).player.hp <= 0),
            old(self).player.current.can_phase_through ==> *final(self) == *old(self),
            *final(self) == (Simulation {
                player: final(self).player,
                debris: final(self).debris,
                ..*old(self)
            }),
            !old(self).player.current.can_phase_through ==> {
                &&& final(self).player == after_contacts(old(self).player, old(self).debris@, old(self).time)
                &&& final(self).debris@ == untouched(old(self).debris@, old(self).player)
            },
            final(self).score == old(self).score,
            final(self).spawn_rate == old(self).spawn_rate,
            final(self).difficulty_timer == old(self).difficulty_timer,
            final(self).time == old(self).time,
            final(self).screen_w == old(self).screen_w && final(self).screen_h == old(self).screen_h,
    {
        if self.player.current.can_phase_through {
            return self.player.is_destroyed();
        }
        let ghost start = self.debris@;
        let ghost p0 = self.player;
        let mut kept: Vec<Debris> = Vec::new();
        let n = self.debris.len();
        let mut i: usize = 0;
        while i < n
            invariant
                self.wf(),
                n == self.debris@.len(),
                start == self.debris@,
                i <= n,
                all_debris_wf(kept@),
                kept@ == untouched(start.take(i as int), p0),
                self.player == after_contacts(p0, start.take(i as int), self.time),
                self.score == old(self).score,
                self.spawn_rate == old(self).spawn_rate,
                self.difficulty_timer == old(self).difficulty_timer,
                self.time == old(self).time,
                p0 == old(self).player,
                *self == (Simulation { player: self.player, ..*old(self) }),
            decreases n - i,
        {
            let d = self.debris[i];
            proof {
                assert(start.take(i + 1).drop_last() =~= start.take(i as int));
                lemma_contacts_keep_shape(p0, start.take(i as int), self.time);
            }
            if d.collides_with(&self.player) {
                self.player.take_damage(d.damage, self.time);
            } else {
                kept.push(d);
            }
            i = i + 1;
        }
        proof {
            assert(start.take(n as int) =~= start);
        }
        self.debris = kept;
        self.player.is_destroyed()
    }

    /// Adds `dt` to the spawn clock and spawns the debris that `rolls`
    /// describe once the clock passes the spawn interval under the active
    /// effects.
    pub fn spawn_debris_if_due(&mut self, dt: u64, rolls: DebrisRolls) -> (spawned: bool)
        requires
            old(self).wf(),
            rolls.wf(),
        ensures
            final(self).wf(),
            ({
                let t = capped_sum(old(self).spawn_timer as int, dt as int);
                let eff = effective_spawn_rate(
                    old(self).spawn_rate,
                    has_kind(old(self).player.active_effects@, ItemType::SlowMotion),
                    has_kind(old(self).player.active_effects@, ItemType::TimeFreeze),
                );
                &&& spawned == (t > eff)
                &&& final(self).spawn_timer == if spawned { 0 } else { t }
                &&& final(self).debris@ == if spawned {
                    old(self).debris@.push(spawned_debris(old(self).screen_w, old(self).screen_h, rolls))
                } else {
                    old(self).debris@
                }
            }),
            *final(self) == (Simulation {
                debris: final(self).debris,
                spawn_timer: final(self).spawn_timer,
                ..*old(self)
            }),
            final(self).player == old(self).player,
            final(self).score == old(self).score,
            final(self).spawn_rate == old(self).spawn_rate,
            final(self).difficulty_timer == old(self).difficulty_timer,
            final(self).time == old(self).time,
            final(self).screen_w == old(self).screen_w && final(self).screen_h == old(self).screen_h,
    {
        self.spawn_timer = add_capped(self.spawn_timer, dt);
        let slow = self.player.has_effect(&ItemType::SlowMotion);
        let freeze = self.player.has_effect(&ItemType::TimeFreeze);
        let r1 = if slow { scale(self.spawn_rate, 1500) } else { self.spawn_rate };
        let eff = if freeze { scale(r1, 3000) } else { r1 };
        if self.spawn_timer > eff {
            let d = Debris::new(self.screen_w, self.screen_h, rolls);
            let ghost before = self.debris@;
            self.debris.push(d);
            proof {
                assert forall|i: int| 0 <= i < self.debris@.len() implies (#[trigger] self.debris@[i]).wf() by {
                    if i < before.len() {
                        assert(self.debris@[i] == before[i]);
                    }
                }
            }
            self.spawn_timer = 0;
            true
        } else {
            false
        }
    }

    /// The pickup stage (see `pickup_stage`).
    pub fn collect_pickups(&mut self)
        requires
            old(self).wf(),
        ensures
            final(self).wf(),
            pickup_stage(*old(self), *final(self)),
    {
        let ghost b0 = *self;

        let picked = self.items.check_pickups(&self.player);
        let ghost mid = *self;
        let m = picked.len();
        for k in 0..m
            invariant
                self.wf(),
                m == picked@.len(),
                picked@ == kinds_collected(b0.items.items@, b0.player),
                *self == (Simulation { player: self.player, ..mid }),
                mid.player == b0.player,
                self.player == (Player { active_effects: self.player.active_effects, ..b0.player }),
                self.player.active_effects@ == effects_after_pickups(
                    b0.player.active_effects@,
                    b0.player.stats,
                    picked@.take(k as int),
                ),
        {
            proof {
                assert(picked@.take(k + 1).drop_last() =~= picked@.take(k as int));
                assert(picked@.take(k + 1).last() == picked@[k as int]);
            }
            self.player.apply_item_effect(picked[k]);
        }
        proof {
            assert(picked@.take(m as int) =~= picked@);
        }
        if m > 0 {
            self.player.on_item_pickup();
        }
    }

    /// The debris stage (see `debris_stage`).
    pub fn advance_debris(&mut self, dt: u64)
        requires
            old(self).wf(),
            dt <= SECOND,
        ensures
            final(self).wf(),
            debris_stage(*old(self), *final(self), dt),
    {
        let slow = self.player.has_effect(&ItemType::SlowMotion);
        let freeze = self.player.has_effect(&ItemType::TimeFreeze);
        let speed = if freeze { 0 } else if slow { 300 } else { ONE };
        move_all_debris(&mut self.debris, dt, speed);
        self.retire_destroyed();
    }

    /// The last stages of a frame (see `late_stage`).
    pub fn finish_frame(&mut self, dt: u64)
        requires
            old(self).wf(),
            dt <= SECOND,
        ensures
            final(self).wf(),
            late_stage(*old(self), *final(self), dt),
    {
        move_all_bullets(&mut self.bullets, &self.debris, dt);
        age_texts(&mut self.floating_texts, dt);
        Bullet::handle_collisions(&mut self.bullets, &mut self.debris);
        drop_spent_bullets(&mut self.bullets, self.screen_w, self.screen_h);
        self.retire_off_screen();
    }

    /// One frame of `dt` microseconds, at most a second of it: a longer gap
    /// (a paused window) is simulated as one second. The stages run in this
    /// order: the difficulty clock; pickups spawn, expire and are collected;
    /// the player; debris spawns; debris moves and destroyed debris is
    /// retired; debris touching the player hits it; bullets move; popups age;
    /// bullets hit debris; spent bullets and debris that left the play area
    /// are retired (see `frame_rel`). Tells whether the run is over.
    pub fn step(&mut self, input: FrameInput, dt: u64, rolls: FrameRolls) -> (game_over: bool)
        requires
            old(self).wf(),
            rolls.wf(),
        ensures
            final(self).wf(),
            game_over == (final(self).player.hp <= 0),
            frame_rel(*old(self), *final(self), input, frame_time(dt), rolls, game_over),
    {
        let dt = if dt > SECOND { SECOND } else { dt };
        let ghost s0 = *self;
        self.time = add_capped(self.time, dt);
        self.explosions = Vec::new();
        let (timer, rate) = difficulty_step(self.difficulty_timer, self.spawn_rate, dt);
        self.difficulty_timer = timer;
        self.spawn_rate = rate;
        let ghost sa = *self;
        proof {
            assert(clock_stage(s0, sa, dt));
        }

        self.items.update(dt, self.time, rolls.item, self.screen_w, self.screen_h);
        let ghost sb = *self;
        proof {
            assert(items_stage(sa, sb, dt, rolls.item));
        }

        self.collect_pickups();
        let ghost sc = *self;
        proof {
            assert(pickup_stage(sb, sc));
        }

        let (w, h, now) = (self.screen_w, self.screen_h, self.time);
        self.player.update(input, dt, now, w, h, &mut self.bullets, rolls.shot);
        let ghost sd = *self;
        proof {
            assert(player_stage(sc, sd, input, dt, rolls.shot));
        }

        self.spawn_debris_if_due(dt, rolls.debris);
        let ghost se = *self;
        proof {
            assert(spawn_stage(sd, se, dt, rolls.debris));
        }

        self.advance_debris(dt);
        let ghost sf = *self;
        proof {
            assert(debris_stage(se, sf, dt));
        }

        let over = self.resolve_player_contacts();
        let ghost sg = *self;
        proof {
            assert(contact_stage(sf, sg));
        }
        if over {
            proof {
                assert(frame_rel(s0, *self, input, dt, rolls, true));
            }
            return true;
        }

        self.finish_frame(dt);
        proof {
            assert(frame_rel(s0, *self, input, dt, rolls, false));
        }
        false
    }
}

/// The time a frame of `dt` simulates: at most a second.
pub open spec fn frame_time(dt: u64) -> u64 {
    if dt > SECOND { SECOND } else { dt }
}

/// The clock stage: time advances, the difficulty clock runs, and the last
/// frame's explosions are cleared.
pub open spec fn clock_stage(s: Simulation, a: Simulation, dt: u64) -> bool {
    let (timer, rate) = next_difficulty(s.difficulty_timer, s.spawn_rate, dt);
    &&& a == (Simulation {
        time: capped_sum(s.time as int, dt as int) as u64,
        difficulty_timer: timer,
        spawn_rate: rate,
        explosions: a.explosions,
        ..s
    })
    &&& a.explosions@.len() == 0
}

/// The pickup clock stage (see `ItemManager::update`).
pub open spec fn items_stage(a: Simulation, b: Simulation, dt: u64, rolls: ItemRolls) -> bool {
    let t = capped_sum(a.items.spawn_timer as int, dt as int);
    let spawned = t >= a.items.spawn_interval;
    let items = if spawned {
        a.items.items@.push(spawned_item(a.time, rolls, a.screen_w, a.screen_h))
    } else {
        a.items.items@
    };
    &&& b == (Simulation { items: b.items, ..a })
    &&& b.items.spawn_timer == if spawned { 0 } else { t }
    &&& b.items.spawn_interval == a.items.spawn_interval
    &&& b.items.items@ == alive_items(items, a.time)
}

/// The effects after picking up `kinds` in order (see `apply_item_effect`).
pub open spec fn effects_after_pickups(
    s: Seq<ActiveEffect>,
    stats: StatBlock,
    kinds: Seq<ItemType>,
) -> Seq<ActiveEffect>
    decreases kinds.len(),
{
    if kinds.len() == 0 {
        s
    } else {
        let prev = effects_after_pickups(s, stats, kinds.drop_last());
        let k = kinds.last();
        match base_duration_spec(k) {
            None => prev,
            Some(_) => without_kind(prev, k).push(
                ActiveEffect {
                    effect_type: k,
                    remaining_time: effect_duration_spec(stats, k),
                    original_duration: effect_duration_spec(stats, k),
                },
            ),
        }
    }
}

/// The pickup stage: pickups within reach are collected, their effects
/// granted in order, and a frame with any pickup counts once (see
/// `on_item_pickup`).
pub open spec fn pickup_stage(b: Simulation, c: Simulation) -> bool {
    let p = b.player;
    let kinds = kinds_collected(b.items.items@, p);
    let granted = effects_after_pickups(p.active_effects@, p.stats, kinds);
    let any = kinds.len() > 0;
    &&& c == (Simulation { items: c.items, player: c.player, ..b })
    &&& c.items.items@ == items_left(b.items.items@, p)
    &&& c.items.spawn_timer == b.items.spawn_timer
    &&& c.items.spawn_interval == b.items.spawn_interval
    &&& c.player == (Player {
        active_effects: c.player.active_effects,
        pickup_count: if any && p.pickup_count < u32::MAX {
            (p.pickup_count + 1) as u32
        } else {
            p.pickup_count
        },
        ..p
    })
    &&& c.player.active_effects@ == if any && p.stats.energy_overflow_bonus > 0 {
        extended_effects(granted, p.stats.energy_overflow_bonus)
    } else {
        granted
    }
}

/// The player stage (see `Player::update`).
pub open spec fn player_stage(
    c: Simulation,
    d: Simulation,
    input: FrameInput,
    dt: u64,
    shot: ShotRolls,
) -> bool {
    let p = c.player;
    let fired = input.fire && p.shoot_cooldown == 0;
    &&& d == (Simulation { player: d.player, bullets: d.bullets, ..c })
    &&& d.player.active_effects@ == decay_effects(p.active_effects@, dt)
    &&& d.player == (Player {
        active_effects: d.player.active_effects,
        ..player_after_frame(p, input, dt, c.time, c.screen_w, c.screen_h)
    })
    &&& d.bullets@ == if fired {
        c.bullets@ + volley(
            p.x,
            p.y,
            p.facing_x,
            p.facing_y,
            d.player.current.size,
            p.stats,
            c.screen_w,
            c.screen_h,
            shot,
        )
    } else {
        c.bullets@
    }
}

/// The spawn stage: debris spawns once the spawn clock passes the interval
/// under the active effects, and the clock restarts.
pub open spec fn spawn_stage(d: Simulation, e: Simulation, dt: u64, rolls: DebrisRolls) -> bool {
    let t = capped_sum(d.spawn_timer as int, dt as int);
    let eff = effective_spawn_rate(
        d.spawn_rate,
        has_kind(d.player.active_effects@, ItemType::SlowMotion),
        has_kind(d.player.active_effects@, ItemType::TimeFreeze),
    );
    let spawned = t > eff;
    &&& e == (Simulation {
        debris: e.debris,
        spawn_timer: (if spawned { 0 } else { t }) as u64,
        ..d
    })
    &&& e.debris@ == if spawned {
        d.debris@.push(spawned_debris(d.screen_w, d.screen_h, rolls))
    } else {
        d.debris@
    }
}

/// The debris stage: every debris moves at the speed the effects allow, and
/// destroyed debris is retired (see `destroyed_fold`).
pub open spec fn debris_stage(e: Simulation, f: Simulation, dt: u64) -> bool {
    let speed = debris_speed_spec(
        has_kind(e.player.active_effects@, ItemType::SlowMotion),
        has_kind(e.player.active_effects@, ItemType::TimeFreeze),
    );
    let moved = e.debris@.map_values(|x: Debris| debris_after_move(x, dt, speed));
    let (score, ex, tx) = destroyed_fold(e.score, e.player.current.points_multiplier, moved);
    &&& f == (Simulation {
        debris: f.debris,
        score: f.score,
        explosions: f.explosions,
        floating_texts: f.floating_texts,
        ..e
    })
    &&& f.debris@ == surviving(moved)
    &&& f.score == score
    &&& f.explosions@ == e.explosions@ + ex
    &&& f.floating_texts@ == e.floating_texts@ + tx
}

/// The contact stage: unless the player is phasing, each debris touching it
/// hits it once, in order, and is removed.
pub open spec fn contact_stage(f: Simulation, g: Simulation) -> bool {
    if f.player.current.can_phase_through {
        g == f
    } else {
        &&& g == (Simulation {
            player: after_contacts(f.player, f.debris@, f.time),
            debris: g.debris,
            ..f
        })
        &&& g.debris@ == untouched(f.debris@, f.player)
    }
}

/// The last stages: bullets move, popups age, bullets hit debris, spent
/// bullets go, and debris that left the play area is retired (see
/// `passed_fold`).
pub open spec fn late_stage(g: Simulation, s: Simulation, dt: u64) -> bool {
    let (w, h) = (g.screen_w, g.screen_h);
    let moved = g.bullets@.map_values(|b: Bullet| bullet_moved(b, g.debris@, dt));
    let (hit_bullets, hit_debris) = resolve_hits(moved, g.debris@);
    let aged = texts_aged(g.floating_texts@, dt);
    let (score, ex, tx) = passed_fold(g.score, g.player.current.points_multiplier, hit_debris, w, h);
    &&& s == (Simulation {
        bullets: s.bullets,
        debris: s.debris,
        floating_texts: s.floating_texts,
        score: s.score,
        ..g
    })
    &&& s.bullets@ == bullets_in_play(hit_bullets, w, h)
    &&& s.debris@ == on_screen(hit_debris, w, h)
    &&& s.score == score
    &&& ex.len() == 0
    &&& s.floating_texts@ == aged + tx
}

/// One frame from `s0` to `s1`: the stages in order, the run ending after
/// the contact stage when the player's hit points are gone.
pub open spec fn frame_rel(
    s0: Simulation,
    s1: Simulation,
    input: FrameInput,
    dt: u64,
    rolls: FrameRolls,
    game_over: bool,
) -> bool {
    exists|a: Simulation|
        #[trigger] clock_stage(s0, a, dt) && exists|b: Simulation|
            #[trigger] items_stage(a, b, dt, rolls.item) && exists|c: Simulation|
                #[trigger] pickup_stage(b, c) && exists|d: Simulation|
                    #[trigger] player_stage(c, d, input, dt, rolls.shot) && exists|e: Simulation|
                        #[trigger] spawn_stage(d, e, dt, rolls.debris) && exists|f: Simulation|
                            #[trigger] debris_stage(e, f, dt) && exists|g: Simulation|
                                #[trigger] contact_stage(f, g) && if g.player.hp <= 0 {
                                    game_over && s1 == g
                                } else {
                                    !game_over && late_stage(g, s1, dt)
                                }
}

} // verus!
