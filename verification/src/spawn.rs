//! Interval-driven spawning and the helpers that turn uniform `u32` draws
//! from the collaborator's seeded random source into ranged values.

use vstd::prelude::*;
use crate::math::{Vec2, V2, scale_to_length, scale_to_length_spec};
use crate::COORD_LIMIT;

verus! {

/// Per-category spawn accumulator: collects elapsed time and fires once
/// the configured interval is reached, then starts over from zero.
#[derive(Clone, Copy, Debug, PartialEq, Eq, Structural)]
pub struct SpawnTimer {
    pub elapsed: i64,
}

impl SpawnTimer {
    pub fn new() -> (t: SpawnTimer)
        ensures
            t.elapsed == 0,
    {
        SpawnTimer { elapsed: 0 }
    }

    /// Accumulate `dt`; fire when the accumulated time reaches the
    /// interval, resetting the accumulator to zero (not decrementing it by
    /// the interval, so rate changes cannot leave drift behind).
    pub fn advance(&mut self, dt: i64, interval: i64) -> (fired: bool)
        requires
            0 <= dt <= COORD_LIMIT,
            0 <= interval <= COORD_LIMIT,
            0 <= old(self).elapsed <= interval,
        ensures
            fired == (old(self).elapsed + dt >= interval),
            final(self).elapsed == if fired { 0int } else { old(self).elapsed + dt },
            0 <= final(self).elapsed <= interval,
    {
        self.elapsed = self.elapsed + dt;
        if self.elapsed >= interval {
            self.elapsed = 0;
            true
        } else {
            false
        }
    }
}

/// The timer run over a whole sequence of frame times: the accumulator
/// after the last frame, paired with how many times the timer fired.
pub open spec fn run_timer(elapsed: int, interval: int, dts: Seq<int>) -> (int, int)
    decreases dts.len(),
{
    if dts.len() == 0 {
        (elapsed, 0)
    } else {
        let e1 = elapsed + dts[0];
        let fired = e1 >= interval;
        let rest = run_timer(if fired { 0int } else { e1 }, interval, dts.drop_first());
        (rest.0, rest.1 + if fired { 1int } else { 0int })
    }
}

/// The sum of a sequence of frame times.
pub open spec fn sum_of(dts: Seq<int>) -> int
    decreases dts.len(),
{
    if dts.len() == 0 {
        0
    } else {
        dts[0] + sum_of(dts.drop_first())
    }
}

pub open spec fn all_nonneg(dts: Seq<int>) -> bool {
    forall|i: int| 0 <= i < dts.len() ==> dts[i] >= 0
}

pub proof fn lemma_sum_nonneg(dts: Seq<int>)
    requires
        all_nonneg(dts),
    ensures
        sum_of(dts) >= 0,
    decreases dts.len(),
{
    if dts.len() > 0 {
        assert(all_nonneg(dts.drop_first()));
        lemma_sum_nonneg(dts.drop_first());
    }
}

proof fn lemma_timer_never_reaches(interval: int, dts: Seq<int>)
    requires
        0 < interval,
        all_nonneg(dts),
        sum_of(dts) == 0,
    ensures
        run_timer(0, interval, dts) == (0int, 0int),
    decreases dts.len(),
{
    if dts.len() > 0 {
        assert(all_nonneg(dts.drop_first()));
        lemma_sum_nonneg(dts.drop_first());
        assert(dts[0] == 0);
        lemma_timer_never_reaches(interval, dts.drop_first());
    }
}

/// Frames whose times together stay under the interval never fire the
/// timer: it just accumulates their sum. With the law below this places
/// the one firing exactly on the frame where the accumulated time first
/// reaches the interval.
pub proof fn lemma_timer_quiet_while_under(elapsed: int, interval: int, dts: Seq<int>)
    requires
        0 <= elapsed,
        all_nonneg(dts),
        elapsed + sum_of(dts) < interval,
    ensures
        run_timer(elapsed, interval, dts) == (elapsed + sum_of(dts), 0int),
    decreases dts.len(),
{
    if dts.len() > 0 {
        assert(all_nonneg(dts.drop_first()));
        lemma_sum_nonneg(dts.drop_first());
        lemma_timer_quiet_while_under(elapsed + dts[0], interval, dts.drop_first());
    }
}

/// Spawner interval law: when the frame times sum to exactly the
/// configured interval, the timer fires exactly once — on the frame where
/// the accumulated time first reaches the interval — and stands at zero
/// again after the last frame.
pub proof fn lemma_timer_fires_exactly_once(elapsed: int, interval: int, dts: Seq<int>)
    requires
        0 < interval,
        0 <= elapsed,
        dts.len() > 0,
        all_nonneg(dts),
        elapsed + sum_of(dts) == interval,
    ensures
        run_timer(elapsed, interval, dts) == (0int, 1int),
    decreases dts.len(),
{
    let e1 = elapsed + dts[0];
    let rest = dts.drop_first();
    assert(all_nonneg(rest));
    lemma_sum_nonneg(rest);
    if e1 >= interval {
        assert(e1 == interval);
        assert(sum_of(rest) == 0);
        lemma_timer_never_reaches(interval, rest);
    } else {
        assert(rest.len() > 0) by {
            if rest.len() == 0 {
                assert(sum_of(dts) == dts[0]);
            }
        }
        lemma_timer_fires_exactly_once(e1, interval, rest);
    }
}

/// The fixed-point sample `min + draw * (max - min) / 2^32`: the integer
/// image of scaling a uniform 32-bit draw into `[min, max)`.
pub open spec fn range_sample(draw: int, min: int, max: int) -> int {
    min + (draw * (max - min)) / 0x1_0000_0000
}

/// Map a uniform draw into `[min, max)`: the result can be `min` (draw 0)
/// and values arbitrarily close to `max`, but never `max` itself unless
/// the range is empty, in which case it is always `min`.
pub fn random_in_range(draw: u32, min: i64, max: i64) -> (r: i64)
    requires
        -COORD_LIMIT <= min <= max <= COORD_LIMIT,
    ensures
        r == range_sample(draw as int, min as int, max as int),
        min <= r,
        min < max ==> r < max,
        min == max ==> r == min,
{
    let span: u128 = (max - min) as u128;
    proof {
        assert(draw as int * span as int <= 0xffff_ffff * 0x200_0000_0000) by (nonlinear_arith)
            requires
                0 <= (draw as int) <= 0xffff_ffff,
                0 <= span <= 0x200_0000_0000,
        ;
        assert(draw as int * span as int >= 0) by (nonlinear_arith)
            requires
                0 <= (draw as int),
                0 <= span,
        ;
    }
    let scaled: u128 = draw as u128 * span;
    proof {
        vstd::arithmetic::div_mod::lemma_div_pos_is_pos(scaled as int, 0x1_0000_0000);
        if span == 0 {
            assert(scaled == 0) by (nonlinear_arith)
                requires
                    scaled == draw as int * span as int,
                    span == 0,
            ;
            vstd::arithmetic::div_mod::lemma_div_of0(0x1_0000_0000);
        }
        if span > 0 {
            assert(scaled < 0x1_0000_0000 * span as int) by (nonlinear_arith)
                requires
                    scaled == draw as int * span as int,
                    0 <= (draw as int) < 0x1_0000_0000,
                    0 < span,
            ;
            vstd::arithmetic::div_mod::lemma_div_by_multiple_is_strongly_ordered(
                scaled as int,
                0x1_0000_0000 * span as int,
                span as int,
                0x1_0000_0000,
            );
            vstd::arithmetic::div_mod::lemma_div_multiples_vanish(span as int, 0x1_0000_0000);
        }
    }
    let q: u128 = scaled / 0x1_0000_0000;
    min + q as i64
}

/// The inclusive integer sample `min + draw % (max - min + 1)`.
pub open spec fn range_sample_u32(draw: int, min: int, max: int) -> int {
    min + draw % (max - min + 1)
}

/// Map a uniform draw into the inclusive range `[min, max]`: every value
/// of the range, both bounds included, can come out.
pub fn random_in_range_u32(draw: u32, min: u32, max: u32) -> (r: u32)
    requires
        min <= max,
        max - min < 0xffff_ffffu32,
    ensures
        r == range_sample_u32(draw as int, min as int, max as int),
        min <= r <= max,
{
    let modulus: u32 = max - min + 1;
    proof {
        vstd::arithmetic::div_mod::lemma_mod_bound(draw as int, modulus as int);
    }
    min + draw % modulus
}

/// The bullet velocity of the aim spawner: the vector from the shooter to
/// the target, scaled to the configured speed. A shooter standing exactly
/// on the target yields zero velocity rather than an error.
pub fn aim_velocity(origin: Vec2, target: Vec2, speed: i64) -> (v: Vec2)
    requires
        origin.bounded(COORD_LIMIT as int),
        target.bounded(COORD_LIMIT as int),
        0 <= speed <= COORD_LIMIT,
    ensures
        v@ == scale_to_length_spec(
            V2 { x: target@.x - origin@.x, y: target@.y - origin@.y },
            speed as int,
        ),
        -speed <= v.x <= speed,
        -speed <= v.y <= speed,
{
    scale_to_length(Vec2 { x: target.x - origin.x, y: target.y - origin.y }, speed)
}

} // verus!
