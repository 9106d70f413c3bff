use vstd::prelude::*;
use crate::colors::Rgba;
use crate::geom::{
    Vec2, spec_translate, spec_polar, spec_norm_angle, spec_log2_mil, translate, polar,
    norm_angle_add, log2_mil, TURN,
};
use crate::rng::{rng_range, sample_range};

verus! {

/// How far a background point wiggles around its anchor, in milli-pixels.
pub const BG_WIGGLE: i64 = 15_000;

/// How many points the decorative field holds.
pub const BG_POINTS: usize = 230;

/// One decorative point: an anchor position and a phase angle that sets
/// its current wiggle offset.
#[derive(Clone, Copy, Debug, PartialEq, Eq, Structural)]
pub struct BgPoint {
    pub pos: Vec2,
    pub angle: i64,
}

impl BgPoint {
    pub open spec fn wf(self) -> bool {
        self.pos.wf() && 0 <= self.angle < TURN
    }

    /// Jump to a nearby random spot and shift the phase: the reaction to
    /// a chaos event.
    fn teleport(&mut self, rng: &mut rand_xorshift::XorShiftRng)
        requires
            old(self).wf(),
        ensures
            final(self).wf(),
            spec_scattered(*old(self), *final(self), 1),
    {
        let jump_angle: i64 = sample_range(rng, 0, TURN);
        let jump_len: i64 = sample_range(rng, 10_000, 20_000);
        let d: Vec2 = polar(jump_angle, jump_len);
        self.pos = translate(self.pos, d);
        let shift: i64 = sample_range(rng, 10_000, 20_000);
        self.angle = norm_angle_add(self.angle, shift);
        proof {
            assert(spec_scattered(*old(self), *self, 1)) by {
                assert(10_000 <= shift < 20_000 * 1 && self.angle == spec_norm_angle(
                    old(self).angle + shift,
                ));
            }
        }
    }

    /// Advance the phase by an amount that grows with the score.
    pub open spec fn spec_step(self, score: u64) -> BgPoint {
        BgPoint {
            pos: self.pos,
            angle: spec_norm_angle(self.angle + spec_log2_mil(score + 2)) as i64,
        }
    }

    fn update(&mut self, score: u64)
        requires
            old(self).wf(),
            score <= crate::SCORE_CAP,
        ensures
            *final(self) == old(self).spec_step(score),
            final(self).wf(),
    {
        let adv: u64 = log2_mil(score + 2);
        proof {
            lemma_log2_mil_small(score as int + 2);
        }
        self.angle = norm_angle_add(self.angle, adv as i64);
    }

    /// Where the point is drawn: its anchor plus the phase wiggle.
    pub open spec fn spec_draw_pos(self) -> Vec2 {
        spec_translate(self.pos, spec_polar(self.angle as int, BG_WIGGLE as int))
    }

    fn draw_pos(&self) -> (r: Vec2)
        requires
            self.wf(),
        ensures
            r == self.spec_draw_pos(),
    {
        translate(self.pos, polar(self.angle, BG_WIGGLE))
    }
}

/// What one chaos event may do to a chosen point, teleported up to
/// `times` many times: its anchor moves at most twenty pixels per
/// teleport, and its phase jumps forward by ten degrees or more.
pub open spec fn spec_scattered(a: BgPoint, b: BgPoint, times: int) -> bool {
    &&& -20_000 * times <= b.pos.x - a.pos.x <= 20_000 * times
    &&& -20_000 * times <= b.pos.y - a.pos.y <= 20_000 * times
    &&& exists|sh: int|
        10_000 <= sh < 20_000 * times && b.angle == #[trigger] spec_norm_angle(a.angle + sh)
}

/// Scattering composes: one more teleport on an already scattered point
/// scatters it one step further.
proof fn lemma_scatter_compose(orig: BgPoint, mid: BgPoint, fin: BgPoint, times: int)
    requires
        times >= 1,
        spec_scattered(orig, mid, times),
        spec_scattered(mid, fin, 1),
    ensures
        spec_scattered(orig, fin, times + 1),
{
    let s1 = choose|sh: int|
        10_000 <= sh < 20_000 * times && mid.angle == #[trigger] spec_norm_angle(
            orig.angle + sh,
        );
    let s2 = choose|sh: int| 10_000 <= sh < 20_000 * 1 && fin.angle == #[trigger] spec_norm_angle(
        mid.angle + sh,
    );
    crate::geom::lemma_norm_angle_add_assoc(orig.angle + s1, s2);
    assert(fin.angle == spec_norm_angle(orig.angle + (s1 + s2)));
    assert(20_000 * times + 20_000 == 20_000 * (times + 1)) by (nonlinear_arith);
    assert(10_000 <= s1 + s2 < 20_000 * (times + 1));
}

/// Scattering only loosens with a larger teleport budget.
proof fn lemma_scatter_mono(orig: BgPoint, b: BgPoint, t1: int, t2: int)
    requires
        1 <= t1 <= t2,
        spec_scattered(orig, b, t1),
    ensures
        spec_scattered(orig, b, t2),
{
    let s1 = choose|sh: int|
        10_000 <= sh < 20_000 * t1 && b.angle == #[trigger] spec_norm_angle(orig.angle + sh);
    assert(20_000 * t1 <= 20_000 * t2) by (nonlinear_arith)
        requires
            t1 <= t2,
    ;
    assert(10_000 <= s1 < 20_000 * t2);
}

/// The base-2 logarithm of a bounded value stays well under a turn.
proof fn lemma_log2_mil_small(n: int)
    requires
        1 <= n <= 2_000_000_000_000_000,
    ensures
        0 <= spec_log2_mil(n) <= 10_000_000,
{
    crate::geom::lemma_log2_mil_bounds(n);
}

/// The decorative point cloud behind the playing field.
pub struct Background {
    pub t: i64,
    pub points: Vec<BgPoint>,
    pub color: Rgba,
}

impl Background {
    pub open spec fn wf(self) -> bool {
        self.points@.len() == BG_POINTS && forall|i: int|
            0 <= i < self.points@.len() ==> (#[trigger] self.points@[i]).wf()
    }

    /// A fresh field: points laid out on a spiral around the screen's
    /// center, each with an accumulated random phase.
    pub fn new(rng: &mut rand_xorshift::XorShiftRng) -> (bg: Background)
        ensures
            bg.wf(),
            bg.t == 0,
            bg.color == (Rgba { r: 369, g: 165, b: 325, a: 1000 }),
            forall|i: int|
                0 <= i < bg.points@.len() ==> (#[trigger] bg.points@[i]).pos == spec_translate(
                    Vec2 { x: 650_000, y: 400_000 },
                    spec_polar(spec_norm_angle(10_000 * i), 3000 * i),
                ),
    {
        let center = Vec2 { x: 650_000, y: 400_000 };
        let mut points: Vec<BgPoint> = Vec::new();
        let mut a: i64 = 0;
        let mut i: usize = 0;
        while i < BG_POINTS
            invariant
                0 <= i <= BG_POINTS,
                points@.len() == i,
                0 <= a < TURN,
                center == (Vec2 { x: 650_000, y: 400_000 }),
                forall|j: int| 0 <= j < points@.len() ==> (#[trigger] points@[j]).wf(),
                forall|j: int|
                    0 <= j < points@.len() ==> (#[trigger] points@[j]).pos == spec_translate(
                        Vec2 { x: 650_000, y: 400_000 },
                        spec_polar(spec_norm_angle(10_000 * j), 3000 * j),
                    ),
            decreases BG_POINTS - i,
        {
            let da: i64 = sample_range(rng, 0, 10_000);
            a = norm_angle_add(a, da);
            let spiral_angle: i64 = norm_angle_add(0, 10_000 * (i as i64));
            let pos = translate(center, polar(spiral_angle, 3000 * (i as i64)));
            points.push(BgPoint { pos, angle: a });
            i = i + 1;
        }
        Background { t: 0, points, color: Rgba { r: 369, g: 165, b: 325, a: 1000 } }
    }

    /// Advance every point's phase by the score-driven amount.
    pub fn update(&mut self, score: u64)
        requires
            old(self).wf(),
            score <= crate::SCORE_CAP,
        ensures
            final(self).wf(),
            final(self).t == old(self).t,
            final(self).color == old(self).color,
            final(self).points@.len() == old(self).points@.len(),
            forall|i: int|
                0 <= i < final(self).points@.len() ==> #[trigger] final(self).points@[i] == old(self).points@[i].spec_step(score),
    {
        let n = self.points.len();
        let mut i: usize = 0;
        while i < n
            invariant
                0 <= i <= n,
                n == old(self).points@.len(),
                self.points@.len() == n,
                self.t == old(self).t,
                self.color == old(self).color,
                score <= crate::SCORE_CAP,
                forall|j: int| i <= j < n ==> #[trigger] self.points@[j] == old(self).points@[j],
                forall|j: int| i <= j < n ==> (#[trigger] self.points@[j]).wf(),
                forall|j: int|
                    0 <= j < i ==> #[trigger] self.points@[j] == old(self).points@[j].spec_step(
                        score,
                    ),
                forall|j: int| 0 <= j < i ==> (#[trigger] self.points@[j]).wf(),
            decreases n - i,
        {
            let mut p = self.points[i];
            p.update(score);
            self.points.set(i, p);
            i = i + 1;
        }
    }

    /// A chaos event: four randomly chosen points teleport — every
    /// other point stays exactly where it was, and each chosen point is
    /// scattered within the per-teleport bounds.
    pub fn chaos(&mut self, rng: &mut rand_xorshift::XorShiftRng)
        requires
            old(self).wf(),
        ensures
            final(self).wf(),
            final(self).t == old(self).t,
            final(self).color == old(self).color,
            final(self).points@.len() == old(self).points@.len(),
            exists|picks: Seq<int>|
                picks.len() == 4 && (forall|q: int|
                    0 <= q < picks.len() ==> 0 <= #[trigger] picks[q] < BG_POINTS) && (forall|
                    j: int,
                |
                    0 <= j < old(self).points@.len() && !picks.contains(j) ==> (
                    #[trigger] final(self).points@[j]) == old(self).points@[j]) && (forall|q: int|
                    0 <= q < picks.len() ==> spec_scattered(
                        old(self).points@[#[trigger] picks[q]],
                        final(self).points@[picks[q]],
                        4,
                    )),
    {
        let ghost mut picks: Seq<int> = Seq::empty();
        let mut k: u64 = 0;
        while k < 4
            invariant
                0 <= k <= 4,
                self.wf(),
                old(self).wf(),
                self.t == old(self).t,
                self.color == old(self).color,
                picks.len() == k,
                forall|q: int| 0 <= q < picks.len() ==> 0 <= #[trigger] picks[q] < BG_POINTS,
                forall|j: int|
                    0 <= j < old(self).points@.len() && !picks.contains(j) ==> (
                    #[trigger] self.points@[j]) == old(self).points@[j],
                forall|q: int|
                    0 <= q < picks.len() ==> spec_scattered(
                        old(self).points@[#[trigger] picks[q]],
                        self.points@[picks[q]],
                        k as int,
                    ),
            decreases 4 - k,
        {
            let idx: u32 = rng_range(rng, 0, BG_POINTS as u32);
            let mut p = self.points[idx as usize];
            let ghost before = *self;
            p.teleport(rng);
            self.points.set(idx as usize, p);
            proof {
                let i = idx as int;
                let orig = old(self).points@[i];
                let prev = before.points@[i];
                assert(spec_scattered(prev, self.points@[i], 1));
                if picks.contains(i) {
                    let q0 = choose|q0: int| 0 <= q0 < picks.len() && picks[q0] == i;
                    assert(spec_scattered(orig, prev, k as int));
                    lemma_scatter_compose(orig, prev, self.points@[i], k as int);
                } else {
                    assert(prev == orig);
                    lemma_scatter_mono(orig, self.points@[i], 1, k as int + 1);
                }
                let picks0 = picks;
                picks = picks.push(i);
                assert(picks.len() == picks0.len() + 1);
                assert(picks[picks0.len() as int] == i);
                assert(picks.contains(i)) by {
                    assert(0 <= (picks0.len() as int) < picks.len() && picks[picks0.len() as int]
                        == i);
                }
                assert forall|j: int|
                    0 <= j < old(self).points@.len() && !picks.contains(j) implies (
                #[trigger] self.points@[j]) == old(self).points@[j] by {
                    if picks0.contains(j) {
                        let kk = choose|kk: int| 0 <= kk < picks0.len() && picks0[kk] == j;
                        assert(picks[kk] == j);
                        assert(picks.contains(j));
                    }
                    assert(!picks0.contains(j));
                    assert(j != i);
                    assert(self.points@[j] == before.points@[j]);
                }
                assert forall|q: int|
                    0 <= q < picks.len() implies spec_scattered(
                    old(self).points@[#[trigger] picks[q]],
                    self.points@[picks[q]],
                    (k + 1) as int,
                ) by {
                    if q < picks.len() - 1 {
                        if picks[q] == i {
                            assert(spec_scattered(orig, self.points@[i], k as int + 1));
                        } else {
                            assert(self.points@[picks[q]] == before.points@[picks[q]]);
                            lemma_scatter_mono(
                                old(self).points@[picks[q]],
                                self.points@[picks[q]],
                                k as int,
                                k as int + 1,
                            );
                        }
                    } else {
                        assert(picks[q] == i);
                    }
                }
            }
            k = k + 1;
        }
        proof {
            assert(picks.len() == 4 && (forall|q: int|
                0 <= q < picks.len() ==> 0 <= #[trigger] picks[q] < BG_POINTS) && (forall|j: int|
                0 <= j < old(self).points@.len() && !picks.contains(j) ==> (
                #[trigger] self.points@[j]) == old(self).points@[j]) && (forall|q: int|
                0 <= q < picks.len() ==> spec_scattered(
                    old(self).points@[#[trigger] picks[q]],
                    self.points@[picks[q]],
                    4,
                )));
        }
    }

    /// The path of draw positions the outside layer strokes.
    pub fn draw(&self, _score: u64) -> (r: Vec<Vec2>)
        requires
            self.wf(),
        ensures
            r@.len() == self.points@.len(),
            forall|i: int|
                0 <= i < r@.len() ==> #[trigger] r@[i] == self.points@[i].spec_draw_pos(),
    {
        let n = self.points.len();
        let mut v: Vec<Vec2> = Vec::new();
        let mut i: usize = 0;
        while i < n
            invariant
                0 <= i <= n,
                n == self.points@.len(),
                self.wf(),
                v@.len() == i,
                forall|j: int|
                    0 <= j < v@.len() ==> #[trigger] v@[j] == self.points@[j].spec_draw_pos(),
            decreases n - i,
        {
            let p = &self.points[i];
            v.push(p.draw_pos());
            i = i + 1;
        }
        v
    }
}

} // verus!
