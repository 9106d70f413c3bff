use vstd::prelude::*;
use vstd::arithmetic::div_mod::lemma_sub_mod_noop;
use crate::enemy::{Enemy, HitAcc, spec_resolve_hits, lemma_hits_props};
use crate::geom::{Vec2, spec_norm_angle, spec_translate, spec_in_screen, TURN};
use crate::particles::Particle;
use crate::player::Player;
use crate::powerup::PowerUp;
use crate::shot::Shot;

verus! {

/// Determinism of the simulation: every entity's tick is a pure
/// function of its prior state, the samples it is handed, and the
/// sibling collections it reads — equal states and inputs give equal
/// successors, so two runs from one seed and one input sequence agree
/// trajectory for trajectory.
pub proof fn lemma_ticks_deterministic(
    p1: Particle,
    p2: Particle,
    s1: Shot,
    s2: Shot,
    e1: Enemy,
    e2: Enemy,
    u1: PowerUp,
    u2: PowerUp,
    pl1: Player,
    pl2: Player,
    player_pos: Vec2,
    mouse: Vec2,
    shots: Seq<Shot>,
)
    requires
        p1 == p2,
        s1 == s2,
        e1 == e2,
        u1 == u2,
        pl1 == pl2,
    ensures
        p1.spec_step() == p2.spec_step(),
        s1.spec_step() == s2.spec_step(),
        e1.spec_move(player_pos) == e2.spec_move(player_pos),
        spec_resolve_hits(e1.spec_move(player_pos), shots) == spec_resolve_hits(
            e2.spec_move(player_pos),
            shots,
        ),
        u1.spec_step(pl1) == u2.spec_step(pl2),
        pl1.spec_move(mouse) == pl2.spec_move(mouse),
{
}

/// A split's two children are flung at directions exactly sixty
/// degrees apart: thirty degrees to either side of the killing shot's
/// direction.
pub proof fn lemma_split_angles(a: int)
    ensures
        (spec_norm_angle(a + 30_000) - spec_norm_angle(a - 30_000)) % (TURN as int) == 60_000,
{
    lemma_sub_mod_noop(a + 30_000, a - 30_000, TURN as int);
    assert((a + 30_000 - (a - 30_000)) % (TURN as int) == 60_000);
}

/// A stepped shot stays exactly when it was alive, still lies within
/// the screen extended by the fixed margin, and has pierce left; the
/// liveness cull then removes it the moment either fails.
pub proof fn lemma_shot_liveness(s: Shot)
    ensures
        s.spec_step().alive <==> (s.alive && spec_in_screen(spec_translate(s.pos, s.vel))
            && s.pierce > 0),
{
}

/// Over one enemy's whole pass, the shot collection keeps its length
/// and order and no shot's pierce ever rises.
pub proof fn lemma_pierce_monotone(e: Enemy, shots: Seq<Shot>)
    requires
        e.wf(),
        forall|i: int| 0 <= i < shots.len() ==> (#[trigger] shots[i]).wf(),
    ensures
        spec_resolve_hits(e, shots).shots.len() == shots.len(),
        forall|i: int|
            0 <= i < shots.len() ==> (#[trigger] spec_resolve_hits(e, shots).shots[i]).pierce
                <= shots[i].pierce,
{
    let init = HitAcc {
        life: e.life as int,
        knockback: e.knockback,
        hit: false,
        hit_angle: 0,
        shots: Seq::empty(),
        hits: 0,
        emitted: 0,
    };
    lemma_hits_props(e.radius as int, e.pos, init, shots, shots.len() as int);
    assert forall|i: int| 0 <= i < shots.len() implies (#[trigger] spec_resolve_hits(
        e,
        shots,
    ).shots[i]).pierce <= shots[i].pierce by {
        let acc = spec_resolve_hits(e, shots);
        assert(acc.shots[0 + i] == shots[i] || (shots[i].pierce > 0 && acc.shots[0 + i]
            == (Shot { pierce: (shots[i].pierce - 1) as i64, ..shots[i] })));
    }
}

} // verus!
