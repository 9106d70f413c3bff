use vstd::prelude::*;
use crate::enemy::Enemy;
use crate::particles::Particle;
use crate::powerup::PowerUp;
use crate::shot::Shot;

verus! {

/// The shots that survive a tick's liveness pass.
pub open spec fn spec_live_shots(s: Seq<Shot>) -> Seq<Shot> {
    s.filter(|x: Shot| x.alive)
}

/// The enemies that survive a tick's liveness pass.
pub open spec fn spec_live_enemies(s: Seq<Enemy>) -> Seq<Enemy> {
    s.filter(|x: Enemy| x.spec_alive())
}

/// The power-ups that survive a tick's liveness pass.
pub open spec fn spec_live_powerups(s: Seq<PowerUp>) -> Seq<PowerUp> {
    s.filter(|x: PowerUp| x.hits > 0)
}

/// The particles that survive a tick's liveness pass.
pub open spec fn spec_live_particles(s: Seq<Particle>) -> Seq<Particle> {
    s.filter(|x: Particle| x.spec_alive())
}

/// A filter keeps a sequence whose members all satisfy the predicate.
pub proof fn lemma_filter_all<A>(s: Seq<A>, p: spec_fn(A) -> bool)
    requires
        forall|i: int| 0 <= i < s.len() ==> p(#[trigger] s[i]),
    ensures
        s.filter(p) == s,
    decreases s.len(),
{
    reveal(Seq::filter);
    if s.len() == 0 {
        assert(s.filter(p) =~= s);
    } else {
        assert(forall|i: int|
            0 <= i < s.drop_last().len() ==> p(#[trigger] s.drop_last()[i]) && s.drop_last()[i]
                == s[i]);
        lemma_filter_all(s.drop_last(), p);
        assert(p(s.last()));
        assert(s.filter(p) =~= s);
    }
}

/// A filter's survivors keep any property the whole sequence had.
pub proof fn lemma_filter_preserves<A>(s: Seq<A>, p: spec_fn(A) -> bool, q: spec_fn(A) -> bool)
    requires
        forall|i: int| 0 <= i < s.len() ==> q(#[trigger] s[i]),
    ensures
        forall|i: int| 0 <= i < s.filter(p).len() ==> q(#[trigger] s.filter(p)[i]),
    decreases s.len(),
{
    reveal(Seq::filter);
    if s.len() == 0 {
    } else {
        assert(forall|i: int|
            0 <= i < s.drop_last().len() ==> q(#[trigger] s.drop_last()[i]));
        lemma_filter_preserves(s.drop_last(), p, q);
        assert(q(s.last()));
        assert(forall|i: int|
            0 <= i < s.filter(p).len() ==> (#[trigger] s.filter(p)[i]) == s.drop_last().filter(
                p,
            )[i] || s.filter(p)[i] == s.last());
    }
}

/// The liveness filter is idempotent: filtering an already-filtered
/// sequence removes nothing more.
pub proof fn lemma_filter_idempotent<A>(s: Seq<A>, p: spec_fn(A) -> bool)
    ensures
        s.filter(p).filter(p) == s.filter(p),
{
    broadcast use vstd::seq_lib::group_filter_ensures;

    lemma_filter_all(s.filter(p), p);
}

/// Idempotence of the shot liveness pass: running the filter on an
/// already-filtered shot collection is a no-op.
pub proof fn lemma_live_shots_idempotent(s: Seq<Shot>)
    ensures
        spec_live_shots(spec_live_shots(s)) == spec_live_shots(s),
{
    lemma_filter_idempotent(s, |x: Shot| x.alive);
}

/// Idempotence of the enemy liveness pass.
pub proof fn lemma_live_enemies_idempotent(s: Seq<Enemy>)
    ensures
        spec_live_enemies(spec_live_enemies(s)) == spec_live_enemies(s),
{
    lemma_filter_idempotent(s, |x: Enemy| x.spec_alive());
}

/// Idempotence of the power-up liveness pass.
pub proof fn lemma_live_powerups_idempotent(s: Seq<PowerUp>)
    ensures
        spec_live_powerups(spec_live_powerups(s)) == spec_live_powerups(s),
{
    lemma_filter_idempotent(s, |x: PowerUp| x.hits > 0);
}

/// Idempotence of the particle liveness pass.
pub proof fn lemma_live_particles_idempotent(s: Seq<Particle>)
    ensures
        spec_live_particles(spec_live_particles(s)) == spec_live_particles(s),
{
    lemma_filter_idempotent(s, |x: Particle| x.spec_alive());
}

/// Every survivor of the shot pass is flagged alive.
pub proof fn lemma_live_shots_alive(s: Seq<Shot>)
    ensures
        forall|i: int| 0 <= i < spec_live_shots(s).len() ==> (#[trigger] spec_live_shots(s)[i]).alive,
{
    broadcast use vstd::seq_lib::group_filter_ensures;
}

/// Every survivor of the enemy pass has hit points left.
pub proof fn lemma_live_enemies_alive(s: Seq<Enemy>)
    ensures
        forall|i: int|
            0 <= i < spec_live_enemies(s).len() ==> (#[trigger] spec_live_enemies(
                s,
            )[i]).spec_alive(),
{
    broadcast use vstd::seq_lib::group_filter_ensures;
}

/// Every survivor of the power-up pass has bounce budget left.
pub proof fn lemma_live_powerups_alive(s: Seq<PowerUp>)
    ensures
        forall|i: int|
            0 <= i < spec_live_powerups(s).len() ==> (#[trigger] spec_live_powerups(s)[i]).hits
                > 0,
{
    broadcast use vstd::seq_lib::group_filter_ensures;
}

/// Keep only the live shots, in order.
pub fn retain_live_shots(v: &Vec<Shot>) -> (r: Vec<Shot>)
    ensures
        r@ == spec_live_shots(v@),
{
    let mut r: Vec<Shot> = Vec::new();
    let n: usize = v.len();
    let mut i: usize = 0;
    while i < n
        invariant
            0 <= i <= n,
            n == v@.len(),
            r@ == v@.take(i as int).filter(|x: Shot| x.alive),
        decreases n - i,
    {
        let s = v[i];
        proof {
            assert(v@.take(i + 1).drop_last() =~= v@.take(i as int));
            assert(v@.take(i + 1) =~= v@.take(i as int).push(v@[i as int]));
            v@.take(i as int).lemma_filter_push(v@[i as int], |x: Shot| x.alive);
        }
        if s.alive {
            r.push(s);
        }
        i = i + 1;
    }
    proof {
        assert(v@.take(n as int) =~= v@);
    }
    r
}

/// Keep only the live enemies, in order.
pub fn retain_live_enemies(v: &Vec<Enemy>) -> (r: Vec<Enemy>)
    ensures
        r@ == spec_live_enemies(v@),
{
    let mut r: Vec<Enemy> = Vec::new();
    let n: usize = v.len();
    let mut i: usize = 0;
    while i < n
        invariant
            0 <= i <= n,
            n == v@.len(),
            r@ == v@.take(i as int).filter(|x: Enemy| x.spec_alive()),
        decreases n - i,
    {
        let s = v[i];
        proof {
            assert(v@.take(i + 1).drop_last() =~= v@.take(i as int));
            assert(v@.take(i + 1) =~= v@.take(i as int).push(v@[i as int]));
            v@.take(i as int).lemma_filter_push(v@[i as int], |x: Enemy| x.spec_alive());
        }
        if s.alive() {
            r.push(s);
        }
        i = i + 1;
    }
    proof {
        assert(v@.take(n as int) =~= v@);
    }
    r
}

/// Keep only the live power-ups, in order.
pub fn retain_live_powerups(v: &Vec<PowerUp>) -> (r: Vec<PowerUp>)
    ensures
        r@ == spec_live_powerups(v@),
{
    let mut r: Vec<PowerUp> = Vec::new();
    let n: usize = v.len();
    let mut i: usize = 0;
    while i < n
        invariant
            0 <= i <= n,
            n == v@.len(),
            r@ == v@.take(i as int).filter(|x: PowerUp| x.hits > 0),
        decreases n - i,
    {
        let s = v[i];
        proof {
            assert(v@.take(i + 1).drop_last() =~= v@.take(i as int));
            assert(v@.take(i + 1) =~= v@.take(i as int).push(v@[i as int]));
            v@.take(i as int).lemma_filter_push(v@[i as int], |x: PowerUp| x.hits > 0);
        }
        if s.hits > 0 {
            r.push(s);
        }
        i = i + 1;
    }
    proof {
        assert(v@.take(n as int) =~= v@);
    }
    r
}

} // verus!
