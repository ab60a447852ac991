//! Cooldown Tracker: once per tick, every remaining cooldown is decreased
//! by the elapsed time and floored at zero.

use vstd::prelude::*;

use crate::state::Npc;
use crate::state::NpcModel;
use crate::state::Player;
use crate::state::PlayerModel;

verus! {

/// What one tick of decay leaves of a cooldown: `c - dt`, floored at zero.
pub open spec fn cooldown_next(c: int, dt: int) -> int {
    if c >= dt {
        c - dt
    } else {
        0
    }
}

/// What `n` ticks of decay, each of `dt` milliseconds with no action
/// taken in between, leave of a cooldown.
pub open spec fn cooldown_after_ticks(c: int, dt: int, n: nat) -> int
    decreases n,
{
    if n == 0 {
        c
    } else {
        cooldown_next(cooldown_after_ticks(c, dt, (n - 1) as nat), dt)
    }
}

/// Decaying a cooldown tick by tick is the same as subtracting the whole
/// elapsed time at once and flooring at zero: after `n` ticks of `dt`
/// each with no action taken, `max(0, c - n * dt)` is left.
pub proof fn lemma_cooldown_after_ticks(c: int, dt: int, n: nat)
    requires
        c >= 0,
        dt >= 0,
    ensures
        cooldown_after_ticks(c, dt, n) == if c >= n * dt {
            c - n * dt
        } else {
            0
        },
    decreases n,
{
    if n == 0 {
        assert(n * dt == 0) by (nonlinear_arith)
            requires
                n == 0,
        ;
    } else {
        lemma_cooldown_after_ticks(c, dt, (n - 1) as nat);
        assert((n - 1) * dt == n * dt - dt) by (nonlinear_arith);
        assert(n * dt >= (n - 1) * dt) by (nonlinear_arith)
            requires
                dt >= 0,
                n >= 1,
        ;
    }
}

/// Applies one tick of decay to a single cooldown value.
pub fn tick_cooldown(cooldown_ms: &mut u64, dt_ms: u64)
    ensures
        *final(cooldown_ms) == cooldown_next(*old(cooldown_ms) as int, dt_ms as int),
{
    if *cooldown_ms >= dt_ms {
        *cooldown_ms = *cooldown_ms - dt_ms;
    } else {
        *cooldown_ms = 0;
    }
}

/// Applies one tick of decay to every entity bearing a cooldown: the
/// player and every NPC. Nothing else about them changes.
pub fn update_cooldown(player: &mut Player, npcs: &mut Vec<Npc>, dt_ms: u64)
    ensures
        final(player)@ == (PlayerModel {
            cooldown_ms: cooldown_next(old(player)@.cooldown_ms, dt_ms as int),
            ..old(player)@
        }),
        final(npcs)@.len() == old(npcs)@.len(),
        forall|i: int|
            0 <= i < old(npcs)@.len() ==> final(npcs)@[i]@ == (NpcModel {
                cooldown_ms: cooldown_next(old(npcs)@[i]@.cooldown_ms, dt_ms as int),
                ..old(npcs)@[i]@
            }),
{
    let ghost p0 = player@;
    let ghost ns0 = npcs@;
    tick_cooldown(&mut player.cooldown_ms, dt_ms);
    assert(player@ =~= (PlayerModel {
        cooldown_ms: cooldown_next(p0.cooldown_ms, dt_ms as int),
        ..p0
    }));
    let n = npcs.len();
    let mut i: usize = 0;
    while i < n
        invariant
            n == npcs@.len(),
            n == ns0.len(),
            i <= n,
            forall|j: int|
                0 <= j < i ==> npcs@[j]@ == (NpcModel {
                    cooldown_ms: cooldown_next(ns0[j]@.cooldown_ms, dt_ms as int),
                    ..ns0[j]@
                }),
            forall|j: int| i <= j < n ==> npcs@[j] == ns0[j],
        decreases n - i,
    {
        let ghost before = npcs@[i as int]@;
        tick_cooldown(&mut npcs[i].cooldown_ms, dt_ms);
        assert(npcs@[i as int]@ =~= (NpcModel {
            cooldown_ms: cooldown_next(before.cooldown_ms, dt_ms as int),
            ..before
        }));
        i = i + 1;
    }
}

} // verus!
