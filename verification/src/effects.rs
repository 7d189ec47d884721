//! Short-lived visual feedback entities: hit flashes where a projectile
//! lands (color-keyed by the projectile kind) and explosions where a ship
//! dies. Each advances one sprite frame whenever its repeating timer fires
//! and disappears after its last frame.

use vstd::prelude::*;
use crate::geom::COORD_LIMIT;
use crate::shooting::ProjectileType;
use crate::timer::RepeatTimer;

verus! {

/// Frame period of an explosion animation, in microseconds.
pub const EXPLOSION_FRAME_US: u64 = 19_000;

/// Index of the last explosion frame.
pub const EXPLOSION_LAST_FRAME: usize = 11;

/// Frame period of a hit flash, in microseconds.
pub const HIT_FLASH_FRAME_US: u64 = 30_000;

/// Index of the last hit-flash frame.
pub const HIT_FLASH_LAST_FRAME: usize = 1;

#[derive(Clone, Copy, PartialEq, Eq, Structural, Debug)]
pub enum EffectKind {
    Explosion,
    HitFlash(ProjectileType),
}

/// A feedback animation at a fixed spot.
#[derive(Clone, Copy, PartialEq, Eq, Structural, Debug)]
pub struct Effect {
    pub kind: EffectKind,
    pub frame: usize,
    pub last_frame: usize,
    pub timer: RepeatTimer,
    pub x: i64,
    pub y: i64,
}

impl Effect {
    pub open spec fn wf(self) -> bool {
        &&& self.timer.wf()
        &&& self.frame <= self.last_frame
        &&& -COORD_LIMIT <= self.x <= COORD_LIMIT
        &&& -COORD_LIMIT <= self.y <= COORD_LIMIT
    }
}

/// A just-spawned explosion at the given spot.
pub open spec fn spec_explosion_at(x: i64, y: i64) -> Effect {
    Effect {
        kind: EffectKind::Explosion,
        frame: 0usize,
        last_frame: EXPLOSION_LAST_FRAME,
        timer: RepeatTimer { period_us: EXPLOSION_FRAME_US, elapsed_us: 0u64 },
        x,
        y,
    }
}

/// A just-spawned hit flash keyed by the striking projectile's kind.
pub open spec fn spec_hit_flash_at(t: ProjectileType, x: i64, y: i64) -> Effect {
    Effect {
        kind: EffectKind::HitFlash(t),
        frame: 0usize,
        last_frame: HIT_FLASH_LAST_FRAME,
        timer: RepeatTimer { period_us: HIT_FLASH_FRAME_US, elapsed_us: 0u64 },
        x,
        y,
    }
}

impl Effect {
    pub fn explosion(x: i64, y: i64) -> (e: Effect)
        requires
            -COORD_LIMIT <= x <= COORD_LIMIT,
            -COORD_LIMIT <= y <= COORD_LIMIT,
        ensures
            e == spec_explosion_at(x, y),
            e.wf(),
    {
        Effect {
            kind: EffectKind::Explosion,
            frame: 0,
            last_frame: EXPLOSION_LAST_FRAME,
            timer: RepeatTimer::new(EXPLOSION_FRAME_US),
            x,
            y,
        }
    }

    pub fn hit_flash(t: ProjectileType, x: i64, y: i64) -> (e: Effect)
        requires
            -COORD_LIMIT <= x <= COORD_LIMIT,
            -COORD_LIMIT <= y <= COORD_LIMIT,
        ensures
            e == spec_hit_flash_at(t, x, y),
            e.wf(),
    {
        Effect {
            kind: EffectKind::HitFlash(t),
            frame: 0,
            last_frame: HIT_FLASH_LAST_FRAME,
            timer: RepeatTimer::new(HIT_FLASH_FRAME_US),
            x,
            y,
        }
    }
}

/// One frame for one effect: the timer always advances; when it fires, the
/// sprite steps to its next frame, and from the last frame it disappears.
pub open spec fn spec_animate_one(e: Effect, dt: int) -> Option<Effect> {
    let fired = e.timer.elapsed_us + dt >= e.timer.period_us;
    let ticked = RepeatTimer {
        period_us: e.timer.period_us,
        elapsed_us: ((e.timer.elapsed_us + dt) % (e.timer.period_us as int)) as u64,
    };
    if fired {
        if e.frame == e.last_frame {
            None
        } else {
            Some(Effect { frame: (e.frame + 1) as usize, timer: ticked, ..e })
        }
    } else {
        Some(Effect { timer: ticked, ..e })
    }
}

/// A whole frame of animation: every effect advanced, finished ones gone.
pub open spec fn spec_animated(s: Seq<Effect>, dt: int) -> Seq<Effect>
    decreases s.len(),
{
    if s.len() == 0 {
        Seq::<Effect>::empty()
    } else {
        let prev = spec_animated(s.drop_last(), dt);
        match spec_animate_one(s.last(), dt) {
            Some(e) => prev.push(e),
            None => prev,
        }
    }
}

/// Advance every feedback animation and drop the ones past their last frame.
pub fn animate_sprite(effects: &mut Vec<Effect>, dt: u64)
    requires
        forall|i: int| 0 <= i < old(effects)@.len() ==> (#[trigger] old(effects)@[i]).wf(),
        dt <= crate::geom::DT_LIMIT,
    ensures
        final(effects)@ == spec_animated(old(effects)@, dt as int),
        forall|i: int| 0 <= i < final(effects)@.len() ==> (#[trigger] final(effects)@[i]).wf(),
{
    let mut kept: Vec<Effect> = Vec::new();
    let n = effects.len();
    let mut i: usize = 0;
    proof {
        assert(effects@.subrange(0, 0) =~= Seq::<Effect>::empty());
    }
    while i < n
        invariant
            n == effects@.len(),
            i <= n,
            *effects == *old(effects),
            dt <= crate::geom::DT_LIMIT,
            forall|k: int| 0 <= k < effects@.len() ==> (#[trigger] effects@[k]).wf(),
            kept@ == spec_animated(effects@.subrange(0, i as int), dt as int),
            forall|k: int| 0 <= k < kept@.len() ==> (#[trigger] kept@[k]).wf(),
        decreases n - i,
    {
        let mut e = effects[i];
        let ghost e0 = e;
        let fired = e.timer.tick(dt);
        if fired {
            if e.frame == e.last_frame {
                // the animation ends here; nothing is kept
            } else {
                e.frame = e.frame + 1;
                kept.push(e);
            }
        } else {
            kept.push(e);
        }
        proof {
            assert(effects@.subrange(0, i as int + 1).drop_last() =~= effects@.subrange(
                0,
                i as int,
            ));
            assert(effects@.subrange(0, i as int + 1).last() == e0);
        }
        i = i + 1;
    }
    proof {
        assert(effects@.subrange(0, n as int) =~= effects@);
    }
    *effects = kept;
}

} // verus!
