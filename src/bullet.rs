//! Homing projectiles: flight toward a target and the damage of an impact.
use vstd::prelude::*;
use crate::geometry::{move_toward, step_toward, Point};
use crate::health::{mitigated, sat_sub, Armor, HitPoints};
use crate::status::{max_sub_armor, StatusEffect, StatusEffects};

verus! {

/// Spin of a flying projectile, in milliradians per millisecond (clockwise).
pub const SPIN_MRAD_PER_MS: u64 = 10;

/// A full turn, in milliradians (rounded).
pub const FULL_TURN_MRAD: u64 = 6283;

/// A projectile homing in on the enemy whose id is `target`.
#[derive(Clone, Copy, Debug, PartialEq, Eq, Structural)]
pub struct Bullet {
    pub position: Point,
    pub target: u64,
    pub damage: u32,
    /// Pixels per second.
    pub speed: u32,
    /// Effect handed to the target on impact, at most once.
    pub status_effect: Option<StatusEffect>,
    /// Clockwise rotation, in milliradians below a full turn.
    pub spin_mrad: u32,
}

impl Bullet {
    pub open spec fn wf(self) -> bool {
        self.spin_mrad < FULL_TURN_MRAD
    }
}

/// A new projectile at `position`; the target is not checked here.
pub fn spawn(
    position: Point,
    target: u64,
    damage: u32,
    speed: u32,
    status_effect: Option<StatusEffect>,
) -> (r: Bullet)
    ensures
        r == (Bullet { position, target, damage, speed, status_effect, spin_mrad: 0 }),
        r.wf(),
{
    Bullet { position, target, damage, speed, status_effect, spin_mrad: 0 }
}

/// Distance a projectile covers in `elapsed_ms` milliseconds, in
/// thousandths of a pixel.
pub open spec fn flight_step(b: Bullet, elapsed_ms: u32) -> nat {
    b.speed as nat * elapsed_ms as nat
}

/// Flies `bullet` toward `target_pos` for `elapsed_ms`. Returns whether it
/// reaches the target this tick; if not, it moves and spins, and if so it
/// stays where it is for the impact.
pub fn advance(bullet: &mut Bullet, target_pos: Point, elapsed_ms: u32) -> (arrived: bool)
    requires
        old(bullet).wf(),
    ensures
        final(bullet).wf(),
        arrived == step_toward(old(bullet).position, target_pos, flight_step(*old(bullet), elapsed_ms)).1,
        arrived ==> *final(bullet) == *old(bullet),
        !arrived ==> *final(bullet) == (Bullet {
            position: step_toward(
                old(bullet).position,
                target_pos,
                flight_step(*old(bullet), elapsed_ms),
            ).0,
            spin_mrad: ((old(bullet).spin_mrad + SPIN_MRAD_PER_MS * elapsed_ms)
                % FULL_TURN_MRAD as int) as u32,
            ..*old(bullet)
        }),
{
    assert(bullet.speed as nat * elapsed_ms as nat <= 0xffff_ffff * 0xffff_ffff) by (nonlinear_arith)
        requires
            bullet.speed <= 0xffff_ffff,
            elapsed_ms <= 0xffff_ffff,
    ;
    let step: u64 = bullet.speed as u64 * elapsed_ms as u64;
    let (p, arrived) = move_toward(bullet.position, target_pos, step);
    if !arrived {
        bullet.position = p;
        bullet.spin_mrad = ((bullet.spin_mrad as u64 + SPIN_MRAD_PER_MS * elapsed_ms as u64)
            % FULL_TURN_MRAD) as u32;
    }
    arrived
}

/// Resolves an impact: the damage, less the target's armor after its strongest
/// armor reduction (both clamped at zero), comes off the target's health, and
/// the projectile's effect, if any, moves onto the target. The reduction is
/// read before that effect lands.
pub fn strike(bullet: &mut Bullet, hp: &mut HitPoints, armor: Armor, effects: &mut StatusEffects)
    ensures
        final(hp).current == sat_sub(
            old(hp).current as nat,
            mitigated(old(bullet).damage as nat, armor.0 as nat, max_sub_armor(old(effects)@)),
        ),
        final(hp).max == old(hp).max,
        final(effects)@ == match old(bullet).status_effect {
            Some(e) => old(effects)@.push(e),
            None => old(effects)@,
        },
        *final(bullet) == (Bullet { status_effect: None, ..*old(bullet) }),
{
    let reduction = effects.get_max_sub_armor();
    if let Some(effect) = bullet.status_effect.take() {
        effects.push(effect);
    }
    let damage = crate::health::mitigated_damage(bullet.damage, armor, reduction);
    hp.apply_damage(damage);
}

} // verus!
