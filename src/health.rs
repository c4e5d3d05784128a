//! Health, armor mitigation and the reward currency.
use vstd::prelude::*;

verus! {

/// `a - b`, clamped at zero.
pub open spec fn sat_sub(a: nat, b: nat) -> nat {
    if a >= b {
        (a - b) as nat
    } else {
        0
    }
}

/// `a + b`, clamped at `u32::MAX`.
pub open spec fn sat_add_u32(a: nat, b: nat) -> nat {
    if a + b > u32::MAX {
        u32::MAX as nat
    } else {
        a + b
    }
}

/// Current and maximum health of an entity.
#[derive(Clone, Copy, Debug, PartialEq, Eq, Structural)]
pub struct HitPoints {
    pub current: u32,
    pub max: u32,
}

impl HitPoints {
    /// The current value never exceeds the maximum.
    pub open spec fn wf(self) -> bool {
        self.current <= self.max
    }

    /// Full health.
    pub fn full(max: u32) -> (r: HitPoints)
        ensures
            r.current == max,
            r.max == max,
            r.wf(),
    {
        HitPoints { current: max, max }
    }

    /// Health with the given current value, clamped to `max`.
    pub fn new(current: u32, max: u32) -> (r: HitPoints)
        ensures
            r.current == if current <= max { current } else { max },
            r.max == max,
            r.wf(),
    {
        HitPoints { current: if current <= max { current } else { max }, max }
    }

    /// Removes `amount` points of health, stopping at zero.
    pub fn apply_damage(&mut self, amount: u32)
        ensures
            final(self).current == sat_sub(old(self).current as nat, amount as nat),
            final(self).max == old(self).max,
            old(self).wf() ==> final(self).wf(),
    {
        self.current = self.current.saturating_sub(amount);
    }
}

/// Damage never raises health and keeps it within `[0, max]`.
pub proof fn lemma_damage_keeps_bounds(hp: HitPoints, amount: u32)
    requires
        hp.wf(),
    ensures
        sat_sub(hp.current as nat, amount as nat) <= hp.current,
        sat_sub(hp.current as nat, amount as nat) <= hp.max,
        (HitPoints {
            current: sat_sub(hp.current as nat, amount as nat) as u32,
            max: hp.max,
        }).wf(),
{
}

/// Base armor rating of an entity.
#[derive(Clone, Copy, Debug, PartialEq, Eq, Structural)]
pub struct Armor(pub u32);

/// Damage that one hit deals: `damage` minus the armor left after the
/// strongest armor reduction, both subtractions clamped at zero.
pub open spec fn mitigated(damage: nat, armor: nat, reduction: nat) -> nat {
    sat_sub(damage, sat_sub(armor, reduction))
}

/// Final damage of a hit of `damage` on `armor`, weakened by `reduction`.
pub fn mitigated_damage(damage: u32, armor: Armor, reduction: u32) -> (r: u32)
    ensures
        r == mitigated(damage as nat, armor.0 as nat, reduction as nat),
{
    let effective = armor.0.saturating_sub(reduction);
    damage.saturating_sub(effective)
}

/// Currency earned by killing enemies.
#[derive(Clone, Copy, Debug, PartialEq, Eq, Structural)]
pub struct Currency {
    pub current: u32,
    pub total_earned: u32,
}

impl Currency {
    pub fn new() -> (r: Currency)
        ensures
            r.current == 0,
            r.total_earned == 0,
    {
        Currency { current: 0, total_earned: 0 }
    }

    /// Adds `amount` to the balance and to the lifetime total, each saturating.
    pub fn reward(&mut self, amount: u32)
        ensures
            final(self).current == sat_add_u32(old(self).current as nat, amount as nat),
            final(self).total_earned == sat_add_u32(
                old(self).total_earned as nat,
                amount as nat,
            ),
    {
        self.current = self.current.saturating_add(amount);
        self.total_earned = self.total_earned.saturating_add(amount);
    }
}

} // verus!
