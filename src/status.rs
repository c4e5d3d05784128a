//! Timed status effects and their aggregation.
use vstd::prelude::*;

verus! {

/// What a status effect does while it lasts.
#[derive(Clone, Copy, Debug, PartialEq, Eq, Structural)]
pub enum StatusEffectKind {
    /// Lowers the effective armor of its bearer by the amount.
    SubArmor(u32),
    /// Adds the amount to damage dealt to its bearer.
    AddDamage(u32),
}

/// A status effect with the time it has left, in milliseconds.
#[derive(Clone, Copy, Debug, PartialEq, Eq, Structural)]
pub struct StatusEffect {
    pub kind: StatusEffectKind,
    pub remaining_ms: u32,
}

/// Armor reduction of one effect (zero for other kinds).
pub open spec fn sub_armor_of(e: StatusEffect) -> nat {
    match e.kind {
        StatusEffectKind::SubArmor(a) => a as nat,
        StatusEffectKind::AddDamage(_) => 0,
    }
}

/// Damage bonus of one effect (zero for other kinds).
pub open spec fn add_damage_of(e: StatusEffect) -> nat {
    match e.kind {
        StatusEffectKind::SubArmor(_) => 0,
        StatusEffectKind::AddDamage(a) => a as nat,
    }
}

/// Largest armor reduction among the effects, or zero.
pub open spec fn max_sub_armor(s: Seq<StatusEffect>) -> nat
    decreases s.len(),
{
    if s.len() == 0 {
        0
    } else {
        let rest = max_sub_armor(s.drop_last());
        let a = sub_armor_of(s.last());
        if rest < a {
            a
        } else {
            rest
        }
    }
}

/// Sum of the damage bonuses of the effects.
pub open spec fn total_add_damage(s: Seq<StatusEffect>) -> nat
    decreases s.len(),
{
    if s.len() == 0 {
        0
    } else {
        total_add_damage(s.drop_last()) + add_damage_of(s.last())
    }
}

/// `n`, clamped at `u32::MAX`.
pub open spec fn clamp_u32(n: nat) -> nat {
    if n > u32::MAX {
        u32::MAX as nat
    } else {
        n
    }
}

/// `max_sub_armor` bounds every reduction and is zero or one of them.
pub proof fn lemma_max_sub_armor_is_max(s: Seq<StatusEffect>)
    ensures
        forall|i: int| 0 <= i < s.len() ==> sub_armor_of(#[trigger] s[i]) <= max_sub_armor(s),
        max_sub_armor(s) == 0 || exists|i: int|
            0 <= i < s.len() && sub_armor_of(#[trigger] s[i]) == max_sub_armor(s),
    decreases s.len(),
{
    if s.len() > 0 {
        let p = s.drop_last();
        lemma_max_sub_armor_is_max(p);
        assert forall|i: int| 0 <= i < s.len() implies sub_armor_of(#[trigger] s[i])
            <= max_sub_armor(s) by {
            if i < s.len() - 1 {
                assert(s[i] == p[i]);
            }
        }
        if max_sub_armor(s) != 0 {
            if max_sub_armor(s) == sub_armor_of(s.last()) {
                assert(sub_armor_of(s[s.len() - 1]) == max_sub_armor(s));
            } else {
                let i = choose|i: int| 0 <= i < p.len() && sub_armor_of(#[trigger] p[i])
                    == max_sub_armor(p);
                assert(s[i] == p[i]);
            }
        }
    }
}

/// The strongest armor reduction does not depend on the order of the effects:
/// two stores holding the same effects, in any order, agree on it.
pub proof fn lemma_max_sub_armor_order_independent(s1: Seq<StatusEffect>, s2: Seq<StatusEffect>)
    requires
        s1.to_multiset() == s2.to_multiset(),
    ensures
        max_sub_armor(s1) == max_sub_armor(s2),
{
    broadcast use vstd::seq_lib::group_to_multiset_ensures;

    lemma_max_sub_armor_is_max(s1);
    lemma_max_sub_armor_is_max(s2);
    if max_sub_armor(s1) < max_sub_armor(s2) {
        let i = choose|i: int| 0 <= i < s2.len() && sub_armor_of(#[trigger] s2[i])
            == max_sub_armor(s2);
        assert(s2.contains(s2[i]));
        assert(s2.to_multiset().count(s2[i]) > 0);
        assert(s1.to_multiset().count(s2[i]) > 0);
        let j = choose|j: int| 0 <= j < s1.len() && s1[j] == s2[i];
        assert(sub_armor_of(s1[j]) <= max_sub_armor(s1));
    } else if max_sub_armor(s2) < max_sub_armor(s1) {
        let i = choose|i: int| 0 <= i < s1.len() && sub_armor_of(#[trigger] s1[i])
            == max_sub_armor(s1);
        assert(s1.contains(s1[i]));
        assert(s1.to_multiset().count(s1[i]) > 0);
        assert(s2.to_multiset().count(s1[i]) > 0);
        let j = choose|j: int| 0 <= j < s2.len() && s2[j] == s1[i];
        assert(sub_armor_of(s2[j]) <= max_sub_armor(s2));
    }
}

/// The status effects on one entity.
#[derive(Clone, Debug)]
pub struct StatusEffects(pub Vec<StatusEffect>);

impl View for StatusEffects {
    type V = Seq<StatusEffect>;

    open spec fn view(&self) -> Seq<StatusEffect> {
        self.0@
    }
}

impl StatusEffects {
    pub fn new() -> (r: StatusEffects)
        ensures
            r@ == Seq::<StatusEffect>::empty(),
    {
        StatusEffects(Vec::new())
    }

    /// Adds an effect to the store.
    pub fn push(&mut self, effect: StatusEffect)
        ensures
            final(self)@ == old(self)@.push(effect),
    {
        self.0.push(effect);
    }

    /// The largest armor reduction among the effects, zero when there is none.
    pub fn get_max_sub_armor(&self) -> (r: u32)
        ensures
            r == max_sub_armor(self@),
    {
        let mut best: u32 = 0;
        let mut i: usize = 0;
        while i < self.0.len()
            invariant
                i <= self.0.len(),
                best == max_sub_armor(self@.subrange(0, i as int)),
            decreases self.0.len() - i,
        {
            assert(self@.subrange(0, i + 1).drop_last() == self@.subrange(0, i as int));
            if let StatusEffectKind::SubArmor(amt) = self.0[i].kind {
                if best < amt {
                    best = amt;
                }
            }
            i = i + 1;
        }
        assert(self@.subrange(0, i as int) == self@);
        best
    }

    /// The sum of the damage bonuses, saturating at `u32::MAX`.
    pub fn get_total_add_damage(&self) -> (r: u32)
        ensures
            r == clamp_u32(total_add_damage(self@)),
    {
        let mut total: u32 = 0;
        let mut i: usize = 0;
        while i < self.0.len()
            invariant
                i <= self.0.len(),
                total == clamp_u32(total_add_damage(self@.subrange(0, i as int))),
            decreases self.0.len() - i,
        {
            assert(self@.subrange(0, i + 1).drop_last() == self@.subrange(0, i as int));
            if let StatusEffectKind::AddDamage(amt) = self.0[i].kind {
                total = total.saturating_add(amt);
            }
            i = i + 1;
        }
        assert(self@.subrange(0, i as int) == self@);
        total
    }

    /// Lets `elapsed_ms` pass: each effect loses that much time, and those
    /// whose time runs out are removed. The others keep their order.
    pub fn tick(&mut self, elapsed_ms: u32)
        ensures
            final(self)@ == aged(old(self)@, elapsed_ms as nat),
    {
        let mut kept: Vec<StatusEffect> = Vec::new();
        let mut i: usize = 0;
        while i < self.0.len()
            invariant
                i <= self.0.len(),
                kept@ == aged(self@.subrange(0, i as int), elapsed_ms as nat),
            decreases self.0.len() - i,
        {
            assert(self@.subrange(0, i + 1).drop_last() == self@.subrange(0, i as int));
            let e = self.0[i];
            if e.remaining_ms > elapsed_ms {
                kept.push(StatusEffect { kind: e.kind, remaining_ms: e.remaining_ms - elapsed_ms });
            }
            i = i + 1;
        }
        assert(self@.subrange(0, i as int) == self@);
        self.0 = kept;
    }
}

/// The effects that outlast `elapsed` milliseconds, each with that time taken off.
pub open spec fn aged(s: Seq<StatusEffect>, elapsed: nat) -> Seq<StatusEffect>
    decreases s.len(),
{
    if s.len() == 0 {
        s
    } else {
        let rest = aged(s.drop_last(), elapsed);
        let e = s.last();
        if e.remaining_ms > elapsed {
            rest.push(StatusEffect { kind: e.kind, remaining_ms: (e.remaining_ms - elapsed) as u32 })
        } else {
            rest
        }
    }
}

} // verus!
