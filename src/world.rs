//! The simulation: enemies, projectiles, goals and currency, advanced one
//! tick at a time in a fixed order of stages.
use vstd::prelude::*;
use crate::bullet::{advance, flight_step, strike, Bullet, FULL_TURN_MRAD, SPIN_MRAD_PER_MS};
use crate::enemy::{
    animate, clip_length, clip_slot, death, deal_damage, frame_modulus, goals_after,
    indicators_for, motion, movement, next_frame, status_effect_appearance, step_len,
    AnimationData, AnimationState, Direction, EnemyAttackTimer, EnemyState,
    StatusIndicators, KILL_REWARD,
};
use crate::geometry::{step_toward, Point};
use crate::health::{mitigated, sat_add_u32, sat_sub, Armor, Currency, HitPoints};
use crate::healthbar::{BarAppearance, HealthBar};
use crate::status::{aged, max_sub_armor, StatusEffect, StatusEffects};
use crate::timer::Timer;

verus! {

/// An enemy and everything attached to it.
#[derive(Clone, Debug)]
pub struct Enemy {
    pub id: u64,
    pub state: EnemyState,
    pub anim: AnimationState,
    pub direction: Direction,
    pub position: Point,
    /// Pixels per second.
    pub speed: u32,
    pub hp: HitPoints,
    pub armor: Armor,
    pub effects: StatusEffects,
    pub attack_timer: EnemyAttackTimer,
    pub frame_timer: Timer,
    pub sprite_index: u64,
    pub healthbar: HealthBar,
    pub indicators: StatusIndicators,
    /// Set when the enemy's health was written during the current tick.
    pub hp_changed: bool,
}

/// An enemy as a mathematical value.
pub struct EnemyView {
    pub id: u64,
    pub name: Seq<char>,
    pub tick: u32,
    pub path: Seq<Point>,
    pub path_index: usize,
    pub anim: AnimationState,
    pub direction: Direction,
    pub position: Point,
    pub speed: u32,
    pub hp: HitPoints,
    pub armor: Armor,
    pub effects: Seq<StatusEffect>,
    pub attack_timer: Timer,
    pub frame_timer: Timer,
    pub sprite_index: u64,
    pub healthbar: HealthBar,
    pub indicators: StatusIndicators,
    pub hp_changed: bool,
}

impl EnemyView {
    /// Health within its maximum, and both timers well formed.
    pub open spec fn sound(self) -> bool {
        &&& self.hp.wf()
        &&& self.attack_timer.wf()
        &&& self.frame_timer.wf()
    }

    /// The indicators agree with the behavior and the effects.
    pub open spec fn settled(self) -> bool {
        self.indicators == indicators_for(self.anim, self.effects)
    }
}

impl View for Enemy {
    type V = EnemyView;

    open spec fn view(&self) -> EnemyView {
        EnemyView {
            id: self.id,
            name: self.state.name@,
            tick: self.state.tick,
            path: self.state.path@,
            path_index: self.state.path_index,
            anim: self.anim,
            direction: self.direction,
            position: self.position,
            speed: self.speed,
            hp: self.hp,
            armor: self.armor,
            effects: self.effects@,
            attack_timer: self.attack_timer.0,
            frame_timer: self.frame_timer,
            sprite_index: self.sprite_index,
            healthbar: self.healthbar,
            indicators: self.indicators,
            hp_changed: self.hp_changed,
        }
    }
}

impl Enemy {
    pub open spec fn wf(&self) -> bool {
        self@.sound()
    }

    /// A new enemy at the start of `path`, idle and facing right. Its health
    /// counts as just written when it is zero, so that the next death check
    /// sees it.
    pub fn new(
        id: u64,
        name: String,
        path: Vec<Point>,
        speed: u32,
        hp: HitPoints,
        armor: Armor,
        attack_period_ms: u32,
        frame_period_ms: u32,
        healthbar: HealthBar,
    ) -> (r: Enemy)
        requires
            hp.wf(),
            attack_period_ms > 0,
            frame_period_ms > 0,
        ensures
            r.wf(),
            r@.settled(),
            r@ == (EnemyView {
                id,
                name: name@,
                tick: 0,
                path: path@,
                path_index: 0,
                anim: AnimationState::Idle,
                direction: Direction::Right,
                position: if path@.len() > 0 {
                    path@[0]
                } else {
                    Point { x: 0, y: 0 }
                },
                speed,
                hp,
                armor,
                effects: Seq::empty(),
                attack_timer: Timer { elapsed_ms: 0, duration_ms: attack_period_ms },
                frame_timer: Timer { elapsed_ms: 0, duration_ms: frame_period_ms },
                sprite_index: 0,
                healthbar,
                indicators: StatusIndicators { up: false, down: false },
                hp_changed: hp.current == 0,
            }),
    {
        let position = if path.len() > 0 { path[0] } else { Point { x: 0, y: 0 } };
        let r = Enemy {
            id,
            state: EnemyState { name, tick: 0, path, path_index: 0 },
            anim: AnimationState::Idle,
            direction: Direction::Right,
            position,
            speed,
            hp,
            armor,
            effects: StatusEffects::new(),
            attack_timer: EnemyAttackTimer(Timer::from_millis(attack_period_ms)),
            frame_timer: Timer::from_millis(frame_period_ms),
            sprite_index: 0,
            healthbar,
            indicators: StatusIndicators { up: false, down: false },
            hp_changed: hp.current == 0,
        };
        assert(crate::status::max_sub_armor(Seq::<StatusEffect>::empty()) == 0);
        assert(crate::status::total_add_damage(Seq::<StatusEffect>::empty()) == 0);
        r
    }

    /// How the enemy's health bar looks now.
    pub fn bar_appearance(&self) -> (r: BarAppearance)
        ensures
            r.color == crate::healthbar::color_of(self.healthbar, self.hp),
            r.background_visible == !crate::healthbar::is_hidden(self.healthbar, self.hp),
            r.width == crate::healthbar::width_of(self.healthbar, self.hp),
            r.width + r.inset == self.healthbar.width,
    {
        crate::healthbar::update(&self.healthbar, &self.hp)
    }
}

/// The views of a sequence of enemies.
pub open spec fn views(enemies: Seq<Enemy>) -> Seq<EnemyView> {
    enemies.map_values(|e: Enemy| e@)
}

/// The ids of the enemies, in order.
pub open spec fn ids(enemies: Seq<EnemyView>) -> Seq<u64> {
    enemies.map_values(|e: EnemyView| e.id)
}

/// Index of the first occurrence of `id`, if any.
pub open spec fn lookup(ids: Seq<u64>, id: u64) -> Option<int> {
    if exists|i: int| 0 <= i < ids.len() && ids[i] == id {
        Some(
            choose|i: int|
                0 <= i < ids.len() && ids[i] == id && forall|j: int| 0 <= j < i ==> ids[j] != id,
        )
    } else {
        None
    }
}

proof fn lemma_first_exists(ids: Seq<u64>, id: u64, w: int)
    requires
        0 <= w < ids.len(),
        ids[w] == id,
    ensures
        exists|i: int|
            0 <= i < ids.len() && ids[i] == id && forall|j: int| 0 <= j < i ==> ids[j] != id,
    decreases w,
{
    if exists|j: int| 0 <= j < w && ids[j] == id {
        let j = choose|j: int| 0 <= j < w && ids[j] == id;
        lemma_first_exists(ids, id, j);
    } else {
        assert(0 <= w < ids.len() && ids[w] == id && forall|j: int| 0 <= j < w ==> ids[j] != id);
    }
}

proof fn lemma_lookup(ids: Seq<u64>, id: u64)
    ensures
        match lookup(ids, id) {
            Some(i) => 0 <= i < ids.len() && ids[i] == id,
            None => forall|i: int| 0 <= i < ids.len() ==> ids[i] != id,
        },
{
    if exists|i: int| 0 <= i < ids.len() && ids[i] == id {
        let w = choose|i: int| 0 <= i < ids.len() && ids[i] == id;
        lemma_first_exists(ids, id, w);
    }
}

// ---- movement and attack ----

/// Where an enemy's behavior, facing, path index and position go in one tick.
pub open spec fn moved(e: EnemyView, elapsed_ms: u32) -> (AnimationState, Direction, nat, Point) {
    motion(e.anim, e.direction, e.path, e.path_index as nat, e.position, step_len(e.speed, elapsed_ms))
}

/// Whether enemy `e` strikes the goals this tick: it attacks after moving and
/// its attack timer completes.
pub open spec fn fires(e: EnemyView, elapsed_ms: u32) -> bool {
    moved(e, elapsed_ms).0 == AnimationState::Attacking && e.attack_timer.elapsed_ms + elapsed_ms
        >= e.attack_timer.duration_ms
}

/// How many of the first `n` enemies strike the goals this tick.
pub open spec fn hits(s: Seq<EnemyView>, elapsed_ms: u32, n: nat) -> nat
    decreases n,
{
    if n == 0 {
        0
    } else {
        hits(s, elapsed_ms, (n - 1) as nat) + if fires(s[n - 1], elapsed_ms) {
            1nat
        } else {
            0nat
        }
    }
}

/// An enemy after one tick of movement and attack: it moves as `motion`
/// says, and its attack timer runs while it attacks.
pub open spec fn stepped(e: EnemyView, elapsed_ms: u32) -> EnemyView {
    let m = moved(e, elapsed_ms);
    let t = e.attack_timer;
    EnemyView {
        anim: m.0,
        direction: m.1,
        path_index: m.2 as usize,
        position: m.3,
        attack_timer: if m.0 == AnimationState::Attacking {
            Timer {
                elapsed_ms: ((t.elapsed_ms + elapsed_ms) % (t.duration_ms as int)) as u32,
                duration_ms: t.duration_ms,
            }
        } else {
            t
        },
        ..e
    }
}

pub open spec fn step_all(s: Seq<EnemyView>, elapsed_ms: u32) -> Seq<EnemyView> {
    s.map_values(|e: EnemyView| stepped(e, elapsed_ms))
}

// ---- projectiles ----

/// The enemy `e` once projectile `b` has hit it: health less the mitigated
/// damage, the projectile's effect added, and the change flagged.
pub open spec fn struck(e: EnemyView, b: Bullet) -> EnemyView {
    EnemyView {
        hp: HitPoints {
            current: sat_sub(
                e.hp.current as nat,
                mitigated(b.damage as nat, e.armor.0 as nat, max_sub_armor(e.effects)),
            ) as u32,
            max: e.hp.max,
        },
        effects: match b.status_effect {
            Some(x) => e.effects.push(x),
            None => e.effects,
        },
        hp_changed: true,
        ..e
    }
}

/// What one tick of flight does to projectile `b` aimed at `target`.
pub open spec fn flown(b: Bullet, target: Point, elapsed_ms: u32) -> Bullet {
    Bullet {
        position: step_toward(b.position, target, flight_step(b, elapsed_ms)).0,
        spin_mrad: ((b.spin_mrad + SPIN_MRAD_PER_MS * elapsed_ms) % FULL_TURN_MRAD as int) as u32,
        ..b
    }
}

/// One tick of projectile `b`: the enemies afterwards, and the projectile if
/// it is still in flight. A projectile whose target is gone is dropped and
/// changes nothing; one that reaches its target hits it and is dropped.
pub open spec fn bullet_step(s: Seq<EnemyView>, b: Bullet, elapsed_ms: u32) -> (
    Seq<EnemyView>,
    Option<Bullet>,
) {
    match lookup(ids(s), b.target) {
        None => (s, None),
        Some(i) => {
            let target = s[i].position;
            if step_toward(b.position, target, flight_step(b, elapsed_ms)).1 {
                (s.update(i, struck(s[i], b)), None)
            } else {
                (s, Some(flown(b, target, elapsed_ms)))
            }
        },
    }
}

/// The first `k` projectiles of `bullets`, handled one after the other: the
/// enemies afterwards, and the projectiles still in flight, in order.
pub open spec fn after_bullets(s: Seq<EnemyView>, bullets: Seq<Bullet>, elapsed_ms: u32, k: nat) -> (
    Seq<EnemyView>,
    Seq<Bullet>,
)
    decreases k,
{
    if k == 0 {
        (s, Seq::empty())
    } else {
        let (es, kept) = after_bullets(s, bullets, elapsed_ms, (k - 1) as nat);
        let (es2, r) = bullet_step(es, bullets[k - 1], elapsed_ms);
        (
            es2,
            match r {
                Some(nb) => kept.push(nb),
                None => kept,
            },
        )
    }
}

/// Projectiles whose targets are all gone change no enemy and are all
/// dropped.
pub proof fn lemma_lost_bullets_change_nothing(
    s: Seq<EnemyView>,
    bullets: Seq<Bullet>,
    elapsed_ms: u32,
    k: nat,
)
    requires
        k <= bullets.len(),
        forall|j: int| 0 <= j < k ==> lookup(ids(s), #[trigger] bullets[j].target) is None,
    ensures
        after_bullets(s, bullets, elapsed_ms, k) == (s, Seq::<Bullet>::empty()),
    decreases k,
{
    if k > 0 {
        lemma_lost_bullets_change_nothing(s, bullets, elapsed_ms, (k - 1) as nat);
        assert(lookup(ids(s), bullets[k - 1].target) is None);
    }
}

/// The damage of a hit does not depend on the order of the target's effects.
pub proof fn lemma_strike_order_independent(e1: EnemyView, e2: EnemyView, b: Bullet)
    requires
        e1.hp == e2.hp,
        e1.armor == e2.armor,
        e1.effects.to_multiset() == e2.effects.to_multiset(),
    ensures
        struck(e1, b).hp == struck(e2, b).hp,
{
    crate::status::lemma_max_sub_armor_order_independent(e1.effects, e2.effects);
}

/// A hit keeps health within `[0, max]` and never raises it.
pub proof fn lemma_strike_keeps_bounds(e: EnemyView, b: Bullet)
    requires
        e.hp.wf(),
    ensures
        struck(e, b).hp.wf(),
        struck(e, b).hp.max == e.hp.max,
        struck(e, b).hp.current <= e.hp.current,
{
}

// ---- death ----

/// Whether the death check turns enemy `e` into a corpse: its health was
/// written this tick, is zero, and it is not a corpse yet.
pub open spec fn dies(e: EnemyView) -> bool {
    e.hp_changed && e.hp.current == 0 && e.anim != AnimationState::Corpse
}

/// Ids of the enemies among the first `n` that die, in order.
pub open spec fn deaths(s: Seq<EnemyView>, n: nat) -> Seq<u64>
    decreases n,
{
    if n == 0 {
        Seq::empty()
    } else if dies(s[n - 1]) {
        deaths(s, (n - 1) as nat).push(s[n - 1].id)
    } else {
        deaths(s, (n - 1) as nat)
    }
}

/// An enemy after the death check.
pub open spec fn checked(e: EnemyView) -> EnemyView {
    if dies(e) {
        EnemyView { anim: AnimationState::Corpse, ..e }
    } else {
        e
    }
}

pub open spec fn check_all(s: Seq<EnemyView>) -> Seq<EnemyView> {
    s.map_values(|e: EnemyView| checked(e))
}

// ---- visuals ----

/// An enemy once its effects have aged, its indicators follow them, and its
/// health-change flag is cleared.
pub open spec fn synced(e: EnemyView, elapsed_ms: u32) -> EnemyView {
    let effects = aged(e.effects, elapsed_ms as nat);
    EnemyView { effects, indicators: indicators_for(e.anim, effects), hp_changed: false, ..e }
}

pub open spec fn sync_all(s: Seq<EnemyView>, elapsed_ms: u32) -> Seq<EnemyView> {
    s.map_values(|e: EnemyView| synced(e, elapsed_ms))
}

/// Indicators change only with the behavior or the effects: two settled
/// states that agree on both show the same indicators.
pub proof fn lemma_indicators_unchanged(before: EnemyView, after: EnemyView)
    requires
        before.settled(),
        after.settled(),
        after.anim == before.anim,
        after.effects == before.effects,
    ensures
        after.indicators == before.indicators,
{
}

// ---- animation ----

/// An enemy after its frame timer runs for `elapsed_ms` and, when it
/// fires, its sprite frame advances within the clip for its state and facing.
pub open spec fn animated(e: EnemyView, data: AnimationData, elapsed_ms: u32) -> EnemyView {
    let t = e.frame_timer;
    let timer = Timer {
        elapsed_ms: ((t.elapsed_ms + elapsed_ms) % (t.duration_ms as int)) as u32,
        duration_ms: t.duration_ms,
    };
    if t.elapsed_ms + elapsed_ms < t.duration_ms {
        EnemyView { frame_timer: timer, ..e }
    } else {
        let clip = data.clips@[clip_slot(e.anim, e.direction) as int];
        let tick = ((e.tick + 1) % 0x1_0000_0000) as u32;
        EnemyView {
            frame_timer: timer,
            tick,
            sprite_index: next_frame(
                e.sprite_index as nat,
                tick as nat,
                clip.row as nat * data.cols as nat,
                clip_length(e.anim, clip),
                frame_modulus(e.anim),
            ) as u64,
            ..e
        }
    }
}

/// The live entities of one simulation.
pub struct World {
    pub enemies: Vec<Enemy>,
    pub bullets: Vec<Bullet>,
    /// Health of the entities that attacking enemies damage.
    pub goals: Vec<HitPoints>,
    pub currency: Currency,
    /// Reward-display refreshes requested and not yet handled.
    pub pending_updates: u32,
}

impl World {
    pub open spec fn wf(&self) -> bool {
        &&& forall|i: int| 0 <= i < self.enemies@.len() ==> (#[trigger] self.enemies@[i]).wf()
        &&& forall|i: int| 0 <= i < self.bullets@.len() ==> (#[trigger] self.bullets@[i]).wf()
    }

    /// Every enemy's indicators agree with its behavior and effects.
    pub open spec fn settled(&self) -> bool {
        forall|i: int| 0 <= i < self.enemies@.len() ==> (#[trigger] self.enemies@[i])@.settled()
    }

    /// An empty world around the given goals.
    pub fn new(goals: Vec<HitPoints>) -> (r: World)
        ensures
            r.wf(),
            r.settled(),
            r.enemies@.len() == 0,
            r.bullets@.len() == 0,
            r.goals@ == goals@,
            r.currency == (Currency { current: 0, total_earned: 0 }),
            r.pending_updates == 0,
    {
        World {
            enemies: Vec::new(),
            bullets: Vec::new(),
            goals,
            currency: Currency::new(),
            pending_updates: 0,
        }
    }

    /// Adds an enemy.
    pub fn spawn_enemy(&mut self, enemy: Enemy)
        requires
            old(self).wf(),
            enemy.wf(),
        ensures
            final(self).wf(),
            old(self).settled() && enemy@.settled() ==> final(self).settled(),
            final(self).enemies@ == old(self).enemies@.push(enemy),
            final(self).bullets == old(self).bullets,
            final(self).goals == old(self).goals,
            final(self).currency == old(self).currency,
            final(self).pending_updates == old(self).pending_updates,
    {
        self.enemies.push(enemy);
        assert(self.enemies@[self.enemies@.len() - 1] == enemy);
    }

    /// Fires a projectile from `position` at the enemy whose id is `target`;
    /// the target is not checked until the projectile's first tick.
    pub fn spawn_bullet(
        &mut self,
        position: Point,
        target: u64,
        damage: u32,
        speed: u32,
        status_effect: Option<StatusEffect>,
    )
        requires
            old(self).wf(),
        ensures
            final(self).wf(),
            final(self).bullets@ == old(self).bullets@.push(
                (Bullet { position, target, damage, speed, status_effect, spin_mrad: 0 }),
            ),
            final(self).enemies == old(self).enemies,
            final(self).goals == old(self).goals,
            final(self).currency == old(self).currency,
            final(self).pending_updates == old(self).pending_updates,
    {
        let b = crate::bullet::spawn(position, target, damage, speed, status_effect);
        self.bullets.push(b);
        assert(self.bullets@[self.bullets@.len() - 1] == b);
    }

    /// Resolves the weak reference `id`: the index of the first live enemy
    /// with that id, or `None` once no such enemy exists.
    pub fn find_enemy(&self, id: u64) -> (r: Option<usize>)
        ensures
            match r {
                Some(i) => lookup(ids(views(self.enemies@)), id) == Some(i as int) && i
                    < self.enemies@.len() && self.enemies@[i as int].id == id,
                None => lookup(ids(views(self.enemies@)), id) is None,
            },
    {
        let ghost s = ids(views(self.enemies@));
        let mut i: usize = 0;
        while i < self.enemies.len()
            invariant
                i <= self.enemies@.len(),
                s == ids(views(self.enemies@)),
                forall|j: int| 0 <= j < i ==> s[j] != id,
            decreases self.enemies@.len() - i,
        {
            if self.enemies[i].id == id {
                let ghost k = choose|k: int|
                    0 <= k < s.len() && s[k] == id && forall|j: int| 0 <= j < k ==> s[j] != id;
                proof {
                    assert(0 <= i < s.len() && s[i as int] == id);
                    if k < i {
                        assert(s[k] != id);
                    } else if k > i {
                        assert(s[i as int] != id);
                    }
                }
                return Some(i);
            }
            i = i + 1;
        }
        None
    }

    /// One tick of one projectile, as `bullet_step` says. Returns the
    /// projectile if it is still in flight.
    #[verifier::rlimit(40)]
    pub fn resolve_bullet(&mut self, bullet: Bullet, elapsed_ms: u32) -> (r: Option<Bullet>)
        requires
            old(self).wf(),
            bullet.wf(),
        ensures
            final(self).wf(),
            final(self).bullets == old(self).bullets,
            final(self).goals == old(self).goals,
            final(self).currency == old(self).currency,
            final(self).pending_updates == old(self).pending_updates,
            final(self).enemies@.len() == old(self).enemies@.len(),
            (views(final(self).enemies@), r) == bullet_step(
                views(old(self).enemies@),
                bullet,
                elapsed_ms,
            ),
            ids(views(final(self).enemies@)) == ids(views(old(self).enemies@)),
            r matches Some(b) ==> b.wf() && lookup(ids(views(final(self).enemies@)), b.target)
                is Some,
    {
        proof {
            lemma_lookup(ids(views(old(self).enemies@)), bullet.target);
        }
        match self.find_enemy(bullet.target) {
            None => None,
            Some(i) => {
                let mut b = bullet;
                let target = self.enemies[i].position;
                assert(views(self.enemies@)[i as int].position == target);
                if !advance(&mut b, target, elapsed_ms) {
                    return Some(b);
                }
                let ghost before = self.enemies@;
                let mut e = self.enemies.remove(i);
                assert(e == before[i as int]);
                strike(&mut b, &mut e.hp, e.armor, &mut e.effects);
                e.hp_changed = true;
                assert(e@ == struck(before[i as int]@, bullet));
                self.enemies.insert(i, e);
                assert(self.enemies@ == before.update(i as int, e));
                assert(views(self.enemies@) =~= views(before).update(i as int, e@));
                assert(ids(views(self.enemies@)) =~= ids(views(before)));
                proof {
                    assert forall|j: int| 0 <= j < self.enemies@.len() implies (
                    #[trigger] self.enemies@[j]).wf() by {
                        if j != i {
                            assert(self.enemies@[j] == before[j]);
                        }
                    }
                }
                None
            },
        }
    }

    /// One tick of every projectile, in order, as `after_bullets` says:
    /// those that hit or whose target is gone are dropped, the rest keep
    /// flying, and no projectile is left whose target is gone.
    #[verifier::rlimit(80)]
    pub fn update_bullets(&mut self, elapsed_ms: u32)
        requires
            old(self).wf(),
        ensures
            final(self).wf(),
            final(self).goals == old(self).goals,
            final(self).currency == old(self).currency,
            final(self).pending_updates == old(self).pending_updates,
            final(self).enemies@.len() == old(self).enemies@.len(),
            (views(final(self).enemies@), final(self).bullets@) == after_bullets(
                views(old(self).enemies@),
                old(self).bullets@,
                elapsed_ms,
                old(self).bullets@.len(),
            ),
            ids(views(final(self).enemies@)) == ids(views(old(self).enemies@)),
            forall|k: int|
                0 <= k < final(self).bullets@.len() ==> lookup(
                    ids(views(final(self).enemies@)),
                    #[trigger] final(self).bullets@[k].target,
                ) is Some,
    {
        let mut pending: Vec<Bullet> = Vec::new();
        std::mem::swap(&mut pending, &mut self.bullets);
        let mut kept: Vec<Bullet> = Vec::new();
        let mut k: usize = 0;
        while k < pending.len()
            invariant
                self.wf(),
                pending@ == old(self).bullets@,
                forall|i: int| 0 <= i < pending@.len() ==> (#[trigger] pending@[i]).wf(),
                k <= pending@.len(),
                self.bullets@.len() == 0,
                self.goals == old(self).goals,
                self.currency == old(self).currency,
                self.pending_updates == old(self).pending_updates,
                self.enemies@.len() == old(self).enemies@.len(),
                (views(self.enemies@), kept@) == after_bullets(
                    views(old(self).enemies@),
                    pending@,
                    elapsed_ms,
                    k as nat,
                ),
                ids(views(self.enemies@)) == ids(views(old(self).enemies@)),
                forall|i: int| 0 <= i < kept@.len() ==> (#[trigger] kept@[i]).wf(),
                forall|i: int|
                    0 <= i < kept@.len() ==> lookup(
                        ids(views(self.enemies@)),
                        #[trigger] kept@[i].target,
                    ) is Some,
            decreases pending@.len() - k,
        {
            let b = pending[k];
            let r = self.resolve_bullet(b, elapsed_ms);
            match r {
                Some(nb) => {
                    kept.push(nb);
                },
                None => {},
            }
            k = k + 1;
        }
        self.bullets = kept;
    }

    /// Moves every enemy along its path, then lets it attack: each attacking
    /// enemy whose timer completes takes one point off every goal.
    pub fn move_enemies(&mut self, elapsed_ms: u32)
        requires
            old(self).wf(),
        ensures
            final(self).wf(),
            final(self).bullets == old(self).bullets,
            final(self).currency == old(self).currency,
            final(self).pending_updates == old(self).pending_updates,
            final(self).enemies@.len() == old(self).enemies@.len(),
            views(final(self).enemies@) == step_all(views(old(self).enemies@), elapsed_ms),
            final(self).goals@.len() == old(self).goals@.len(),
            forall|g: int|
                0 <= g < old(self).goals@.len() ==> (#[trigger] final(self).goals@[g]).current
                    == sat_sub(
                    old(self).goals@[g].current as nat,
                    hits(views(old(self).enemies@), elapsed_ms, old(self).enemies@.len()),
                ) && final(self).goals@[g].max == old(self).goals@[g].max,
    {
        let mut i: usize = 0;
        while i < self.enemies.len()
            invariant
                self.wf(),
                i <= self.enemies@.len(),
                self.enemies@.len() == old(self).enemies@.len(),
                self.bullets == old(self).bullets,
                self.currency == old(self).currency,
                self.pending_updates == old(self).pending_updates,
                forall|j: int|
                    0 <= j < i ==> (#[trigger] self.enemies@[j])@ == stepped(
                        old(self).enemies@[j]@,
                        elapsed_ms,
                    ),
                forall|j: int| i <= j < self.enemies@.len() ==> #[trigger] self.enemies@[j] == old(
                    self,
                ).enemies@[j],
                self.goals@.len() == old(self).goals@.len(),
                forall|g: int|
                    0 <= g < old(self).goals@.len() ==> (#[trigger] self.goals@[g]).current
                        == sat_sub(
                        old(self).goals@[g].current as nat,
                        hits(views(old(self).enemies@), elapsed_ms, i as nat),
                    ) && self.goals@[g].max == old(self).goals@[g].max,
            decreases self.enemies@.len() - i,
        {
            let ghost before = self.enemies@;
            let ghost goals0 = self.goals@;
            let mut e = self.enemies.remove(i);
            assert(e == old(self).enemies@[i as int]);
            movement(&mut e.anim, &mut e.direction, &mut e.state, &mut e.position, e.speed, elapsed_ms);
            let fired = deal_damage(&mut e.attack_timer, &e.anim, &mut self.goals, elapsed_ms);
            assert(views(old(self).enemies@)[i as int] == old(self).enemies@[i as int]@);
            assert(fired == fires(old(self).enemies@[i as int]@, elapsed_ms));
            assert(e@ == stepped(old(self).enemies@[i as int]@, elapsed_ms));
            self.enemies.insert(i, e);
            assert(self.enemies@ == before.update(i as int, e));
            proof {
                assert forall|g: int| 0 <= g < old(self).goals@.len() implies (
                #[trigger] self.goals@[g]).current == sat_sub(
                    old(self).goals@[g].current as nat,
                    hits(views(old(self).enemies@), elapsed_ms, (i + 1) as nat),
                ) && self.goals@[g].max == old(self).goals@[g].max by {
                    assert(self.goals@[g] == goals_after(goals0, fired)[g]);
                }
                assert forall|j: int| 0 <= j < self.enemies@.len() implies (
                #[trigger] self.enemies@[j]).wf() by {
                    if j != i {
                        assert(self.enemies@[j] == before[j]);
                    }
                }
            }
            i = i + 1;
        }
        assert(views(self.enemies@) =~= step_all(views(old(self).enemies@), elapsed_ms));
    }

    /// The death check: each enemy whose health was written this tick and is
    /// zero becomes a corpse, once, and pays the kill reward. Returns the ids
    /// of the enemies that died, in order.
    pub fn resolve_deaths(&mut self) -> (died: Vec<u64>)
        requires
            old(self).wf(),
        ensures
            final(self).wf(),
            final(self).bullets == old(self).bullets,
            final(self).goals == old(self).goals,
            final(self).enemies@.len() == old(self).enemies@.len(),
            views(final(self).enemies@) == check_all(views(old(self).enemies@)),
            died@ == deaths(views(old(self).enemies@), old(self).enemies@.len()),
            final(self).currency.current == sat_add_u32(
                old(self).currency.current as nat,
                KILL_REWARD as nat * died@.len(),
            ),
            final(self).currency.total_earned == sat_add_u32(
                old(self).currency.total_earned as nat,
                KILL_REWARD as nat * died@.len(),
            ),
            final(self).pending_updates == sat_add_u32(
                old(self).pending_updates as nat,
                died@.len(),
            ),
    {
        let mut died: Vec<u64> = Vec::new();
        let mut i: usize = 0;
        while i < self.enemies.len()
            invariant
                self.wf(),
                i <= self.enemies@.len(),
                self.enemies@.len() == old(self).enemies@.len(),
                self.bullets == old(self).bullets,
                self.goals == old(self).goals,
                forall|j: int|
                    0 <= j < i ==> (#[trigger] self.enemies@[j])@ == checked(
                        old(self).enemies@[j]@,
                    ),
                forall|j: int| i <= j < self.enemies@.len() ==> #[trigger] self.enemies@[j] == old(
                    self,
                ).enemies@[j],
                died@ == deaths(views(old(self).enemies@), i as nat),
                self.currency.current == sat_add_u32(
                    old(self).currency.current as nat,
                    KILL_REWARD as nat * died@.len(),
                ),
                self.currency.total_earned == sat_add_u32(
                    old(self).currency.total_earned as nat,
                    KILL_REWARD as nat * died@.len(),
                ),
                self.pending_updates == sat_add_u32(old(self).pending_updates as nat, died@.len()),
            decreases self.enemies@.len() - i,
        {
            assert(views(old(self).enemies@)[i as int] == old(self).enemies@[i as int]@);
            if self.enemies[i].hp_changed {
                let ghost before = self.enemies@;
                let mut e = self.enemies.remove(i);
                assert(e == old(self).enemies@[i as int]);
                let dead = death(&mut e.anim, &e.hp, &mut self.currency, &mut self.pending_updates);
                if dead {
                    died.push(e.id);
                }
                assert(e@ == checked(old(self).enemies@[i as int]@));
                self.enemies.insert(i, e);
                assert(self.enemies@ == before.update(i as int, e));
                proof {
                    assert forall|j: int| 0 <= j < self.enemies@.len() implies (
                    #[trigger] self.enemies@[j]).wf() by {
                        if j != i {
                            assert(self.enemies@[j] == before[j]);
                        }
                    }
                }
            } else {
                assert(self.enemies@[i as int]@ == checked(old(self).enemies@[i as int]@));
            }
            i = i + 1;
        }
        assert(views(self.enemies@) =~= check_all(views(old(self).enemies@)));
        died
    }

    /// Ages every enemy's effects, brings its status indicators in line, and
    /// clears its health-change flag for the next tick.
    pub fn sync_visuals(&mut self, elapsed_ms: u32)
        requires
            old(self).wf(),
        ensures
            final(self).wf(),
            final(self).settled(),
            final(self).bullets == old(self).bullets,
            final(self).goals == old(self).goals,
            final(self).currency == old(self).currency,
            final(self).pending_updates == old(self).pending_updates,
            final(self).enemies@.len() == old(self).enemies@.len(),
            views(final(self).enemies@) == sync_all(views(old(self).enemies@), elapsed_ms),
    {
        let mut i: usize = 0;
        while i < self.enemies.len()
            invariant
                self.wf(),
                i <= self.enemies@.len(),
                self.enemies@.len() == old(self).enemies@.len(),
                self.bullets == old(self).bullets,
                self.goals == old(self).goals,
                self.currency == old(self).currency,
                self.pending_updates == old(self).pending_updates,
                forall|j: int|
                    0 <= j < i ==> (#[trigger] self.enemies@[j])@ == synced(
                        old(self).enemies@[j]@,
                        elapsed_ms,
                    ),
                forall|j: int| i <= j < self.enemies@.len() ==> #[trigger] self.enemies@[j] == old(
                    self,
                ).enemies@[j],
            decreases self.enemies@.len() - i,
        {
            let ghost before = self.enemies@;
            let mut e = self.enemies.remove(i);
            assert(e == old(self).enemies@[i as int]);
            e.effects.tick(elapsed_ms);
            status_effect_appearance(&e.anim, &e.effects, &mut e.indicators);
            e.hp_changed = false;
            assert(e@ == synced(old(self).enemies@[i as int]@, elapsed_ms));
            self.enemies.insert(i, e);
            assert(self.enemies@ == before.update(i as int, e));
            proof {
                assert forall|j: int| 0 <= j < self.enemies@.len() implies (
                #[trigger] self.enemies@[j]).wf() by {
                    if j != i {
                        assert(self.enemies@[j] == before[j]);
                    }
                }
            }
            i = i + 1;
        }
        assert(views(self.enemies@) =~= sync_all(views(old(self).enemies@), elapsed_ms));
    }

    /// Runs the frame timer of enemy `i` and picks its sprite frame from
    /// `data`, its sprite sheet, which must hold the clip for the enemy's
    /// state and facing.
    pub fn animate_enemy(&mut self, i: usize, data: &AnimationData, elapsed_ms: u32)
        requires
            old(self).wf(),
            i < old(self).enemies@.len(),
            clip_slot(old(self).enemies@[i as int].anim, old(self).enemies@[i as int].direction)
                < data.clips@.len(),
        ensures
            final(self).wf(),
            old(self).settled() ==> final(self).settled(),
            final(self).bullets == old(self).bullets,
            final(self).goals == old(self).goals,
            final(self).currency == old(self).currency,
            final(self).pending_updates == old(self).pending_updates,
            final(self).enemies@.len() == old(self).enemies@.len(),
            views(final(self).enemies@) == views(old(self).enemies@).update(
                i as int,
                animated(old(self).enemies@[i as int]@, *data, elapsed_ms),
            ),
    {
        let ghost before = self.enemies@;
        let mut e = self.enemies.remove(i);
        assert(e == before[i as int]);
        animate(
            &mut e.frame_timer,
            &mut e.sprite_index,
            &mut e.state,
            &e.direction,
            &e.anim,
            data,
            elapsed_ms,
        );
        assert(e@ == animated(before[i as int]@, *data, elapsed_ms));
        self.enemies.insert(i, e);
        assert(self.enemies@ == before.update(i as int, e));
        assert(views(self.enemies@) =~= views(before).update(i as int, e@));
        proof {
            assert forall|j: int| 0 <= j < self.enemies@.len() implies (
            #[trigger] self.enemies@[j]).wf() by {
                if j != i {
                    assert(self.enemies@[j] == before[j]);
                }
            }
        }
    }

    /// One simulation tick, stage after stage: movement and attacks, then
    /// projectiles, then the death check, then effect aging and indicators.
    /// Returns the ids of the enemies that died this tick.
    pub fn tick(&mut self, elapsed_ms: u32) -> (died: Vec<u64>)
        requires
            old(self).wf(),
        ensures
            final(self).wf(),
            final(self).settled(),
            ({
                let moved_all = step_all(views(old(self).enemies@), elapsed_ms);
                let (hit_all, flying) = after_bullets(
                    moved_all,
                    old(self).bullets@,
                    elapsed_ms,
                    old(self).bullets@.len(),
                );
                &&& final(self).bullets@ == flying
                &&& died@ == deaths(hit_all, hit_all.len())
                &&& views(final(self).enemies@) == sync_all(check_all(hit_all), elapsed_ms)
            }),
            final(self).goals@.len() == old(self).goals@.len(),
            forall|g: int|
                0 <= g < old(self).goals@.len() ==> (#[trigger] final(self).goals@[g]).current
                    == sat_sub(
                    old(self).goals@[g].current as nat,
                    hits(views(old(self).enemies@), elapsed_ms, old(self).enemies@.len()),
                ) && final(self).goals@[g].max == old(self).goals@[g].max,
            final(self).currency.current == sat_add_u32(
                old(self).currency.current as nat,
                KILL_REWARD as nat * died@.len(),
            ),
            final(self).currency.total_earned == sat_add_u32(
                old(self).currency.total_earned as nat,
                KILL_REWARD as nat * died@.len(),
            ),
            final(self).pending_updates == sat_add_u32(
                old(self).pending_updates as nat,
                died@.len(),
            ),
    {
        self.move_enemies(elapsed_ms);
        self.update_bullets(elapsed_ms);
        let died = self.resolve_deaths();
        self.sync_visuals(elapsed_ms);
        died
    }
}

} // verus!
