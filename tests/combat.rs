use taipo::bullet::{self, Bullet};
use taipo::enemy::{
    animate, clip_slot_index, death, deal_damage, movement, status_effect_appearance,
    AnimationData, AnimationState, Clip, Direction, EnemyAttackTimer, EnemyState,
    StatusIndicators, KILL_REWARD,
};
use taipo::geometry::{move_toward, Point};
use taipo::health::{mitigated_damage, Armor, Currency, HitPoints};
use taipo::healthbar::{self, BarColor};
use taipo::status::{StatusEffect, StatusEffectKind, StatusEffects};
use taipo::timer::Timer;
use taipo::world::{Enemy, World};

fn bar() -> healthbar::HealthBar {
    healthbar::spawn(100, 4, Point::new(0, 20), true, true)
}

fn enemy(id: u64, path: Vec<Point>, speed: u32, hp: HitPoints, armor: u32) -> Enemy {
    Enemy::new(id, "skeleton".to_string(), path, speed, hp, Armor(armor), 1000, 100, bar())
}

fn sub_armor(amount: u32) -> StatusEffect {
    StatusEffect { kind: StatusEffectKind::SubArmor(amount), remaining_ms: 5000 }
}

fn add_damage(amount: u32) -> StatusEffect {
    StatusEffect { kind: StatusEffectKind::AddDamage(amount), remaining_ms: 5000 }
}

#[test]
fn damage_saturates_at_zero() {
    let mut hp = HitPoints::full(10);
    hp.apply_damage(15);
    assert_eq!(hp.current, 0);
    assert_eq!(hp.max, 10);
}

#[test]
fn damage_keeps_health_in_bounds() {
    let mut hp = HitPoints::new(7, 10);
    hp.apply_damage(3);
    assert_eq!(hp.current, 4);
    hp.apply_damage(0);
    assert_eq!(hp.current, 4);
    assert!(hp.current <= hp.max);
    let clamped = HitPoints::new(12, 10);
    assert_eq!(clamped.current, 10);
}

#[test]
fn mitigation_formula() {
    assert_eq!(mitigated_damage(30, Armor(50), 20), 0);
    assert_eq!(mitigated_damage(30, Armor(10), 0), 20);
    assert_eq!(mitigated_damage(30, Armor(10), 25), 30);
    assert_eq!(mitigated_damage(5, Armor(10), 0), 0);
}

#[test]
fn max_sub_armor_of_empty_store_is_zero() {
    let store = StatusEffects::new();
    assert_eq!(store.get_max_sub_armor(), 0);
    assert_eq!(store.get_total_add_damage(), 0);
}

#[test]
fn max_sub_armor_ignores_order() {
    let mut a = StatusEffects::new();
    a.push(sub_armor(5));
    a.push(add_damage(40));
    a.push(sub_armor(20));
    a.push(sub_armor(7));
    let mut b = StatusEffects::new();
    b.push(sub_armor(7));
    b.push(sub_armor(20));
    b.push(add_damage(40));
    b.push(sub_armor(5));
    assert_eq!(a.get_max_sub_armor(), 20);
    assert_eq!(b.get_max_sub_armor(), 20);
}

#[test]
fn damage_bonuses_add_up_and_saturate() {
    let mut s = StatusEffects::new();
    s.push(add_damage(3));
    s.push(sub_armor(9));
    s.push(add_damage(4));
    assert_eq!(s.get_total_add_damage(), 7);
    s.push(add_damage(u32::MAX));
    assert_eq!(s.get_total_add_damage(), u32::MAX);
}

#[test]
fn effects_expire() {
    let mut s = StatusEffects::new();
    s.push(StatusEffect { kind: StatusEffectKind::SubArmor(5), remaining_ms: 100 });
    s.push(StatusEffect { kind: StatusEffectKind::AddDamage(2), remaining_ms: 300 });
    s.tick(100);
    assert_eq!(s.0.len(), 1);
    assert_eq!(s.0[0].kind, StatusEffectKind::AddDamage(2));
    assert_eq!(s.0[0].remaining_ms, 200);
    assert_eq!(s.get_max_sub_armor(), 0);
}

#[test]
fn step_reaching_waypoint_lands_on_it() {
    let from = Point::new(0, 0);
    let to = Point::new(10, 0);
    assert_eq!(move_toward(from, to, 10), (to, true));
    assert_eq!(move_toward(from, to, 1_000_000), (to, true));
}

#[test]
fn short_step_moves_proportionally() {
    assert_eq!(move_toward(Point::new(0, 0), Point::new(10, 0), 4), (Point::new(4, 0), false));
    assert_eq!(move_toward(Point::new(0, 0), Point::new(3, 4), 2), (Point::new(1, 1), false));
    assert_eq!(move_toward(Point::new(10, 10), Point::new(0, 10), 3), (Point::new(7, 10), false));
}

#[test]
fn healthbar_color_thresholds() {
    let b = bar();
    assert_eq!(healthbar::update(&b, &HitPoints::new(24, 100)).color, BarColor::Low);
    assert_eq!(healthbar::update(&b, &HitPoints::new(25, 100)).color, BarColor::Mid);
    assert_eq!(healthbar::update(&b, &HitPoints::new(74, 100)).color, BarColor::Mid);
    assert_eq!(healthbar::update(&b, &HitPoints::new(75, 100)).color, BarColor::High);
}

#[test]
fn healthbar_width_and_inset() {
    let b = bar();
    let a = healthbar::update(&b, &HitPoints::new(50, 100));
    assert_eq!(a.width, 50);
    assert_eq!(a.inset, 50);
    let c = healthbar::update(&b, &HitPoints::new(1, 3));
    assert_eq!(c.width, 33);
    assert_eq!(c.inset, 67);
}

#[test]
fn healthbar_hides_at_full_and_empty_by_policy() {
    let b = healthbar::spawn(20, 2, Point::new(0, 0), false, false);
    let full = healthbar::update(&b, &HitPoints::full(10));
    assert_eq!(full.color, BarColor::Hidden);
    assert!(!full.background_visible);
    let empty = healthbar::update(&b, &HitPoints::new(0, 10));
    assert_eq!(empty.color, BarColor::Hidden);
    assert!(!empty.background_visible);
    let kept = healthbar::spawn(20, 2, Point::new(0, 0), true, true);
    assert_eq!(healthbar::update(&kept, &HitPoints::full(10)).color, BarColor::High);
    assert_eq!(healthbar::update(&kept, &HitPoints::new(0, 10)).color, BarColor::Low);
}

#[test]
fn indicator_sits_right_of_bar() {
    let p = healthbar::indicator_offset(&bar());
    assert_eq!(p, Point::new(56_000, 20));
}

#[test]
fn timer_fires_and_carries_over() {
    let mut t = Timer::from_millis(100);
    assert!(!t.tick(60));
    assert_eq!(t.elapsed_ms, 60);
    assert!(t.tick(60));
    assert_eq!(t.elapsed_ms, 20);
}

#[test]
fn movement_walks_turns_and_attacks() {
    let mut anim = AnimationState::default();
    let mut dir = Direction::default();
    let mut state = EnemyState {
        name: "bat".to_string(),
        tick: 0,
        path: vec![Point::new(0, 0), Point::new(10_000, 0), Point::new(10_000, 10_000)],
        path_index: 0,
    };
    let mut pos = Point::new(0, 0);
    movement(&mut anim, &mut dir, &mut state, &mut pos, 5, 1000);
    assert_eq!(anim, AnimationState::Walking);
    assert_eq!(pos, Point::new(5_000, 0));
    assert_eq!(state.path_index, 0);
    movement(&mut anim, &mut dir, &mut state, &mut pos, 5, 1000);
    assert_eq!(pos, Point::new(10_000, 0));
    assert_eq!(state.path_index, 1);
    assert_eq!(dir, Direction::Up);
    movement(&mut anim, &mut dir, &mut state, &mut pos, 100, 1000);
    assert_eq!(pos, Point::new(10_000, 10_000));
    assert_eq!(state.path_index, 2);
    assert_eq!(anim, AnimationState::Attacking);
    movement(&mut anim, &mut dir, &mut state, &mut pos, 100, 1000);
    assert_eq!(pos, Point::new(10_000, 10_000));
}

#[test]
fn corpse_does_not_move() {
    let mut anim = AnimationState::Corpse;
    let mut dir = Direction::Right;
    let mut state = EnemyState {
        name: "bat".to_string(),
        tick: 0,
        path: vec![Point::new(0, 0), Point::new(10, 0)],
        path_index: 0,
    };
    let mut pos = Point::new(0, 0);
    movement(&mut anim, &mut dir, &mut state, &mut pos, 5, 1000);
    assert_eq!(pos, Point::new(0, 0));
    assert_eq!(anim, AnimationState::Corpse);
}

#[test]
fn attacking_enemy_damages_goals_on_timer() {
    let mut timer = EnemyAttackTimer(Timer::from_millis(1000));
    let mut goals = vec![HitPoints::full(5), HitPoints::full(3)];
    assert!(!deal_damage(&mut timer, &AnimationState::Attacking, &mut goals, 600));
    assert_eq!(goals[0].current, 5);
    assert!(deal_damage(&mut timer, &AnimationState::Attacking, &mut goals, 600));
    assert_eq!(goals[0].current, 4);
    assert_eq!(goals[1].current, 2);
    assert!(!deal_damage(&mut timer, &AnimationState::Walking, &mut goals, 5000));
    assert_eq!(goals[0].current, 4);
}

#[test]
fn death_fires_once() {
    let mut anim = AnimationState::Walking;
    let hp = HitPoints::new(0, 10);
    let mut currency = Currency::new();
    let mut pending: u32 = 0;
    assert!(death(&mut anim, &hp, &mut currency, &mut pending));
    assert_eq!(anim, AnimationState::Corpse);
    assert_eq!(currency.current, KILL_REWARD);
    assert_eq!(currency.total_earned, KILL_REWARD);
    assert_eq!(pending, 1);
    assert!(!death(&mut anim, &hp, &mut currency, &mut pending));
    assert_eq!(anim, AnimationState::Corpse);
    assert_eq!(currency.current, KILL_REWARD);
    assert_eq!(pending, 1);
}

#[test]
fn living_enemy_does_not_die() {
    let mut anim = AnimationState::Walking;
    let mut currency = Currency::new();
    let mut pending: u32 = 0;
    assert!(!death(&mut anim, &HitPoints::new(1, 10), &mut currency, &mut pending));
    assert_eq!(anim, AnimationState::Walking);
    assert_eq!(currency.current, 0);
}

#[test]
fn indicators_follow_effects() {
    let mut s = StatusEffects::new();
    let mut ind = StatusIndicators { up: false, down: false };
    s.push(sub_armor(3));
    status_effect_appearance(&AnimationState::Walking, &s, &mut ind);
    assert!(ind.down);
    assert!(!ind.up);
    s.push(add_damage(1));
    status_effect_appearance(&AnimationState::Walking, &s, &mut ind);
    assert!(ind.up);
    status_effect_appearance(&AnimationState::Corpse, &s, &mut ind);
    assert!(!ind.up);
    assert!(!ind.down);
}

fn sheet() -> AnimationData {
    let mut clips = Vec::new();
    for row in 0..12u32 {
        clips.push(Clip { row, length: 3 });
    }
    AnimationData { cols: 4, clips }
}

#[test]
fn animate_cycles_through_walk_frames() {
    let mut timer = Timer::from_millis(100);
    let mut index: u64 = 0;
    let mut state = EnemyState { name: "bat".to_string(), tick: 0, path: vec![], path_index: 0 };
    let data = sheet();
    // walk right is slot 2: frames 8, 9, 10
    animate(&mut timer, &mut index, &mut state, &Direction::Right, &AnimationState::Walking, &data, 100);
    assert_eq!(index, 8);
    assert_eq!(state.tick, 1);
    animate(&mut timer, &mut index, &mut state, &Direction::Right, &AnimationState::Walking, &data, 100);
    assert_eq!(index, 9);
    animate(&mut timer, &mut index, &mut state, &Direction::Right, &AnimationState::Walking, &data, 100);
    animate(&mut timer, &mut index, &mut state, &Direction::Right, &AnimationState::Walking, &data, 100);
    assert_eq!(index, 8);
    animate(&mut timer, &mut index, &mut state, &Direction::Right, &AnimationState::Walking, &data, 50);
    assert_eq!(index, 8);
    assert_eq!(state.tick, 4);
}

#[test]
fn clip_slots_follow_state_and_facing() {
    assert_eq!(clip_slot_index(&AnimationState::Walking, &Direction::Up), 0);
    assert_eq!(clip_slot_index(&AnimationState::Walking, &Direction::Left), 3);
    assert_eq!(clip_slot_index(&AnimationState::Idle, &Direction::Right), 6);
    assert_eq!(clip_slot_index(&AnimationState::Attacking, &Direction::Down), 9);
    assert_eq!(clip_slot_index(&AnimationState::Corpse, &Direction::Left), 4);
}

#[test]
fn bullet_flies_toward_target_and_spins() {
    let mut b: Bullet = bullet::spawn(Point::new(0, 0), 1, 5, 100, None);
    assert!(!bullet::advance(&mut b, Point::new(100_000, 0), 100));
    assert_eq!(b.position, Point::new(10_000, 0));
    assert_eq!(b.spin_mrad, 1000);
    assert!(bullet::advance(&mut b, Point::new(15_000, 0), 100));
    assert_eq!(b.position, Point::new(10_000, 0));
}

#[test]
fn strike_moves_payload_once() {
    let mut b = bullet::spawn(Point::new(0, 0), 1, 30, 100, Some(sub_armor(8)));
    let mut hp = HitPoints::full(100);
    let mut effects = StatusEffects::new();
    bullet::strike(&mut b, &mut hp, Armor(10), &mut effects);
    assert_eq!(hp.current, 80);
    assert_eq!(effects.0.len(), 1);
    assert!(b.status_effect.is_none());
}

#[test]
fn bullet_with_missing_target_is_removed() {
    let mut world = World::new(vec![HitPoints::full(10)]);
    world.enemies.push(enemy(1, vec![Point::new(0, 0), Point::new(10, 0)], 0, HitPoints::full(10), 0));
    world.bullets.push(bullet::spawn(Point::new(50, 50), 2, 15, 10, None));
    world.update_bullets(16);
    assert!(world.bullets.is_empty());
    assert_eq!(world.enemies[0].hp.current, 10);
    assert!(!world.enemies[0].hp_changed);
}

#[test]
fn weak_reference_lookup() {
    let mut world = World::new(vec![]);
    world.enemies.push(enemy(7, vec![Point::new(0, 0)], 0, HitPoints::full(1), 0));
    world.enemies.push(enemy(9, vec![Point::new(0, 0)], 0, HitPoints::full(1), 0));
    assert_eq!(world.find_enemy(9), Some(1));
    assert_eq!(world.find_enemy(3), None);
}

#[test]
fn instant_kill_end_to_end() {
    let mut world = World::new(vec![HitPoints::full(10)]);
    world.spawn_enemy(enemy(1, vec![Point::new(0, 0), Point::new(10_000, 0)], 10, HitPoints::full(10), 0));
    world.spawn_bullet(Point::new(0, 100_000), 1, 15, 1_000_000, None);
    let died = world.tick(16);
    assert_eq!(died, vec![1]);
    assert_eq!(world.enemies[0].hp.current, 0);
    assert_eq!(world.enemies[0].anim, AnimationState::Corpse);
    assert_eq!(world.currency.current, KILL_REWARD);
    assert_eq!(world.currency.total_earned, KILL_REWARD);
    assert!(world.bullets.is_empty());
    let again = world.tick(16);
    assert!(again.is_empty());
    assert_eq!(world.currency.current, KILL_REWARD);
}

#[test]
fn armor_absorbs_hit_end_to_end() {
    let mut world = World::new(vec![]);
    let mut e = enemy(1, vec![Point::new(0, 0), Point::new(10, 0)], 0, HitPoints::full(40), 50);
    e.effects.push(sub_armor(20));
    world.spawn_enemy(e);
    world.spawn_bullet(Point::new(0, 0), 1, 30, 1000, None);
    let died = world.tick(16);
    assert!(died.is_empty());
    assert_eq!(world.enemies[0].hp.current, 40);
    assert!(world.bullets.is_empty());
    assert!(world.enemies[0].indicators.down);
}

#[test]
fn attacking_enemies_wear_down_the_goal() {
    let mut world = World::new(vec![HitPoints::full(3)]);
    world.spawn_enemy(enemy(1, vec![Point::new(0, 0), Point::new(1_000, 0)], 1000, HitPoints::full(5), 0));
    world.tick(1000);
    assert_eq!(world.enemies[0].anim, AnimationState::Attacking);
    assert_eq!(world.goals[0].current, 2);
    world.tick(500);
    assert_eq!(world.goals[0].current, 2);
    world.tick(500);
    assert_eq!(world.goals[0].current, 1);
}

#[test]
fn world_animates_one_enemy() {
    let mut world = World::new(vec![]);
    world.spawn_enemy(enemy(1, vec![Point::new(0, 0), Point::new(10, 0)], 0, HitPoints::full(5), 0));
    world.spawn_enemy(enemy(2, vec![Point::new(0, 0)], 0, HitPoints::full(5), 0));
    // idle right is slot 6: frames 24, 25, 26
    world.animate_enemy(0, &sheet(), 100);
    assert_eq!(world.enemies[0].sprite_index, 24);
    assert_eq!(world.enemies[0].state.tick, 1);
    assert_eq!(world.enemies[1].sprite_index, 0);
}

#[test]
fn bullets_resolve_in_order_and_payload_moves_once() {
    let mut world = World::new(vec![]);
    world.spawn_enemy(enemy(1, vec![Point::new(0, 0)], 0, HitPoints::full(100), 5));
    world.spawn_bullet(Point::new(0, 0), 1, 25, 10, Some(sub_armor(5)));
    world.spawn_bullet(Point::new(0, 0), 1, 25, 10, None);
    world.spawn_bullet(Point::new(0, 1_000_000), 1, 25, 10, None);
    world.spawn_bullet(Point::new(0, 0), 42, 25, 10, None);
    world.update_bullets(100);
    // first hit: 25 - 5 = 20; second hit after the payload lands: 25 - 0 = 25
    assert_eq!(world.enemies[0].hp.current, 55);
    assert_eq!(world.enemies[0].effects.0.len(), 1);
    assert_eq!(world.bullets.len(), 1);
    assert_eq!(world.bullets[0].position, Point::new(0, 999_000));
    assert_eq!(world.bullets[0].target, 1);
}

#[test]
fn hit_damage_ignores_effect_order() {
    let mut hp_after = Vec::new();
    for order in [[3u32, 20, 7], [20, 7, 3]] {
        let mut world = World::new(vec![]);
        let mut e = enemy(1, vec![Point::new(0, 0)], 0, HitPoints::full(100), 30);
        for amt in order {
            e.effects.push(sub_armor(amt));
        }
        world.spawn_enemy(e);
        world.spawn_bullet(Point::new(0, 0), 1, 40, 10, None);
        world.update_bullets(16);
        hp_after.push(world.enemies[0].hp.current);
    }
    assert_eq!(hp_after, vec![70, 70]);
}

#[test]
fn indicators_stay_when_nothing_changes() {
    let mut world = World::new(vec![]);
    let mut e = enemy(1, vec![Point::new(0, 0)], 0, HitPoints::full(10), 0);
    e.effects.push(StatusEffect { kind: StatusEffectKind::AddDamage(2), remaining_ms: 10_000 });
    world.spawn_enemy(e);
    world.tick(16);
    assert_eq!(world.enemies[0].indicators, StatusIndicators { up: true, down: false });
    world.tick(16);
    assert_eq!(world.enemies[0].indicators, StatusIndicators { up: true, down: false });
}

#[test]
fn slow_enemy_moves_at_frame_rate() {
    let mut world = World::new(vec![]);
    world.spawn_enemy(enemy(1, vec![Point::new(0, 0), Point::new(10_000, 0)], 10, HitPoints::full(10), 0));
    world.tick(16);
    assert_eq!(world.enemies[0].position, Point::new(160, 0));
    assert_eq!(world.enemies[0].anim, AnimationState::Walking);
    for _ in 0..61 {
        world.tick(16);
    }
    assert_eq!(world.enemies[0].position, Point::new(9_920, 0));
    assert_eq!(world.enemies[0].state.path_index, 0);
    world.tick(16);
    assert_eq!(world.enemies[0].position, Point::new(10_000, 0));
    assert_eq!(world.enemies[0].state.path_index, 1);
    assert_eq!(world.enemies[0].anim, AnimationState::Attacking);
}

#[test]
fn enemy_spawned_without_health_dies_on_first_tick() {
    let mut world = World::new(vec![]);
    world.spawn_enemy(enemy(4, vec![Point::new(0, 0)], 0, HitPoints::new(0, 10), 0));
    assert!(world.enemies[0].hp_changed);
    assert_eq!(world.tick(16), vec![4]);
    assert_eq!(world.enemies[0].anim, AnimationState::Corpse);
    assert_eq!(world.currency.current, KILL_REWARD);
}
