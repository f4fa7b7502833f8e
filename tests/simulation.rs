use road_dodge::collision::{Collider, CollisionEvent};
use road_dodge::session::{Enemy, GameState, MAX_HP};
use road_dodge::tier::{apply_damage, damage, tier, Tier};
use road_dodge::timer::{spawn_interval_for, SpawnTimer, BASE_INTERVAL_US};

fn hit(id: u32) -> CollisionEvent {
    CollisionEvent { begin: true, first: Collider::Player, second: Collider::Enemy(id) }
}

/// A running state with `n` enemies spawned, one per half-second frame.
fn state_with_enemies(n: u32) -> GameState {
    let mut s = GameState::default();
    for _ in 0..n {
        assert!(s.spawn_enemy_at(BASE_INTERVAL_US, 1280, 0).is_some());
    }
    s
}

#[test]
fn tier_examples() {
    assert_eq!(tier(15), Tier::Heavy);
    assert_eq!(tier(10), Tier::Fast);
    assert_eq!(tier(9), Tier::Armored);
    assert_eq!(tier(7), Tier::Basic);
    assert_eq!(tier(30), Tier::Heavy);
    assert_eq!(tier(3), Tier::Armored);
    assert_eq!(tier(5), Tier::Fast);
    assert_eq!(tier(1), Tier::Basic);
}

#[test]
fn tier_rule_over_a_range() {
    for n in 1u32..=1000 {
        let expected = if n % 15 == 0 {
            Tier::Heavy
        } else if n % 5 == 0 {
            Tier::Fast
        } else if n % 3 == 0 {
            Tier::Armored
        } else {
            Tier::Basic
        };
        assert_eq!(tier(n), expected);
    }
}

#[test]
fn damage_table() {
    assert_eq!(damage(Tier::Heavy), 5);
    assert_eq!(damage(Tier::Fast), 4);
    assert_eq!(damage(Tier::Armored), 6);
    assert_eq!(damage(Tier::Basic), 2);
}

#[test]
fn damage_floors_at_zero() {
    assert_eq!(apply_damage(3, 6), 0);
    assert_eq!(apply_damage(0, 2), 0);
    assert_eq!(apply_damage(6, 6), 0);
    assert_eq!(apply_damage(10, 4), 6);
}

#[test]
fn armored_hit_on_low_hp_gives_zero() {
    let mut s = state_with_enemies(3);
    assert_eq!(s.enemies[2].tier, Tier::Armored);
    s.hp = 3;
    let r = s.collision_logic(&vec![hit(3)]);
    assert_eq!(s.hp, 0);
    assert_eq!(r.removed, vec![3]);
    assert_eq!(r.impacts, 1);
}

#[test]
fn three_basic_collisions() {
    let mut s = state_with_enemies(4);
    assert_eq!(s.hp, 100);
    let before = s.enemies.len();
    let ids: Vec<u32> = s.enemies.iter().filter(|e| e.tier == Tier::Basic).map(|e| e.id).collect();
    assert_eq!(ids, vec![1, 2, 4]);
    let events: Vec<CollisionEvent> = ids.iter().map(|&id| hit(id)).collect();
    let r = s.collision_logic(&events);
    assert_eq!(s.hp, 94);
    assert_eq!(s.score, 0);
    assert_eq!(s.enemies.len(), before - 3);
    assert_eq!(r.removed, vec![1, 2, 4]);
    assert_eq!(r.impacts, 3);
    assert_eq!(s.enemies[0].id, 3);
}

#[test]
fn each_tier_damages_by_table() {
    let mut s = state_with_enemies(15);
    s.collision_logic(&vec![hit(15)]);
    assert_eq!(s.hp, 95);
    s.collision_logic(&vec![hit(10)]);
    assert_eq!(s.hp, 91);
    s.collision_logic(&vec![hit(9)]);
    assert_eq!(s.hp, 85);
    s.collision_logic(&vec![hit(7)]);
    assert_eq!(s.hp, 83);
}

#[test]
fn repeated_begin_damages_once() {
    let mut s = state_with_enemies(2);
    let r = s.collision_logic(&vec![hit(1), hit(1)]);
    assert_eq!(s.hp, 98);
    assert_eq!(r.removed, vec![1]);
    assert_eq!(r.impacts, 2);
    assert_eq!(s.enemies.len(), 1);
}

#[test]
fn end_events_and_other_pairs_are_ignored() {
    let mut s = state_with_enemies(2);
    let events = vec![
        CollisionEvent { begin: false, first: Collider::Player, second: Collider::Enemy(1) },
        CollisionEvent { begin: true, first: Collider::Enemy(1), second: Collider::Enemy(2) },
        CollisionEvent { begin: true, first: Collider::Other, second: Collider::Enemy(2) },
    ];
    let r = s.collision_logic(&events);
    assert_eq!(s.hp, 100);
    assert_eq!(s.enemies.len(), 2);
    assert_eq!(r.impacts, 0);
    assert!(r.removed.is_empty());
}

#[test]
fn enemy_listed_first_is_hit_too() {
    let mut s = state_with_enemies(1);
    let r = s.collision_logic(&vec![CollisionEvent {
        begin: true,
        first: Collider::Enemy(1),
        second: Collider::Player,
    }]);
    assert_eq!(s.hp, 98);
    assert_eq!(r.removed, vec![1]);
}

#[test]
fn spawn_places_enemy_at_right_edge() {
    let mut s = GameState::default();
    let e = s.spawn_enemy_at(BASE_INTERVAL_US, 1280, -12).unwrap();
    assert_eq!(e, Enemy { id: 1, tier: Tier::Basic, x: 740, y: -12 });
    assert_eq!(s.enemy_number, 1);
    assert_eq!(s.enemies, vec![e]);
}

#[test]
fn spawn_waits_for_the_timer() {
    let mut s = GameState::default();
    assert!(s.spawn_enemy_at(200_000, 1280, 0).is_none());
    assert!(s.spawn_enemy_at(200_000, 1280, 0).is_none());
    assert_eq!(s.spawn_timer.elapsed_us, 400_000);
    assert!(s.spawn_enemy_at(200_000, 1280, 0).is_some());
    assert_eq!(s.spawn_timer.elapsed_us, 100_000);
    assert_eq!(s.enemies.len(), 1);
}

#[test]
fn large_delta_spawns_once() {
    let mut s = GameState::default();
    assert!(s.spawn_enemy_at(10 * BASE_INTERVAL_US, 1280, 0).is_some());
    assert_eq!(s.enemies.len(), 1);
    assert_eq!(s.enemy_number, 1);
}

#[test]
fn spawn_indices_increase() {
    let s = state_with_enemies(20);
    for (i, e) in s.enemies.iter().enumerate() {
        assert_eq!(e.id, i as u32 + 1);
        assert_eq!(e.tier, tier(e.id));
    }
}

#[test]
fn random_spawn_height_in_range() {
    let mut s = GameState::default();
    for _ in 0..200 {
        let e = s.spawn_enemy_logic(BASE_INTERVAL_US, 1000).unwrap();
        assert!(-300 <= e.y && e.y < 300);
        assert_eq!(e.x, 600);
    }
    assert_eq!(s.enemy_number, 200);
}

#[test]
fn timer_ticks() {
    let mut t = SpawnTimer::new();
    assert!(!t.tick(499_999));
    assert!(t.tick(1));
    assert_eq!(t.elapsed_us, 0);
    assert!(t.tick(1_200_000));
    assert_eq!(t.elapsed_us, 200_000);
    t.set_interval(100_000);
    assert!(t.tick(0));
    assert_eq!(t.elapsed_us, 0);
}

#[test]
fn enemies_move_and_despawn_with_score() {
    let mut s = state_with_enemies(1);
    assert_eq!(s.enemies[0].x, 740);
    for k in 1..=46 {
        let gone = s.move_enemy();
        assert!(gone.is_empty());
        assert_eq!(s.enemies[0].x, 740 - 30 * k);
    }
    assert_eq!(s.enemies[0].x, -640);
    let gone = s.move_enemy();
    assert_eq!(gone, vec![1]);
    assert!(s.enemies.is_empty());
    assert_eq!(s.score, 1);
}

#[test]
fn score_counts_each_despawned_enemy() {
    let mut s = state_with_enemies(3);
    s.enemies[0].x = -640;
    s.enemies[2].x = -626;
    let gone = s.move_enemy();
    assert_eq!(gone, vec![1, 3]);
    assert_eq!(s.score, 2);
    assert_eq!(s.enemies.len(), 1);
    assert_eq!(s.enemies[0].id, 2);
    assert_eq!(s.enemies[0].x, 710);
}

#[test]
fn collision_removal_does_not_score() {
    let mut s = state_with_enemies(2);
    s.collision_logic(&vec![hit(1)]);
    assert_eq!(s.score, 0);
    s.enemies[0].x = -640;
    s.move_enemy();
    assert_eq!(s.score, 1);
}

#[test]
fn difficulty_brackets() {
    assert_eq!(spawn_interval_for(0), 500_000);
    assert_eq!(spawn_interval_for(60), 500_000);
    assert_eq!(spawn_interval_for(61), 300_000);
    assert_eq!(spawn_interval_for(75), 300_000);
    assert_eq!(spawn_interval_for(150), 300_000);
    assert_eq!(spawn_interval_for(151), 200_000);
    assert_eq!(spawn_interval_for(200), 200_000);
    assert_eq!(spawn_interval_for(250), 200_000);
    assert_eq!(spawn_interval_for(251), 100_000);
    assert_eq!(spawn_interval_for(300), 100_000);
}

#[test]
fn difficulty_never_loosens() {
    let mut last = spawn_interval_for(0);
    for score in 1u32..=400 {
        let now = spawn_interval_for(score);
        assert!(now <= last);
        last = now;
    }
}

#[test]
fn difficulty_sets_timer_interval() {
    let mut s = GameState::default();
    s.score = 200;
    s.spawn_timer.elapsed_us = 150_000;
    s.game_difficulty_logic();
    assert_eq!(s.spawn_timer.interval_us, 200_000);
    assert_eq!(s.spawn_timer.elapsed_us, 150_000);
    s.game_difficulty_logic();
    assert_eq!(s.spawn_timer.interval_us, 200_000);
}

#[test]
fn game_over_once_with_high_score() {
    let mut s = GameState::with_high_score(7);
    s.score = 12;
    let step = s.game_over_logic(false);
    assert!(!step.entered);
    assert!(!s.game_over);
    s.hp = 0;
    let step = s.game_over_logic(false);
    assert!(step.entered);
    assert!(!step.exit);
    assert!(s.game_over);
    assert_eq!(s.high_score, 12);
    let step = s.game_over_logic(true);
    assert!(!step.entered);
    assert!(step.exit);
    assert_eq!(s.high_score, 12);
}

#[test]
fn high_score_kept_when_larger() {
    let mut s = GameState::with_high_score(50);
    s.score = 20;
    s.hp = 0;
    assert!(s.game_over_logic(false).entered);
    assert_eq!(s.high_score, 50);
}

#[test]
fn hits_until_game_over() {
    let mut s = state_with_enemies(60);
    let events: Vec<CollisionEvent> = (1..=60).map(hit).collect();
    s.collision_logic(&events);
    assert_eq!(s.hp, 0);
    assert!(s.game_over_logic(false).entered);
}

#[test]
fn frames_after_game_over_change_nothing() {
    let mut s = state_with_enemies(3);
    s.score = 4;
    s.hp = 0;
    s.game_over_logic(false);
    let enemies = s.enemies.clone();
    let timer = s.spawn_timer;
    assert!(s.spawn_enemy_at(BASE_INTERVAL_US, 1280, 0).is_none());
    assert!(s.move_enemy().is_empty());
    let r = s.collision_logic(&vec![hit(1)]);
    assert!(r.removed.is_empty());
    assert_eq!(r.impacts, 0);
    assert_eq!(s.enemies, enemies);
    assert_eq!(s.spawn_timer, timer);
    assert_eq!(s.enemy_number, 3);
    assert_eq!(s.score, 4);
    assert_eq!(s.hp, 0);
}

#[test]
fn fresh_state() {
    let s = GameState::default();
    assert_eq!(s.score, 0);
    assert_eq!(s.high_score, 0);
    assert_eq!(s.hp, MAX_HP);
    assert_eq!(s.enemy_number, 0);
    assert!(s.enemies.is_empty());
    assert_eq!(s.spawn_timer.interval_us, 500_000);
    assert!(!s.game_over);
}
