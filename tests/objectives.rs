use deathball::health::Health;
use deathball::objectives::{Kind, Objective};

#[test]
fn objective_without_goal_is_never_advanced() {
    let mut o = Objective::none();
    assert_eq!(o.kind(), Kind::NoGoal);
    assert_eq!(o.target(), 1);
    o.on_kill_enemy();
    o.on_destroy_building();
    o.on_update_death_ball_count(9);
    assert_eq!(o.current(), 0);
    assert!(!o.is_complete());
}

#[test]
fn save_animals_tracks_the_count() {
    let mut o = Objective::save_animals(3);
    o.on_update_death_ball_count(2);
    assert!(!o.is_complete());
    o.on_update_death_ball_count(4);
    assert_eq!(o.current(), 4);
    assert!(o.is_complete());
    o.on_update_death_ball_count(1);
    assert_eq!(o.current(), 1);
    o.on_kill_enemy();
    assert_eq!(o.current(), 1);
}

#[test]
fn kill_objectives_count_kills_only() {
    let mut o = Objective::kill_enemies(2);
    o.on_destroy_building();
    assert_eq!(o.current(), 0);
    o.on_kill_enemy();
    o.on_kill_enemy();
    assert_eq!(o.current(), 2);
    assert!(o.is_complete());
    let mut b = Objective::kill_bosses(1);
    b.on_kill_enemy();
    assert!(b.is_complete());
}

#[test]
fn demolition_counts_buildings_and_saturates() {
    let mut o = Objective::destroy_buildings(1);
    o.on_kill_enemy();
    assert_eq!(o.current(), 0);
    for _ in 0..300 {
        o.on_destroy_building();
    }
    assert_eq!(o.current(), 255);
    assert!(o.is_complete());
}

#[test]
fn zero_target_is_complete_at_once() {
    assert!(Objective::kill_enemies(0).is_complete());
}

#[test]
fn health_saturates_and_shows_the_bar() {
    let mut h = Health::new(10);
    assert_eq!((h.health, h.max_health, h.timer), (10, 10, 0));
    h.damage(0);
    assert_eq!(h.timer, 0);
    h.damage(4);
    assert_eq!(h.health, 6);
    assert_eq!(h.timer, 5000);
    h.update(1200);
    assert_eq!(h.timer, 3800);
    h.damage(50);
    assert_eq!(h.health, 0);
    assert!(h.is_empty());
    h.update(9000);
    assert_eq!(h.timer, 0);
}
