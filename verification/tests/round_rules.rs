use asteroids::stage::{FrameInput, Stage};

fn input(accel: bool, fire: bool, stick: bool) -> FrameInput {
    FrameInput { accel, fire, stick }
}

#[test]
fn new_round() {
    let s = Stage::new(40);
    assert_eq!(s, Stage { score: 0, highscore: 40, alive: true, can_shoot: false });
}

#[test]
fn score_raises_highscore() {
    let mut s = Stage::new(5);
    assert_eq!(s.on_score(3), Some(5));
    assert_eq!((s.score, s.highscore), (3, 5));
    assert_eq!(s.on_score(10), Some(13));
    assert_eq!((s.score, s.highscore), (13, 13));
}

#[test]
fn score_never_below_zero() {
    let mut s = Stage::new(5);
    s.on_score(2);
    assert_eq!(s.on_score(-10), Some(5));
    assert_eq!(s.score, 0);
    assert_eq!(s.highscore, 5);
}

#[test]
fn dead_player_scores_nothing() {
    let mut s = Stage::new(5);
    assert!(s.on_player_body_entered(true));
    assert!(!s.alive);
    assert_eq!(s.on_score(10), None);
    assert_eq!((s.score, s.highscore), (0, 5));
}

#[test]
fn other_bodies_do_not_kill() {
    let mut s = Stage::new(5);
    assert!(!s.on_player_body_entered(false));
    assert!(s.alive);
}

#[test]
fn shooting_needs_the_timer() {
    let mut s = Stage::new(0);
    let a = s.frame(input(false, true, false));
    assert!(!a.shoot);
    s.on_shoot_timer_timeout();
    assert!(s.can_shoot);
    let a = s.frame(input(false, true, false));
    assert!(a.shoot);
    assert!(!s.can_shoot);
    let a = s.frame(input(false, true, false));
    assert!(!a.shoot);
}

#[test]
fn living_frame_actions() {
    let mut s = Stage::new(0);
    let a = s.frame(input(true, false, true));
    assert!(a.thrust && a.steer_by_stick && a.steer_and_track && !a.hide_compass && !a.shoot);
    let a = s.frame(input(false, false, false));
    assert!(!a.thrust && !a.steer_by_stick && a.steer_and_track);
}

#[test]
fn dead_frame_actions() {
    let mut s = Stage::new(0);
    s.on_shoot_timer_timeout();
    s.on_player_body_entered(true);
    let a = s.frame(input(true, true, true));
    assert!(!a.thrust && !a.shoot && !a.steer_by_stick && !a.steer_and_track && a.hide_compass);
    assert!(s.can_shoot);
}

#[test]
fn no_shot_until_reload_across_events() {
    let mut s = Stage::new(0);
    s.on_shoot_timer_timeout();
    assert!(s.frame(input(false, true, false)).shoot);
    s.on_score(3);
    s.on_player_body_entered(false);
    assert!(!s.frame(input(true, true, true)).shoot);
    s.on_score(-1);
    assert!(!s.frame(input(false, true, false)).shoot);
    assert!(!s.can_shoot);
    assert!(s.score <= s.highscore);
    s.on_shoot_timer_timeout();
    assert!(s.frame(input(false, true, false)).shoot);
}
