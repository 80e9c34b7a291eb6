use asteroids::clock::Timestamp;
use asteroids::globals::{Globals, Retrieval, SaveData, DATA_VERSION};
use asteroids::stage::Stage;

fn at(seconds: i64) -> Timestamp {
    Timestamp { seconds, nanos: 0 }
}

#[test]
fn new_globals_are_empty() {
    let g = Globals::new();
    assert_eq!((g.highscore, g.when, g.last_score), (0, None, 0));
}

#[test]
fn nothing_to_store_without_new_highscore() {
    let g = Globals { highscore: 7, when: None, last_score: 7 };
    assert!(g.store_request_at(at(10)).is_none());
    let g = Globals { highscore: 3, when: None, last_score: 9 };
    assert!(g.store_request_at(at(10)).is_none());
}

#[test]
fn new_highscore_is_stored_with_version_and_time() {
    let g = Globals { highscore: 12, when: None, last_score: 7 };
    let d = g.store_request_at(at(1_700_000_000)).unwrap();
    assert_eq!(d.highscore, 12);
    assert_eq!(d.version, Some(DATA_VERSION));
    assert_eq!(d.when, at(1_700_000_000));
}

#[test]
fn current_record_is_adopted() {
    let mut g = Globals::new();
    let r = g.retrieve_score(Ok(SaveData { when: at(42), highscore: 99, version: Some(1) }));
    assert!(matches!(r, Retrieval::Loaded));
    assert_eq!((g.highscore, g.when, g.last_score), (99, Some(at(42)), 99));
}

#[test]
fn old_record_is_ignored() {
    let mut g = Globals { highscore: 5, when: Some(at(1)), last_score: 4 };
    let r = g.retrieve_score(Ok(SaveData { when: at(42), highscore: 99, version: None }));
    assert!(matches!(r, Retrieval::OldData));
    assert_eq!((g.highscore, g.when, g.last_score), (0, None, 4));
    let r = g.retrieve_score(Ok(SaveData { when: at(42), highscore: 99, version: Some(2) }));
    assert!(matches!(r, Retrieval::OldData));
    assert_eq!(g.highscore, 0);
}

#[test]
fn failed_read_is_reported() {
    let mut g = Globals { highscore: 5, when: Some(at(1)), last_score: 4 };
    let r = g.retrieve_score(Err("no file".to_string()));
    match r {
        Retrieval::Failed(msg) => assert_eq!(msg, "no file"),
        _ => panic!("expected a failure"),
    }
    assert_eq!((g.highscore, g.when, g.last_score), (0, None, 4));
}

#[test]
fn stored_record_reads_back() {
    let g = Globals { highscore: 30, when: None, last_score: 10 };
    let d = g.store_request_at(at(500)).unwrap();
    let mut other = Globals { highscore: 1, when: None, last_score: 0 };
    assert!(matches!(other.retrieve_score(Ok(d)), Retrieval::Loaded));
    assert_eq!((other.highscore, other.when, other.last_score), (30, Some(at(500)), 30));
    assert!(other.store_request_at(at(600)).is_none());
}

#[test]
fn beaten_highscore_is_saved_after_a_round() {
    let mut g = Globals::new();
    g.retrieve_score(Ok(SaveData { when: at(1), highscore: 20, version: Some(1) }));
    let mut round = Stage::new(g.highscore);
    round.on_score(15);
    assert!(g.store_request_at(at(2)).is_none());
    let published = round.on_score(10).unwrap();
    g.highscore = published;
    round.on_player_body_entered(true);
    let d = g.store_request_at(at(3)).unwrap();
    assert_eq!((d.highscore, d.when, d.version), (25, at(3), Some(1)));
}
