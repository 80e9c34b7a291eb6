use asteroids::meteor::{skin_node_name, HitOutcome, Meteor};

#[test]
fn new_meteor() {
    assert_eq!(Meteor::new(), Meteor { hits: 0, hit: false });
}

#[test]
fn hit_is_pending_until_handled() {
    let mut m = Meteor::new();
    m.on_hit();
    assert!(m.hit);
    m.after_hit(3, 1);
    assert!(!m.hit);
}

#[test]
fn young_meteor_cracks() {
    let mut m = Meteor { hits: 4, hit: true };
    let o = m.after_hit(5, 2);
    assert_eq!(o, HitOutcome::Crack { debris_hits: 5 });
    assert_eq!(m.hits, 5);
    assert_eq!(o.bonus(), 1);
}

#[test]
fn debris_roll_zero_adds_a_hit() {
    let mut m = Meteor { hits: 1, hit: true };
    assert_eq!(m.after_hit(0, 0), HitOutcome::Crack { debris_hits: 3 });
    assert_eq!(m.hits, 2);
}

#[test]
fn old_meteor_dies_unless_roll_zero() {
    let mut m = Meteor { hits: 5, hit: true };
    let o = m.after_hit(1, 0);
    assert_eq!(o, HitOutcome::Die);
    assert_eq!(o.bonus(), 10);
    assert_eq!(m, Meteor { hits: 5, hit: false });
    let mut m = Meteor { hits: 5, hit: true };
    assert_eq!(m.after_hit(0, 3), HitOutcome::Crack { debris_hits: 6 });
}

#[test]
fn skin_names() {
    assert_eq!(skin_node_name(1), "Meteor1");
    assert_eq!(skin_node_name(4), "Meteor4");
    assert_eq!(skin_node_name(0), "Meteor0");
    assert_eq!(skin_node_name(123), "Meteor123");
}
