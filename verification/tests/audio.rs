use azalea_shell::audio::{average_volume, VolumeTracker};

#[test]
fn average_rounds_toward_zero() {
    assert_eq!(average_volume(&vec![10, 20]), 15);
    assert_eq!(average_volume(&vec![10, 11]), 10);
    assert_eq!(average_volume(&vec![-3, 0]), -1);
    assert_eq!(average_volume(&vec![7]), 7);
}

#[test]
fn only_changes_are_reported() {
    let mut t = VolumeTracker::new();
    assert!(!t.changed(0));
    assert!(t.changed(40));
    t.record(40);
    assert!(!t.changed(40));
    assert!(t.changed(39));
    // a report that was not sent is not recorded
    assert_eq!(t.previous_volume, 40);
    t.record(39);
    assert_eq!(t.previous_volume, 39);
}
