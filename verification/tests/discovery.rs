use azalea_shell::discovery::{owner_changed, Discovery, DiscoveryOutput};

#[test]
fn owner_change_classification() {
    match owner_changed("org.a".to_string(), Some(":1.5".to_string())) {
        DiscoveryOutput::ObjectCreated(n) => assert_eq!(n, "org.a"),
        DiscoveryOutput::ObjectDeleted(_) => panic!("expected a creation"),
    }
    match owner_changed("org.b".to_string(), None) {
        DiscoveryOutput::ObjectDeleted(n) => assert_eq!(n, "org.b"),
        DiscoveryOutput::ObjectCreated(_) => panic!("expected a deletion"),
    }
}

#[test]
fn query_lists_each_known_name_once() {
    let d = Discovery::new(vec!["org.a".to_string(), "org.b".to_string(), "org.a".to_string()]);
    let mut names = d.query();
    names.sort();
    assert_eq!(names, vec!["org.a".to_string(), "org.b".to_string()]);
    assert!(Discovery::new(vec![]).query().is_empty());
}
