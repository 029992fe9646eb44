use azalea_shell::search::{matches_filter, sort_by_name, AppInfo, Catalog, EntryInput, LauncherEntry};

fn app(id: &str, name: &str) -> AppInfo {
    AppInfo::from_parts(Some(id.to_string()), name.to_string(), None, name.to_string(), format!("/bin/{id}"), None)
}

#[test]
fn app_info_defaults() {
    let a = AppInfo::from_parts(None, "Files".to_string(), Some("icon".to_string()), "Files".to_string(), "/bin/files".to_string(), None);
    assert_eq!(a.id, "Files");
    assert_eq!(a.command, "/bin/files");
    let b = AppInfo::from_parts(Some("b.desktop".to_string()), "B".to_string(), None, "B".to_string(), "/bin/b".to_string(), Some("/bin/b --x".to_string()));
    assert_eq!(b.id, "b.desktop");
    assert_eq!(b.command, "/bin/b --x");
}

#[test]
fn catalog_search_by_prefix() {
    let c = Catalog::new(vec![app("fx", "Firefox"), app("fi", "Files"), app("ch", "Chromium")]);
    let names: Vec<String> = c.search("Fi").into_iter().map(|a| a.name).collect();
    assert_eq!(names, vec!["Firefox".to_string(), "Files".to_string()]);
    assert!(c.search("fi").is_empty());
    assert_eq!(c.search("").len(), 3);
    assert_eq!(c.all().len(), 3);
    assert_eq!(c.lookup("ch").unwrap().name, "Chromium");
    assert!(c.lookup("zz").is_none());
}

#[test]
fn catalog_later_entry_replaces_same_id() {
    let c = Catalog::new(vec![app("a", "One"), app("b", "Two"), app("a", "Three")]);
    assert_eq!(c.all().len(), 2);
    assert_eq!(c.lookup("a").unwrap().name, "Three");
    let names: Vec<String> = c.all().into_iter().map(|a| a.name).collect();
    assert_eq!(names, vec!["Three".to_string(), "Two".to_string()]);
}

#[test]
fn launcher_filter() {
    assert!(matches_filter("Firefox", "fire"));
    assert!(!matches_filter("Firefox", "Fire"));
    assert!(!matches_filter("Firefox", ""));
    assert!(matches_filter("ÉDITEUR", "é"));
}

#[test]
fn sorting_is_by_name_and_stable() {
    let sorted = sort_by_name(vec![app("1", "b"), app("2", "a"), app("3", "B"), app("4", "a"), app("5", "ab"), app("6", "é")]);
    let ids: Vec<String> = sorted.into_iter().map(|a| a.id).collect();
    assert_eq!(ids, vec!["3", "2", "4", "5", "1", "6"]);
    assert!(sort_by_name(vec![]).is_empty());
}

#[test]
fn launcher_entry_filters_and_launches() {
    let mut e = LauncherEntry::init_model(app("fx.desktop", "Firefox"));
    assert!(!e.visible);
    assert!(e.update(EntryInput::Filter("fi".to_string())).is_none());
    assert!(e.visible);
    assert!(e.update(EntryInput::Filter("".to_string())).is_none());
    assert!(!e.visible);
    assert_eq!(e.update(EntryInput::Click).as_deref(), Some("fx.desktop"));
}
