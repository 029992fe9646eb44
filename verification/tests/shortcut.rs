use azalea_shell::shortcut::{find_desktop_entry, DesktopApp, Shortcut};

fn app(id: Option<&str>, name: &str) -> DesktopApp {
    DesktopApp { id: id.map(|i| i.to_string()), name: name.to_string(), executable: format!("/usr/bin/{}", name.to_lowercase()) }
}

#[test]
fn first_matching_entry_is_used() {
    let apps = vec![app(Some("a.desktop"), "A"), app(Some("ff.desktop"), "Firefox"), app(Some("ff.desktop"), "Other")];
    assert_eq!(find_desktop_entry(&apps, "ff.desktop"), Some(1));
    let s = Shortcut::init(&apps, "ff.desktop");
    assert!(s.found());
    assert_eq!(s.label(), "Firefox");
    assert_eq!(s.click().as_deref(), Some("/usr/bin/firefox"));
}

#[test]
fn missing_entry_shows_nothing() {
    let apps = vec![app(Some("a.desktop"), "A")];
    let s = Shortcut::init(&apps, "zz.desktop");
    assert!(!s.found());
    assert_eq!(s.label(), "");
    assert!(s.click().is_none());
}

#[test]
fn application_without_id_matches_empty_entry() {
    let apps = vec![app(Some("a.desktop"), "A"), app(None, "NoId")];
    assert_eq!(find_desktop_entry(&apps, ""), Some(1));
    assert_eq!(Shortcut::init(&apps, "").label(), "NoId");
}
