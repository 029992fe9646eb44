use azalea_shell::notification::{
    capabilities, server_information, Hints, Image, ImageRequest, NotificationCard, NotificationStore,
    Notifications, RawImageData,
};

fn no_hints() -> Hints {
    Hints { image_path: None, image_data: None }
}

#[test]
fn fresh_identifiers_count_up_and_replacements_keep_theirs() {
    let mut n = Notifications::new();
    let a = n.notify("app".into(), 0, "".into(), "s".into(), "b".into(), no_hints());
    let b = n.notify("app".into(), 0, "".into(), "s".into(), "b".into(), no_hints());
    assert_eq!((a.id, b.id), (1, 2));
    let c = n.notify("app".into(), 1, "".into(), "s2".into(), "b2".into(), no_hints());
    assert_eq!(c.id, 1);
    assert_eq!(n.last_id_used(), 2);
    let d = n.notify("app".into(), 0, "icon".into(), "s".into(), "b".into(), no_hints());
    assert_eq!(d.id, 3);
    assert_eq!(d.app_icon, "icon");
    assert_eq!(d.summary, "s");
}

#[test]
fn image_path_hint_wins_over_image_data() {
    let mut n = Notifications::new();
    let data = RawImageData { width: 2, height: 1, rowstride: 6, has_alpha: false, bits_per_sample: 8, channels: 3, data: vec![0; 6] };
    let x = n.notify(
        "a".into(),
        0,
        "".into(),
        "".into(),
        "".into(),
        Hints { image_path: Some("/tmp/p.png".into()), image_data: Some(data.clone()) },
    );
    assert!(matches!(x.image, Some(Image::Path(ref p)) if p == "/tmp/p.png"));
    let y = n.notify("a".into(), 0, "".into(), "".into(), "".into(), Hints { image_path: None, image_data: Some(data) });
    assert!(matches!(y.image, Some(Image::Data { width: 2, height: 1, channels: 3, .. })));
    let z = n.notify("a".into(), 0, "".into(), "".into(), "".into(), no_hints());
    assert!(z.image.is_none());
}

#[test]
fn capabilities_and_information() {
    assert_eq!(capabilities(), vec!["body".to_string(), "actions".to_string(), "icon-static".to_string()]);
    let (a, b, c, d) = server_information("azalea-shell", "someone", "0.1.0");
    assert_eq!((a.as_str(), b.as_str(), c.as_str(), d.as_str()), ("azalea-shell", "someone", "0.1.0", "1.2"));
}

#[test]
fn store_reads_back_what_was_written() {
    let mut n = Notifications::new();
    let mut store = NotificationStore::new();
    let a = n.notify("a".into(), 0, "".into(), "first".into(), "".into(), no_hints());
    let b = n.notify("b".into(), 0, "".into(), "second".into(), "".into(), no_hints());
    store.insert(a);
    store.insert(b);
    assert_eq!(store.len(), 2);
    assert_eq!(store.get(1).unwrap().summary, "first");
    let r = n.notify("a".into(), 1, "".into(), "again".into(), "".into(), no_hints());
    store.insert(r);
    assert_eq!(store.len(), 2);
    assert_eq!(store.get(1).unwrap().summary, "again");
    assert_eq!(store.remove(1).unwrap().summary, "again");
    assert!(store.get(1).is_none());
    assert!(store.remove(1).is_none());
    assert_eq!(store.get(2).unwrap().summary, "second");
}

#[test]
fn cards_pick_their_image() {
    let mut n = Notifications::new();
    let with_icon = n.notify("a".into(), 0, "firefox".into(), "".into(), "".into(), no_hints());
    let (card, req) = NotificationCard::init_model(with_icon);
    assert!(card.has_image);
    assert!(matches!(req, Some(ImageRequest::Load(ref s)) if s == "firefox"));
    assert_eq!(card.close(), 1);
    let plain = n.notify("a".into(), 0, "".into(), "".into(), "".into(), no_hints());
    let (card, req) = NotificationCard::init_model(plain);
    assert!(!card.has_image && req.is_none());
    let data = RawImageData { width: 1, height: 1, rowstride: 4, has_alpha: true, bits_per_sample: 8, channels: 4, data: vec![1, 2, 3, 4] };
    let pic = n.notify("a".into(), 0, "x".into(), "".into(), "".into(), Hints { image_path: None, image_data: Some(data) });
    let (card, req) = NotificationCard::init_model(pic);
    assert!(card.has_image);
    match req {
        Some(ImageRequest::Pixbuf { width, height, rowstride, has_alpha, bits_per_sample, data }) => {
            assert_eq!((width, height, rowstride, has_alpha, bits_per_sample), (1, 1, 4, true, 8));
            assert_eq!(data, vec![1, 2, 3, 4]);
        }
        other => panic!("unexpected {other:?}"),
    }
}
