use squeekboard::resources::{get_keyboard, get_overlays, Resources};

fn repository() -> Resources {
    Resources::new(vec![
        ("us".to_string(), "outlines: {}".to_string()),
        ("emoji/us".to_string(), "emoji layout".to_string()),
        ("terminal/us".to_string(), "terminal layout".to_string()),
        ("emoji/us".to_string(), "shadowed".to_string()),
    ])
}

#[test]
fn check_overlays_present() {
    let resources = repository();
    for name in get_overlays() {
        assert!(get_keyboard(&resources, &format!("{}/us", name)).is_some());
    }
}

#[test]
fn lookup_takes_first_match() {
    let resources = repository();
    assert_eq!(get_keyboard(&resources, "emoji/us"), Some("emoji layout"));
    assert_eq!(get_keyboard(&resources, "us"), Some("outlines: {}"));
    assert_eq!(get_keyboard(&resources, "de"), None);
    assert_eq!(get_overlays(), vec!["emoji", "terminal"]);
}
