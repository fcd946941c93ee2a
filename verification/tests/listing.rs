use crusty_keys::listing::{sorted_for_listing, str_lex_le};
use crusty_keys::options::KeyMapOptions;
use crusty_keys::registry::{CallbackId, KeyMaps};

fn register(maps: &mut KeyMaps, s: &str, group: Option<&str>, desc: Option<&str>) {
    let options = KeyMapOptions {
        group: group.map(|g| g.to_string()),
        desc: desc.map(|d| d.to_string()),
    };
    assert!(maps.register_binding(s.to_string(), CallbackId(maps.len()), options));
}

#[test]
fn lexicographic_order_on_strings() {
    assert!(str_lex_le("", ""));
    assert!(str_lex_le("", "a"));
    assert!(!str_lex_le("a", ""));
    assert!(str_lex_le("abc", "abd"));
    assert!(!str_lex_le("abd", "abc"));
    assert!(str_lex_le("ab", "abc"));
    assert!(!str_lex_le("abc", "ab"));
    assert!(str_lex_le("same", "same"));
}

#[test]
fn listing_sorts_by_group_with_ungrouped_last() {
    let mut maps = KeyMaps::default();
    register(&mut maps, "<Ctrl>+a", Some("windows"), Some("close"));
    register(&mut maps, "<Ctrl>+b", None, Some("loose end"));
    register(&mut maps, "<Ctrl>+c", Some("audio"), Some("mute"));
    register(&mut maps, "<Ctrl>+d", Some("audio"), Some("louder"));
    register(&mut maps, "<Ctrl>+e", None, None);

    let rows = sorted_for_listing(&maps);
    assert_eq!(rows.len(), 5);
    assert_eq!(rows[0].1.group.as_deref(), Some("audio"));
    assert_eq!(rows[1].1.group.as_deref(), Some("audio"));
    assert_eq!(rows[2].1.group.as_deref(), Some("windows"));
    assert_eq!(rows[2].0, "<Ctrl>+a");
    assert_eq!(rows[3].1.group, None);
    assert_eq!(rows[4].1.group, None);
}

#[test]
fn listing_keeps_every_row() {
    let mut maps = KeyMaps::default();
    register(&mut maps, "<Alt>+x", Some("b"), None);
    register(&mut maps, "<Alt>+y", Some("a"), None);
    register(&mut maps, "<Alt>+z", Some("a"), None);

    let rows = sorted_for_listing(&maps);
    let mut names: Vec<String> = rows.iter().map(|r| r.0.clone()).collect();
    names.sort();
    assert_eq!(names, vec!["<Alt>+x".to_string(), "<Alt>+y".to_string(), "<Alt>+z".to_string()]);
}

#[test]
fn listing_of_nothing_is_empty() {
    let maps = KeyMaps::default();
    assert!(sorted_for_listing(&maps).is_empty());
}
