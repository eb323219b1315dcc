use embed_creator::catalog::{find_key, find_key_or_name, ColorKey, CATALOG_LEN};
use embed_creator::text::{chars_of, contains_text, same_text};

#[test]
fn catalog_order_and_texts() {
    assert_eq!(CATALOG_LEN, 28);
    assert_eq!(ColorKey::from_rank(0), ColorKey::BlitzBlue);
    assert_eq!(ColorKey::from_rank(27), ColorKey::Teal);
    for i in 0..CATALOG_LEN {
        assert_eq!(ColorKey::from_rank(i).index(), i);
    }
    assert_eq!(ColorKey::DarkerGrey.key(), "DARKER_GREY");
    assert_eq!(ColorKey::DarkerGrey.name(), "Darker Grey");
    assert_eq!(ColorKey::MeibePink.index(), 21);
}

#[test]
fn find_key_looks_only_in_range() {
    assert_eq!(find_key("TEAL", 25, 28), Some(ColorKey::Teal));
    assert_eq!(find_key("TEAL", 0, 25), None);
    assert_eq!(find_key("Teal", 0, 28), None);
    assert_eq!(find_key("BLITZ_BLUE", 0, 1), Some(ColorKey::BlitzBlue));
}

#[test]
fn find_by_key_or_name() {
    assert_eq!(find_key_or_name("Light Grey"), Some(ColorKey::LightGrey));
    assert_eq!(find_key_or_name("LIGHTER_GREY"), Some(ColorKey::LighterGrey));
    assert_eq!(find_key_or_name("light grey"), None);
}

#[test]
fn text_helpers() {
    assert!(same_text("abc", "abc"));
    assert!(!same_text("abc", "abd"));
    assert!(!same_text("abc", "ab"));
    assert!(contains_text("dark red", "k r"));
    assert!(contains_text("red", ""));
    assert!(!contains_text("re", "red"));
    assert_eq!(chars_of("héllo"), vec!['h', 'é', 'l', 'l', 'o']);
}
