use aurora_alert::level::AlertLevel;
use aurora_alert::text::{same_text, text_chars};

const LEVELS: [AlertLevel; 4] =
    [AlertLevel::Green, AlertLevel::Yellow, AlertLevel::Amber, AlertLevel::Red];

#[test]
fn levels_are_ordered_green_yellow_amber_red() {
    assert!(AlertLevel::Green < AlertLevel::Yellow);
    assert!(AlertLevel::Yellow < AlertLevel::Amber);
    assert!(AlertLevel::Amber < AlertLevel::Red);
    for (i, a) in LEVELS.iter().enumerate() {
        assert_eq!(a.rank() as usize, i);
        for (j, b) in LEVELS.iter().enumerate() {
            assert_eq!(a < b, i < j);
            assert_eq!(a <= b, i <= j);
            assert_eq!(a > b, i > j);
            assert_eq!(a >= b, i >= j);
            assert_eq!(a == b, i == j);
            assert_eq!(a.at_least(*b), i >= j);
            assert_eq!(a.partial_cmp(b), Some(i.cmp(&j)));
        }
    }
}

#[test]
fn levels_have_names() {
    let names = ["green", "yellow", "amber", "red"];
    let shown = ["Green", "Yellow", "Amber", "Red"];
    for (i, level) in LEVELS.iter().enumerate() {
        assert_eq!(level.name(), names[i]);
        assert_eq!(level.to_string(), shown[i]);
        assert_eq!(AlertLevel::from_name(names[i]), Some(*level));
    }
    assert_eq!(AlertLevel::from_name("Green"), None);
    assert_eq!(AlertLevel::from_name(""), None);
    assert_eq!(AlertLevel::from_name("green "), None);
    assert_eq!(AlertLevel::from_name("orange"), None);
}

#[test]
fn texts_are_compared_by_their_characters() {
    assert!(same_text("", ""));
    assert!(same_text("amber", "amber"));
    assert!(!same_text("amber", "Amber"));
    assert!(!same_text("amber", "ambe"));
}

#[test]
fn characters_of_a_text_come_in_order() {
    assert_eq!(text_chars(""), Vec::<char>::new());
    assert_eq!(text_chars("a b"), vec!['a', ' ', 'b']);
    assert_eq!(text_chars("é\u{1f30c}\n"), vec!['é', '\u{1f30c}', '\n']);
}
