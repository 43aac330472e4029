use smart_review::action::{all, find, groups, is_hint, is_known, levenshtein, suggest, Group};

#[test]
fn ids_are_unique_and_described() {
    let mut seen = std::collections::HashSet::new();
    for action in all() {
        assert!(seen.insert(action.id), "duplicate id {}", action.id);
        assert!(action.id.contains('.'), "{} should be dotted", action.id);
        assert!(!action.description.is_empty());
    }
}

#[test]
fn lookup_works() {
    assert!(is_known("app.quit"));
    assert!(!is_known("app.nonsense"));
}

#[test]
fn suggestions_point_at_near_misses() {
    assert_eq!(suggest("app.quit").map(|a| a.id), Some("app.quit"));
    assert_eq!(suggest("app.qut").map(|a| a.id), Some("app.quit"));
    assert_eq!(suggest("nav.dwn").map(|a| a.id), Some("nav.down"));
    assert!(suggest("completely.different").is_none());
}

#[test]
fn every_group_has_actions() {
    for group in groups() {
        assert!(
            all().iter().any(|action| action.group == group),
            "{group:?} is empty"
        );
    }
}

#[test]
fn every_action_belongs_to_a_group_the_help_popup_lists() {
    for action in all() {
        assert!(
            groups().contains(&action.group),
            "{} is in {:?}, which the help popup does not list",
            action.id,
            action.group
        );
    }
}

#[test]
fn distance_is_symmetric_and_zero_on_equal_input() {
    assert_eq!(levenshtein("abc", "abc"), 0);
    assert_eq!(levenshtein("kitten", "sitting"), 3);
    assert_eq!(levenshtein("flaw", "lawn"), 2);
}

#[test]
fn distance_counts_characters_and_does_not_depend_on_the_order() {
    assert_eq!(levenshtein("", "abc"), 3);
    assert_eq!(levenshtein("abc", ""), 3);
    assert_eq!(levenshtein("sitting", "kitten"), 3);
    assert_eq!(levenshtein("é", "e"), 1);
}

#[test]
fn only_a_hint_fires_before_its_sequence_is_complete() {
    assert!(is_hint("app.leader_menu"));
    assert!(!is_hint("app.quit"));
    assert!(!is_hint("app.nonsense"));
}

#[test]
fn an_action_is_found_with_its_group() {
    let action = find("app.quit").expect("known");
    assert_eq!(action.group, Group::App);
    assert_eq!(action.group.label(), "App");
    assert!(find("app.nonsense").is_none());
}

#[test]
fn the_way_over_a_third_text_is_no_shorter() {
    let texts = ["", "a", "nav.down", "nav.up", "nav.dwon", "kitten", "sitting", "東京"];
    for a in texts {
        for b in texts {
            for c in texts {
                assert!(levenshtein(a, c) <= levenshtein(a, b) + levenshtein(b, c));
            }
        }
    }
    assert_eq!(levenshtein("kitten", "sitting"), 3);
}
