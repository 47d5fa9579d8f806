use pluralizer::{
    add_irregular_rule, add_plural_rule, add_singular_rule, add_uncountable_rule, default_table,
    initialize, pluralize, remove_dollar_escapes, replace_match, restore_case, to_plural,
    to_singular, Captured, RuleStore, RuleTable, UncountableRule,
};

fn english() -> RuleStore {
    let mut store = RuleStore::new();
    initialize(&mut store, &default_table()).expect("the built-in table compiles");
    store
}

fn s(text: &str) -> String {
    text.to_string()
}

#[test]
fn uncountable_words_never_change() {
    let store = english();
    for word in ["rice", "news", "sheep", "you", "Rice", "NEWS", "deer", "information"] {
        for count in [-3, 0, 1, 2, 7] {
            assert_eq!(pluralize(&store, word, count, false), word);
        }
    }
}

#[test]
fn added_uncountable_word_never_changes() {
    let mut store = english();
    add_uncountable_rule(&mut store, UncountableRule::String(s("Gizmo"))).unwrap();
    assert_eq!(pluralize(&store, "gizmo", 2, false), "gizmo");
    assert_eq!(pluralize(&store, "GIZMO", 5, false), "GIZMO");
    assert_eq!(pluralize(&store, "gizmo", 1, false), "gizmo");
}

#[test]
fn added_uncountable_pattern_never_changes() {
    let mut store = english();
    add_uncountable_rule(&mut store, UncountableRule::Regex(s("(?i)^.*ware$"))).unwrap();
    assert_eq!(pluralize(&store, "middleware", 2, false), "middleware");
    assert_eq!(pluralize(&store, "Middleware", 2, false), "Middleware");
    assert_eq!(pluralize(&store, "middleware", 1, false), "middleware");
}

#[test]
fn case_is_preserved() {
    let store = english();
    assert_eq!(pluralize(&store, "HOUSE", 2, false), "HOUSES");
    assert_eq!(pluralize(&store, "House", 2, false), "Houses");
    assert_eq!(pluralize(&store, "house", 2, false), "houses");
}

#[test]
fn irregular_takes_precedence_over_rules() {
    let mut store = RuleStore::new();
    add_plural_rule(&mut store, s("(?i)^(.*)$"), s("$1s")).unwrap();
    add_irregular_rule(&mut store, s("goose"), s("geese"));
    assert_eq!(pluralize(&store, "goose", 2, false), "geese");
    let mut english = english();
    add_irregular_rule(&mut english, s("goose"), s("geese"));
    assert_eq!(pluralize(&english, "goose", 2, false), "geese");
}

#[test]
fn irregular_forms_keep_their_case() {
    let store = english();
    assert_eq!(pluralize(&store, "Goose", 2, false), "Geese");
    assert_eq!(pluralize(&store, "GEESE", 1, false), "GOOSE");
    assert_eq!(pluralize(&store, "geese", 2, false), "geese");
    assert_eq!(pluralize(&store, "goose", 1, false), "goose");
}

#[test]
fn irregular_pair_replaces_clashing_pairs() {
    let mut store = RuleStore::new();
    add_irregular_rule(&mut store, s("cactus"), s("cacti"));
    add_irregular_rule(&mut store, s("cactus"), s("cactuses"));
    assert_eq!(pluralize(&store, "cactus", 2, false), "cactuses");
    assert_eq!(pluralize(&store, "cactuses", 1, false), "cactus");
    // the old plural no longer maps back
    assert_eq!(pluralize(&store, "cacti", 1, false), "cacti");
}

#[test]
fn count_is_written_before_the_word() {
    let store = english();
    assert_eq!(pluralize(&store, "cat", 3, true), "3 cats");
    assert_eq!(pluralize(&store, "cat", 1, true), "1 cat");
    assert_eq!(pluralize(&store, "cat", 0, true), "0 cats");
    assert_eq!(pluralize(&store, "cat", -1, true), "-1 cats");
    assert_eq!(pluralize(&store, "cat", 1234, true), "1234 cats");
    assert_eq!(
        pluralize(&store, "cat", isize::MIN, true),
        format!("{} cats", isize::MIN)
    );
    assert_eq!(
        pluralize(&store, "cat", isize::MAX, true),
        format!("{} cats", isize::MAX)
    );
}

#[test]
fn unknown_word_is_kept() {
    let store = RuleStore::new();
    assert_eq!(pluralize(&store, "widget", 2, false), "widget");
    let mut store = RuleStore::new();
    add_plural_rule(&mut store, s("(?i)^(.*)y$"), s("$1ies")).unwrap();
    assert_eq!(pluralize(&store, "widget", 2, false), "widget");
    assert_eq!(pluralize(&store, "Widget", 0, false), "Widget");
}

#[test]
fn new_capture_group_rule_applies() {
    let mut store = RuleStore::new();
    add_plural_rule(&mut store, s("(?i)^(ox)$"), s("$1en")).unwrap();
    assert_eq!(pluralize(&store, "ox", 2, false), "oxen");
    assert_eq!(pluralize(&store, "OX", 2, false), "OXEN");
    let mut english = english();
    add_plural_rule(&mut english, s("(?i)^(ox)$"), s("$1en")).unwrap();
    assert_eq!(pluralize(&english, "ox", 2, false), "oxen");
}

#[test]
fn plural_then_singular_round_trip() {
    let store = english();
    for word in ["cat", "dog", "box", "city", "church", "bus", "knife", "wolf", "house", "vertex"] {
        let plural = to_plural(&store, word);
        assert_eq!(to_singular(&store, &plural), to_singular(&store, word), "{}", word);
        assert_eq!(to_singular(&store, &plural), word, "{}", word);
    }
}

#[test]
fn later_rule_wins() {
    let mut store = RuleStore::new();
    add_plural_rule(&mut store, s("(?i)^(.*)$"), s("$1s")).unwrap();
    add_plural_rule(&mut store, s("(?i)^(.*)y$"), s("$1ies")).unwrap();
    assert_eq!(pluralize(&store, "city", 2, false), "cities");
    let mut store = RuleStore::new();
    add_plural_rule(&mut store, s("(?i)^(.*)y$"), s("$1ies")).unwrap();
    add_plural_rule(&mut store, s("(?i)^(.*)$"), s("$1s")).unwrap();
    assert_eq!(pluralize(&store, "city", 2, false), "citys");
}

#[test]
fn singular_rules_apply_for_count_one() {
    let mut store = RuleStore::new();
    add_singular_rule(&mut store, s("(?i)^(matr|append)ices$"), s("$1ix")).unwrap();
    assert_eq!(pluralize(&store, "Matrices", 1, false), "Matrix");
    assert_eq!(pluralize(&store, "Matrices", 2, false), "Matrices");
}

#[test]
fn built_in_table_inflects_common_words() {
    let store = english();
    assert_eq!(pluralize(&store, "Vertex", 2, false), "Vertices");
    assert_eq!(pluralize(&store, "Matrices", 1, false), "Matrix");
    assert_eq!(pluralize(&store, "Box", 2, false), "Boxes");
    assert_eq!(pluralize(&store, "city", 2, false), "cities");
    assert_eq!(pluralize(&store, "knife", 2, false), "knives");
    assert_eq!(pluralize(&store, "leaf", 2, false), "leaves");
    assert_eq!(pluralize(&store, "Houses", 1, false), "House");
    assert_eq!(pluralize(&store, "Houses", 2, false), "Houses");
    assert_eq!(pluralize(&store, "House", 1, false), "House");
    assert_eq!(pluralize(&store, "CHICKEN", 2, true), "2 CHICKENS");
    assert_eq!(pluralize(&store, "person", 2, false), "people");
    assert_eq!(pluralize(&store, "mouse", 2, false), "mice");
    assert_eq!(pluralize(&store, "analysis", 2, false), "analyses");
}

#[test]
fn empty_word_stays_empty() {
    let store = english();
    assert_eq!(pluralize(&store, "", 2, false), "");
    assert_eq!(pluralize(&store, "", 1, false), "");
    assert_eq!(pluralize(&store, "", 2, true), "2 ");
}

#[test]
fn invalid_patterns_are_rejected() {
    let mut store = RuleStore::new();
    let err = add_plural_rule(&mut store, s("(unclosed"), s("$1")).unwrap_err();
    assert_eq!(err.pattern, "(unclosed");
    let err = add_singular_rule(&mut store, s("[z-a]"), s("$1")).unwrap_err();
    assert_eq!(err.pattern, "[z-a]");
    let err = add_uncountable_rule(&mut store, UncountableRule::Regex(s("(?i"))).unwrap_err();
    assert_eq!(err.pattern, "(?i");
    // nothing was registered
    assert_eq!(pluralize(&store, "thing", 2, false), "thing");
}

#[test]
fn initialize_loads_once() {
    let mut store = RuleStore::new();
    assert!(initialize(&mut store, &default_table()).is_ok());
    assert!(initialize(&mut store, &default_table()).is_ok());
    assert_eq!(pluralize(&store, "house", 2, false), "houses");
}

#[test]
fn initialize_rejects_a_bad_table() {
    let mut store = RuleStore::new();
    let table = RuleTable {
        irregular: vec![(s("goose"), s("geese"))],
        plural: vec![(s("(?i)^(.*)$"), s("$1s")), (s("(bad"), s("$1"))],
        singular: vec![],
        uncountable_words: vec![],
        uncountable_patterns: vec![],
    };
    let err = initialize(&mut store, &table).unwrap_err();
    assert_eq!(err.pattern, "(bad");
    assert_eq!(pluralize(&store, "goose", 2, false), "goose");
    assert!(initialize(&mut store, &default_table()).is_ok());
    assert_eq!(pluralize(&store, "goose", 2, false), "geese");
}

#[test]
fn restore_case_follows_the_source_word() {
    assert_eq!(restore_case("abc", "abc"), "abc");
    assert_eq!(restore_case("hello", "WORLD"), "world");
    assert_eq!(restore_case("HELLO", "world"), "WORLD");
    assert_eq!(restore_case("Hello", "world"), "World");
    assert_eq!(restore_case("Hello", "wORLD"), "WORLD");
    assert_eq!(restore_case("hELLo", "World"), "world");
    assert_eq!(restore_case("", "ABC"), "abc");
    assert_eq!(restore_case("Hello", ""), "");
    assert_eq!(restore_case("Ünïcode", "ärger"), "Ärger");
}

#[test]
fn dollar_escapes_are_removed() {
    assert_eq!(remove_dollar_escapes("a$1b"), "ab");
    assert_eq!(remove_dollar_escapes("$"), "");
    assert_eq!(remove_dollar_escapes("ab$"), "ab");
    assert_eq!(remove_dollar_escapes("x$$y"), "xy");
    assert_eq!(remove_dollar_escapes("plain"), "plain");
    assert_eq!(remove_dollar_escapes(""), "");
}

#[test]
fn match_replacement_uses_groups_by_index() {
    let found = Captured {
        before: s("pre"),
        groups: vec![Some(s("knife")), Some(s("kni")), None],
        after: s("post"),
    };
    assert_eq!(replace_match("knife", "$1$2ves", found), "preknivespost");
    let found = Captured {
        before: s(""),
        groups: vec![Some(s("Vertex")), Some(s("Vert"))],
        after: s(""),
    };
    assert_eq!(replace_match("Vertex", "$1ices", found), "Vertices");
    let found = Captured {
        before: s(""),
        groups: vec![Some(s("VERTEX")), Some(s("VERT"))],
        after: s(""),
    };
    assert_eq!(replace_match("VERTEX", "$1ices", found), "VERTICES");
}
