use uvenv::names::NameSet;
use uvenv::scripts::ScriptMap;
use uvenv::text::{has_prefix, has_suffix, join, rank_text, replace_char, same_text, to_chars, Rank};

fn strings(items: &[&str]) -> Vec<String> {
    items.iter().map(|s| s.to_string()).collect()
}

#[test]
fn text_helpers() {
    assert_eq!(to_chars("añb"), vec!['a', 'ñ', 'b']);
    assert!(same_text("abc", "abc"));
    assert!(!same_text("abc", "abd"));
    assert!(has_prefix("# Changelog", "# Ch"));
    assert!(!has_prefix("#", "# Ch"));
    assert!(has_prefix("x", ""));
    assert!(has_suffix("/bin/bash", "bash"));
    assert!(!has_suffix("/bin/zsh", "bash"));
    assert!(!has_suffix("sh", "bash"));
    assert_eq!(replace_char("a-b-c", '-', '_'), "a_b_c");
    assert_eq!(join(&strings(&["a", "b", "c"]), ", "), "a, b, c");
    assert_eq!(join(&strings(&["a"]), ", "), "a");
    assert_eq!(join(&strings(&[]), ", "), "");
}

#[test]
fn rank_text_is_the_order_of_str() {
    let samples = ["", "a", "ab", "b", "B", "aa", "é", "z", "1.10", "1.9"];
    for a in samples {
        for b in samples {
            let expected = match a.cmp(b) {
                std::cmp::Ordering::Less => Rank::Before,
                std::cmp::Ordering::Equal => Rank::Same,
                std::cmp::Ordering::Greater => Rank::After,
            };
            assert_eq!(rank_text(a, b), expected, "{a:?} against {b:?}");
        }
    }
}

#[test]
fn name_set_keeps_order_and_no_duplicates() {
    let mut set = NameSet::new();
    assert!(set.is_empty());
    assert!(set.insert("pandas".to_string()));
    assert!(set.insert("attrs".to_string()));
    assert!(set.insert("requests".to_string()));
    assert!(!set.insert("attrs".to_string()));
    assert_eq!(set.len(), 3);
    assert_eq!(set.to_vec(), strings(&["attrs", "pandas", "requests"]));
    assert_eq!(set.get(0), "attrs");
    assert!(set.contains("pandas"));
    assert!(!set.contains("numpy"));
    assert_eq!(set.position("requests"), Some(2));
    assert_eq!(set.position("zzz"), None);
    assert_eq!(set.insert_at("boto".to_string()), (1, true));
    assert_eq!(set.insert_at("boto".to_string()), (1, false));
}

#[test]
fn name_set_remove_extend() {
    let mut set = NameSet::from_vec(&strings(&["b", "a", "c", "a"]));
    assert_eq!(set.to_vec(), strings(&["a", "b", "c"]));
    assert!(set.remove("b"));
    assert!(!set.remove("b"));
    assert_eq!(set.to_vec(), strings(&["a", "c"]));
    set.extend(&strings(&["d", "a", "b"]));
    assert_eq!(set.to_vec(), strings(&["a", "b", "c", "d"]));
    set.remove_all(&strings(&["a", "d", "x"]));
    assert_eq!(set.to_vec(), strings(&["b", "c"]));
    let copy = set.clone();
    assert_eq!(copy, set);
    assert_eq!(NameSet::default(), NameSet::new());
}

#[test]
fn equal_sets_are_equal_whatever_the_order_of_insertion() {
    let one = NameSet::from_vec(&strings(&["x", "y", "z"]));
    let two = NameSet::from_vec(&strings(&["z", "x", "y", "x"]));
    assert_eq!(one, two);
}

#[test]
fn script_map_insert_get() {
    let mut map = ScriptMap::new();
    assert!(map.is_empty());
    map.insert("http".to_string(), true);
    map.insert("https".to_string(), false);
    map.insert("a2x".to_string(), true);
    map.insert("http".to_string(), false);
    assert_eq!(map.len(), 3);
    assert_eq!(map.names(), strings(&["a2x", "http", "https"]));
    assert_eq!(map.get("http"), Some(false));
    assert_eq!(map.get("a2x"), Some(true));
    assert_eq!(map.get("nope"), None);
    assert_eq!(map.name(0), "a2x");
    assert!(map.state(0));
    assert_eq!(map.broken(), strings(&["http", "https"]));
    map.set_state(1, true);
    assert_eq!(map.broken(), strings(&["https"]));
    assert_eq!(map.clone(), map);
    assert_eq!(ScriptMap::default(), ScriptMap::new());
}
