use secret_scaler::StringMap;

fn text(s: &str) -> String {
    s.to_string()
}

#[test]
fn new_map_is_empty() {
    let map = StringMap::new();
    assert!(map.is_empty());
    assert_eq!(map.len(), 0);
    assert_eq!(map.get("a"), None);
    assert!(!map.contains_key("a"));
}

#[test]
fn insert_then_get() {
    let mut map = StringMap::new();
    assert_eq!(map.insert(text("a"), text("1")), None);
    assert_eq!(map.insert(text("b"), text("2")), None);
    assert_eq!(map.len(), 2);
    assert!(!map.is_empty());
    assert_eq!(map.get("a"), Some(&text("1")));
    assert_eq!(map.get("b"), Some(&text("2")));
    assert_eq!(map.get("c"), None);
    assert!(map.contains_key("b"));
}

#[test]
fn insert_replaces_and_returns_the_old_value() {
    let mut map = StringMap::new();
    map.insert(text("a"), text("1"));
    assert_eq!(map.insert(text("a"), text("2")), Some(text("1")));
    assert_eq!(map.len(), 1);
    assert_eq!(map.get("a"), Some(&text("2")));
}

#[test]
fn remove_takes_the_key_out() {
    let mut map = StringMap::new();
    map.insert(text("a"), text("1"));
    map.insert(text("b"), text("2"));
    map.insert(text("c"), text("3"));
    assert_eq!(map.remove("b"), Some(text("2")));
    assert_eq!(map.remove("b"), None);
    assert_eq!(map.len(), 2);
    assert_eq!(map.get("a"), Some(&text("1")));
    assert_eq!(map.get("b"), None);
    assert_eq!(map.get("c"), Some(&text("3")));
}

#[test]
fn equality_ignores_the_order_of_insertion() {
    let mut left = StringMap::new();
    left.insert(text("a"), text("1"));
    left.insert(text("b"), text("2"));
    let mut right = StringMap::new();
    right.insert(text("b"), text("2"));
    right.insert(text("a"), text("1"));
    assert_eq!(left, right);
    assert_eq!(right, left);
}

#[test]
fn equality_sees_values_and_keys() {
    let mut left = StringMap::new();
    left.insert(text("a"), text("1"));
    let mut other_value = StringMap::new();
    other_value.insert(text("a"), text("2"));
    let mut other_key = StringMap::new();
    other_key.insert(text("b"), text("1"));
    let mut longer = StringMap::new();
    longer.insert(text("a"), text("1"));
    longer.insert(text("b"), text("1"));
    assert_ne!(left, other_value);
    assert_ne!(left, other_key);
    assert_ne!(left, longer);
    assert_ne!(longer, left);
    assert_ne!(left, StringMap::new());
    assert_ne!(StringMap::new(), left);
    assert_eq!(StringMap::new(), StringMap::new());
}

#[test]
fn from_pairs_keeps_the_later_of_two_equal_keys() {
    let map = StringMap::from_pairs(vec![
        (text("a"), text("1")),
        (text("b"), text("2")),
        (text("a"), text("3")),
    ]);
    assert_eq!(map.len(), 2);
    assert_eq!(map.get("a"), Some(&text("3")));
    assert_eq!(map.get("b"), Some(&text("2")));
}

#[test]
fn to_pairs_gives_each_key_once() {
    let mut map = StringMap::new();
    map.insert(text("b"), text("2"));
    map.insert(text("a"), text("1"));
    map.insert(text("b"), text("3"));
    let mut pairs = map.to_pairs();
    pairs.sort();
    assert_eq!(pairs, vec![(text("a"), text("1")), (text("b"), text("3"))]);
    assert_eq!(StringMap::from_pairs(map.to_pairs()), map);
}

#[test]
fn clone_is_equal_and_independent() {
    let mut map = StringMap::new();
    map.insert(text("a"), text("1"));
    let copy = map.clone();
    assert_eq!(copy, map);
    map.insert(text("a"), text("2"));
    assert_eq!(copy.get("a"), Some(&text("1")));
    assert_ne!(copy, map);
}
