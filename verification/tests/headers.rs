use auth_filter::headers::HeaderMap;

fn pair(name: &str, value: &str) -> (String, String) {
    (name.to_string(), value.to_string())
}

#[test]
fn new_list_is_empty() {
    let list = HeaderMap::new();
    assert_eq!(list.len(), 0);
    assert_eq!(list.get("anything"), None);
    assert_eq!(list.into_pairs(), Vec::<(String, String)>::new());
}

#[test]
fn from_pairs_keeps_order_and_repeats() {
    let pairs = vec![pair("a", "1"), pair("b", "2"), pair("a", "3")];
    let list = HeaderMap::from_pairs(pairs.clone());
    assert_eq!(list.len(), 3);
    assert_eq!(list.into_pairs(), pairs);
}

#[test]
fn push_adds_behind_all_others() {
    let mut list = HeaderMap::from_pairs(vec![pair("a", "1")]);
    list.push("b".to_string(), "2".to_string());
    list.push("a".to_string(), "3".to_string());
    assert_eq!(list.len(), 3);
    assert_eq!(
        list.into_pairs(),
        vec![pair("a", "1"), pair("b", "2"), pair("a", "3")]
    );
}

#[test]
fn get_finds_a_single_pair() {
    let list = HeaderMap::from_pairs(vec![pair(":status", "200"), pair("server", "envoy")]);
    assert_eq!(list.get(":status"), Some(&"200".to_string()));
    assert_eq!(list.get("server"), Some(&"envoy".to_string()));
}

#[test]
fn get_takes_the_last_pair_of_a_name() {
    let list = HeaderMap::from_pairs(vec![
        pair("x", "first"),
        pair("y", "other"),
        pair("x", "second"),
        pair("z", "tail"),
    ]);
    assert_eq!(list.get("x"), Some(&"second".to_string()));
}

#[test]
fn get_of_an_absent_name_is_none() {
    let list = HeaderMap::from_pairs(vec![pair("x", "1")]);
    assert_eq!(list.get("y"), None);
    assert_eq!(list.get(""), None);
}

#[test]
fn get_compares_names_exactly() {
    let list = HeaderMap::from_pairs(vec![pair("Content-Type", "text/plain")]);
    assert_eq!(list.get("content-type"), None);
    assert_eq!(list.get("Content-Type "), None);
    assert_eq!(list.get("Content-Type"), Some(&"text/plain".to_string()));
}

#[test]
fn get_tells_names_beyond_ascii_apart() {
    let list = HeaderMap::from_pairs(vec![pair("caf\u{e9}", "1"), pair("cafe", "2")]);
    assert_eq!(list.get("caf\u{e9}"), Some(&"1".to_string()));
    assert_eq!(list.get("cafe"), Some(&"2".to_string()));
}

#[test]
fn get_after_push_sees_the_new_pair() {
    let mut list = HeaderMap::from_pairs(vec![pair("k", "old")]);
    list.push("k".to_string(), "new".to_string());
    assert_eq!(list.get("k"), Some(&"new".to_string()));
}
