use inquisitor::headers::parse_headers;

fn entries(list: &[&str]) -> Vec<String> {
    list.iter().map(|s| s.to_string()).collect()
}

fn lookup<'a>(h: &'a [(String, String)], key: &str) -> Option<&'a str> {
    h.iter().find(|(k, _)| k == key).map(|(_, v)| v.as_str())
}

#[test]
fn splits_at_first_colon() {
    let h = parse_headers(&entries(&["Content-Type:application/json", "X-Url:http://a:1"]));
    assert_eq!(h.len(), 2);
    assert_eq!(lookup(&h, "Content-Type"), Some("application/json"));
    assert_eq!(lookup(&h, "X-Url"), Some("http://a:1"));
}

#[test]
fn entries_without_colon_are_skipped() {
    let h = parse_headers(&entries(&["NoColon", "K:v"]));
    assert_eq!(h, vec![("K".to_string(), "v".to_string())]);
}

#[test]
fn later_entry_replaces_earlier() {
    let h = parse_headers(&entries(&["K:v1", "Other:x", "K:v2"]));
    assert_eq!(h.len(), 2);
    assert_eq!(lookup(&h, "K"), Some("v2"));
    assert_eq!(lookup(&h, "Other"), Some("x"));
}

#[test]
fn empty_key_and_value() {
    let h = parse_headers(&entries(&[":x", "Y:"]));
    assert_eq!(lookup(&h, ""), Some("x"));
    assert_eq!(lookup(&h, "Y"), Some(""));
}

#[test]
fn no_entries() {
    assert!(parse_headers(&Vec::new()).is_empty());
}
