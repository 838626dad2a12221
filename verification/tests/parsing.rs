use travel_server::request::{extract, split_after, travel_to_value, MAX_HEADERS};
use travel_server::text::{find_bytes, matches_at};
use travel_server::validator::{is_valid, position, same_bytes};

fn list() -> Vec<String> {
    ["brazil", "argentina", "usa", "canada", "france", "germany", "japan", "china", "india"]
        .iter()
        .map(|s| s.to_string())
        .collect()
}

#[test]
fn find_bytes_gives_the_first_offset() {
    assert_eq!(find_bytes(b"a?b?c", b"?"), Some(1));
    assert_eq!(find_bytes(b"abcabc", b"bc"), Some(1));
    assert_eq!(find_bytes(b"abc", b"abc"), Some(0));
    assert_eq!(find_bytes(b"aab", b"ab"), Some(1));
    assert_eq!(find_bytes(b"abc", b"abcd"), None);
    assert_eq!(find_bytes(b"abc", b"x"), None);
    assert_eq!(find_bytes(b"", b"x"), None);
    assert_eq!(find_bytes(b"abc", b""), Some(0));
    assert_eq!(find_bytes(b"", b""), Some(0));
}

#[test]
fn matches_at_compares_in_place() {
    assert!(matches_at(b"hello", b"ell", 1));
    assert!(!matches_at(b"hello", b"ell", 0));
    assert!(matches_at(b"hello", b"", 5));
    assert!(matches_at(b"hello", b"hello", 0));
}

#[test]
fn split_after_returns_the_rest() {
    assert_eq!(split_after(b"/p?a=1?b", b"?"), Some(&b"a=1?b"[..]));
    assert_eq!(split_after(b"/p?", b"?"), Some(&b""[..]));
    assert_eq!(split_after(b"/p", b"?"), None);
}

#[test]
fn travel_to_value_reads_the_query() {
    assert_eq!(travel_to_value(b"/?travel_to=japan"), Some(b"japan".to_vec()));
    assert_eq!(travel_to_value(b"/any/path?travel_to=usa"), Some(b"usa".to_vec()));
    assert_eq!(travel_to_value(b"/?a=1&travel_to=usa"), Some(b"usa".to_vec()));
    assert_eq!(travel_to_value(b"/?travel_to=usa&b=2"), Some(b"usa&b=2".to_vec()));
    assert_eq!(travel_to_value(b"/?travel_to=a&travel_to=b"), Some(b"a&travel_to=b".to_vec()));
    assert_eq!(travel_to_value(b"/?xtravel_to=usa"), Some(b"usa".to_vec()));
    assert_eq!(travel_to_value(b"/?travel_to="), Some(Vec::new()));
    assert_eq!(travel_to_value(b"/?q?travel_to=x"), Some(b"x".to_vec()));
    assert_eq!(travel_to_value(b"/travel_to=usa"), None);
    assert_eq!(travel_to_value(b"/travel_to=usa?x"), None);
    assert_eq!(travel_to_value(b"/?travel_to"), None);
    assert_eq!(travel_to_value(b"/?Travel_To=usa"), None);
    assert_eq!(travel_to_value(b"/"), None);
    assert_eq!(travel_to_value(b""), None);
}

#[test]
fn extract_reads_path_and_destination() {
    let parsed = extract(b"GET /x?travel_to=usa HTTP/1.1\r\nHost: h\r\n\r\nbody").expect("a request");
    assert_eq!(parsed.path, b"/x?travel_to=usa".to_vec());
    assert_eq!(parsed.travel_to, Some(b"usa".to_vec()));
    let parsed = extract(b"POST /plain HTTP/1.0\n\n").expect("a request");
    assert_eq!(parsed.path, b"/plain".to_vec());
    assert_eq!(parsed.travel_to, None);
}

#[test]
fn extract_defaults_to_the_root_path() {
    let parsed = extract(b"GET /?travel_to=us").expect("a partial request");
    assert_eq!(parsed.path, b"/".to_vec());
    assert_eq!(parsed.travel_to, None);
    let parsed = extract(b"").expect("a partial request");
    assert_eq!(parsed.path, b"/".to_vec());
}

#[test]
fn extract_refuses_what_is_no_request() {
    assert!(extract(b"GET  / HTTP/1.1\r\n\r\n").is_none());
    assert!(extract(b"GET / HTTP/2.0\r\n\r\n").is_none());
    assert!(extract(b"GET /a b HTTP/1.1\r\n\r\n").is_none());
    assert!(extract(b"\0\0\0\0").is_none());
    assert!(extract(b"GET / HTTP/1.1\r\nbad header\r\n\r\n").is_none());
}

#[test]
fn header_room_is_sixteen() {
    assert_eq!(MAX_HEADERS, 16);
}

#[test]
fn is_valid_matches_exactly() {
    let allow = list();
    for country in &allow {
        assert!(is_valid(country.as_bytes(), &allow));
    }
    assert!(!is_valid(b"atlantis", &allow));
    assert!(!is_valid(b"Brazil", &allow));
    assert!(!is_valid(b"", &allow));
    assert!(!is_valid(b"usa ", &allow));
    assert!(!is_valid(b"us", &allow));
    assert!(!is_valid(b"usa", &Vec::new()));
}

#[test]
fn position_is_the_first_match() {
    let allow = vec!["a".to_string(), "b".to_string(), "a".to_string()];
    assert_eq!(position(b"a", &allow), Some(0));
    assert_eq!(position(b"b", &allow), Some(1));
    assert_eq!(position(b"c", &allow), None);
}

#[test]
fn same_bytes_is_equality() {
    assert!(same_bytes(b"abc", b"abc"));
    assert!(same_bytes(b"", b""));
    assert!(!same_bytes(b"abc", b"abd"));
    assert!(!same_bytes(b"abc", b"ab"));
    assert!(!same_bytes(b"ab", b"abc"));
}

#[test]
fn listed_names_beyond_ascii_match_byte_for_byte() {
    let allow = vec!["méxico".to_string(), "日本".to_string()];
    assert!(is_valid("méxico".as_bytes(), &allow));
    assert!(is_valid("日本".as_bytes(), &allow));
    assert!(!is_valid("mexico".as_bytes(), &allow));
}
