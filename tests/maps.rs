use crypto_service::headers::Headers;
use crypto_service::string_map::StringMap;

#[test]
fn string_map_insert_overwrites() {
    let mut map = StringMap::new();
    map.insert("a".into(), "1".into());
    map.insert("b".into(), "2".into());
    map.insert("a".into(), "3".into());
    assert_eq!(map.len(), 2);
    assert_eq!(map.get("a").unwrap(), "3");
    assert_eq!(map.get("b").unwrap(), "2");
    assert!(map.get("A").is_none());
    assert_eq!(
        map.entries(),
        &vec![("a".to_string(), "3".to_string()), ("b".to_string(), "2".to_string())]
    );
}

#[test]
fn string_map_empty() {
    let map = StringMap::new();
    assert_eq!(map.len(), 0);
    assert!(!map.contains_key(""));
    assert_eq!(map.clone().len(), 0);
}

#[test]
fn headers_names_are_lower_case() {
    let mut headers = Headers::new();
    headers.insert("X-MBX-APIKEY", "Bearer Key".into());
    headers.insert("Content-Type", "application/x-www-form-urlencoded".into());
    assert_eq!(
        headers.entries()[0],
        ("x-mbx-apikey".to_string(), "Bearer Key".to_string())
    );
    assert_eq!(headers.get("x-mbx-apikey").unwrap(), "Bearer Key");
    assert_eq!(headers.get("CONTENT-TYPE").unwrap(), "application/x-www-form-urlencoded");
    assert_eq!(headers.len(), 2);
}

#[test]
fn headers_same_name_in_other_case_overwrites() {
    let mut headers = Headers::new();
    headers.insert("Accept", "text/plain".into());
    headers.insert("ACCEPT", "application/json".into());
    assert_eq!(headers.len(), 1);
    assert_eq!(headers.get("accept").unwrap(), "application/json");
    let copy = headers.clone();
    assert_eq!(copy.get("Accept").unwrap(), "application/json");
}

#[test]
fn headers_keep_non_ascii_names() {
    let mut headers = Headers::new();
    headers.insert("Ä-Key", "v".into());
    assert_eq!(headers.entries()[0].0, "Ä-key");
}
