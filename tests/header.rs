use rtsp::header::Headers;

#[test]
fn test() {
    let mut headers = Headers::new();
    headers.insert("content-type".to_string(), "video/mp4".to_string());
    headers.insert("content-length".to_string(), "512".to_string());

    assert_eq!(headers.keys(), vec!["content-length", "content-type"]);
    assert_eq!(headers.values(), vec!["512", "video/mp4"]);

    assert_eq!(headers.get("content-type".to_string()), Some(&"video/mp4".to_string()));
    assert_eq!(headers.get("content-length".to_string()), Some(&"512".to_string()));
    assert_eq!(headers.get("None".to_string()), None);

    assert_eq!(headers.to_string(), "Content-length: 512\r\nContent-type: video/mp4\r\n");

    headers.remove(&"content-type".to_string());
    assert_eq!(headers.get("content-type".to_string()), None);

    headers.clear();
    assert_eq!(headers.get("content-length".to_string()), None);
    assert_eq!(headers.len(), 0);
}

#[test]
fn headers_case_insensitive_and_ordered() {
    let mut headers = Headers::new();
    assert_eq!(headers.insert("Content-Type".to_string(), "video/mp4".to_string()), None);
    assert_eq!(headers.insert("content-length".to_string(), "512".to_string()), None);
    assert_eq!(headers.keys(), vec!["content-length", "content-type"]);
    assert_eq!(headers.to_string(), "Content-length: 512\r\nContent-type: video/mp4\r\n");

    let old = headers.insert("CONTENT-TYPE".to_string(), "x".to_string());
    assert_eq!(old, Some("video/mp4".to_string()));
    assert_eq!(headers.len(), 2);
    assert_eq!(headers.keys(), vec!["content-length", "content-type"]);
    assert_eq!(headers.values(), vec!["512", "x"]);

    assert_eq!(headers.remove(&"content-type".to_string()), Some("x".to_string()));
    assert_eq!(headers.get("content-type".to_string()), None);
    assert_eq!(headers.len(), 1);

    headers.clear();
    assert_eq!(headers.len(), 0);
    assert_eq!(headers.to_string(), "");
}

#[test]
fn headers_lookup_ignores_case() {
    let mut headers = Headers::new();
    headers.insert("CSeq".to_string(), "7".to_string());
    assert_eq!(headers.keys(), vec!["cseq"]);
    assert_eq!(headers.get("CSEQ".to_string()), Some(&"7".to_string()));
    assert_eq!(headers.get("cseq".to_string()), Some(&"7".to_string()));
    assert_eq!(headers.remove(&"CsEq".to_string()), Some("7".to_string()));
    assert_eq!(headers.len(), 0);
}

#[test]
fn headers_remove_absent_key() {
    let mut headers = Headers::new();
    headers.insert("session".to_string(), "12345678".to_string());
    assert_eq!(headers.remove(&"range".to_string()), None);
    assert_eq!(headers.len(), 1);
}

#[test]
fn headers_keep_key_order_whatever_the_insertion_order() {
    let mut headers = Headers::new();
    headers.insert("transport".to_string(), "RTP/AVP;unicast".to_string());
    headers.insert("accept".to_string(), "application/sdp".to_string());
    headers.insert("session".to_string(), "1".to_string());
    headers.insert("cseq".to_string(), "2".to_string());
    headers.insert("accept-language".to_string(), "en".to_string());
    assert_eq!(
        headers.keys(),
        vec!["accept", "accept-language", "cseq", "session", "transport"]
    );
    assert_eq!(
        headers.values(),
        vec!["application/sdp", "en", "2", "1", "RTP/AVP;unicast"]
    );
}

#[test]
fn headers_value_kept_as_given() {
    let mut headers = Headers::new();
    headers.insert("Range".to_string(), "  npt=0-  ".to_string());
    assert_eq!(headers.get("range".to_string()), Some(&"  npt=0-  ".to_string()));
    assert_eq!(headers.to_string(), "Range:   npt=0-  \r\n");
}

#[test]
fn headers_serialize_upper_cases_first_character_only() {
    let mut headers = Headers::new();
    headers.insert("WWW-Authenticate".to_string(), "Basic".to_string());
    headers.insert("\u{e9}tag".to_string(), "1".to_string());
    assert_eq!(headers.keys(), vec!["www-authenticate", "\u{e9}tag"]);
    assert_eq!(headers.to_string(), "Www-authenticate: Basic\r\n\u{c9}tag: 1\r\n");
}

#[test]
fn headers_serialize_first_character_that_grows() {
    let mut headers = Headers::new();
    headers.insert("\u{df}x".to_string(), "v".to_string());
    assert_eq!(headers.to_string(), "SSx: v\r\n");
}
