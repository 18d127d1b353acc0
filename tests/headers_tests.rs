use pub_sub_server::headers::{find_header, format_headers, unformat_headers, CALLBACK_HEADER};

fn pairs(items: &[(&str, &str)]) -> Vec<(String, String)> {
    items.iter().map(|(k, v)| (k.to_string(), v.to_string())).collect()
}

#[test]
fn format_prefixes_every_name() {
    let h = pairs(&[("color", "red"), ("size", "9")]);
    assert_eq!(format_headers(&h), pairs(&[("info-color", "red"), ("info-size", "9")]));
}

#[test]
fn format_of_empty_is_empty() {
    assert!(format_headers(&Vec::new()).is_empty());
}

#[test]
fn unformat_strips_prefix_only_where_present() {
    let h = pairs(&[("info-color", "red"), ("Content-Type", "text/plain"), ("info", "x")]);
    assert_eq!(
        unformat_headers(&h),
        pairs(&[("color", "red"), ("Content-Type", "text/plain"), ("info", "x")])
    );
}

#[test]
fn unformat_strips_one_prefix() {
    let h = pairs(&[("info-info-x", "1"), ("xinfo-y", "2")]);
    assert_eq!(unformat_headers(&h), pairs(&[("info-x", "1"), ("xinfo-y", "2")]));
}

#[test]
fn decode_after_encode_is_identity() {
    let h = pairs(&[("a", "1"), ("info-b", "2"), ("", "3")]);
    assert_eq!(unformat_headers(&format_headers(&h)), h);
}

#[test]
fn encode_after_decode_is_identity_on_prefixed() {
    let h = pairs(&[("info-a", "1"), ("info-", "2")]);
    assert_eq!(format_headers(&unformat_headers(&h)), h);
}

#[test]
fn find_header_takes_last_value() {
    let h = pairs(&[("Location", "first"), ("Other", "x"), ("Location", "second")]);
    assert_eq!(find_header(&h, CALLBACK_HEADER), Some("second".to_string()));
    assert_eq!(find_header(&h, "Missing"), None);
    assert_eq!(find_header(&h, "location"), None);
}
