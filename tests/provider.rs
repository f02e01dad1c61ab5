use ddns_sync::config::Config;
use ddns_sync::provider::{
    bearer, is_success, record_id_from_document, record_id_from_reply, record_list_url,
    record_url, update_body, update_outcome, LookupError, UpdateOutcome,
};

fn sample() -> Config {
    Config {
        public_ip_service: "http://echo.test".to_string(),
        cloudflare_api_key: "k".to_string(),
        zone_id: "z1".to_string(),
        dns_name: "home.example.com".to_string(),
    }
}

#[test]
fn listing_url() {
    assert_eq!(
        record_list_url(&sample()),
        "https://api.cloudflare.com/client/v4/zones/z1/dns_records?name=home.example.com"
    );
}

#[test]
fn record_address() {
    assert_eq!(
        record_url(&sample(), "rec42"),
        "https://api.cloudflare.com/client/v4/zones/z1/dns_records/rec42"
    );
}

#[test]
fn bearer_header() {
    assert_eq!(bearer(&sample()), "Bearer k");
}

#[test]
fn update_body_exact() {
    assert_eq!(
        update_body(&sample(), "198.51.100.7").unwrap(),
        "{\"type\":\"A\",\"name\":\"home.example.com\",\"content\":\"198.51.100.7\",\"ttl\":120,\"proxied\":false}"
    );
}

#[test]
fn update_body_escapes_text() {
    let mut c = sample();
    c.dns_name = "a\"b\\c".to_string();
    let body = update_body(&c, "x\ny").unwrap();
    assert_eq!(
        body,
        "{\"type\":\"A\",\"name\":\"a\\\"b\\\\c\",\"content\":\"x\\ny\",\"ttl\":120,\"proxied\":false}"
    );
    let v: serde_json::Value = serde_json::from_str(&body).unwrap();
    assert_eq!(v["name"].as_str(), Some("a\"b\\c"));
}

#[test]
fn success_statuses() {
    assert!(!is_success(199));
    assert!(is_success(200));
    assert!(is_success(299));
    assert!(!is_success(300));
    assert!(!is_success(403));
}

#[test]
fn lookup_takes_id() {
    let r = record_id_from_reply(200, "{\"result\":[{\"id\":\"abc123\"}]}");
    assert_eq!(r.unwrap(), "abc123");
}

#[test]
fn lookup_takes_first_of_several() {
    let r = record_id_from_reply(200, "{\"result\":[{\"id\":\"one\",\"name\":\"x\"},{\"id\":\"two\"}]}");
    assert_eq!(r.unwrap(), "one");
}

#[test]
fn lookup_empty_list_not_found() {
    let e = record_id_from_reply(200, "{\"result\":[]}").unwrap_err();
    assert!(matches!(e, LookupError::NotFound));
    assert_eq!(e.describe(), "Record ID not found");
}

#[test]
fn lookup_without_textual_id_not_found() {
    assert!(matches!(record_id_from_reply(200, "{\"result\":[{\"id\":5}]}"), Err(LookupError::NotFound)));
    assert!(matches!(record_id_from_reply(200, "{\"result\":{}}"), Err(LookupError::NotFound)));
    assert!(matches!(record_id_from_reply(200, "[1]"), Err(LookupError::NotFound)));
}

#[test]
fn lookup_forbidden_keeps_body() {
    let e = record_id_from_reply(403, "{\"success\":false}").unwrap_err();
    match &e {
        LookupError::Rejected(b) => assert_eq!(b, "{\"success\":false}"),
        other => panic!("unexpected {:?}", other),
    }
    assert_eq!(e.describe(), "Failed to get DNS record ID: {\"success\":false}");
}

#[test]
fn lookup_not_json() {
    let e = record_id_from_reply(200, "<html>oops</html>").unwrap_err();
    assert!(matches!(e, LookupError::NotJson));
    assert_eq!(e.describe(), "the record listing is not JSON");
}

#[test]
fn lookup_from_document() {
    let doc: serde_json::Value = serde_json::from_str("{\"result\":[{\"id\":\"rec42\"}]}").unwrap();
    assert_eq!(record_id_from_document(&doc).unwrap(), "rec42");
    let empty: serde_json::Value = serde_json::from_str("{\"result\":[]}").unwrap();
    assert!(record_id_from_document(&empty).is_none());
}

#[test]
fn update_accepted_reports_success() {
    let o = update_outcome(200, "{}");
    assert!(matches!(o, UpdateOutcome::Applied));
    assert_eq!(o.report(), ("DNS record updated successfully.".to_string(), false));
}

#[test]
fn update_refused_reports_body() {
    let o = update_outcome(400, "invalid content");
    let (line, to_err) = o.report();
    assert!(to_err);
    assert_eq!(line, "Failed to update DNS record: invalid content");
}
