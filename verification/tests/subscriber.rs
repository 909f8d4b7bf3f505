use oz::subscriber::{subscriber_file, subscriber_imsi, subscriber_url, login_url, login_form, login_headers, subscriber_headers, login_token, try_login_token, subscriber_body};

fn pairs(v: &[(&str, &str)]) -> Vec<(String, String)> {
    v.iter().map(|(a, b)| (a.to_string(), b.to_string())).collect()
}

#[test]
fn subscriber_documents() {
    assert_eq!(subscriber_file(3), "./5g/subscriber-limit.json");
    assert_eq!(subscriber_file(1), "./5g/subscriber.json");
    assert_eq!(subscriber_file(0), "./5g/subscriber.json");
}

#[test]
fn subscriber_addresses() {
    assert_eq!(subscriber_imsi(1), "imsi-208930000000001");
    assert_eq!(subscriber_imsi(12), "imsi-2089300000000012");
    assert_eq!(subscriber_url(2), "http://192.0.0.17:5000/api/subscriber/imsi-208930000000002/20893");
    assert_eq!(login_url(), "http://192.0.0.17:5000/api/login");
}

#[test]
fn request_headers() {
    assert_eq!(login_form(), pairs(&[("username", "admin"), ("password", "free5gc")]));
    assert_eq!(
        login_headers(),
        pairs(&[("Accept", "application/json"), ("Accept-Enoding", "gzip, deflate"), ("Content-Type", "application/json")])
    );
    assert_eq!(
        subscriber_headers("tok"),
        pairs(&[
            ("Accept", "application/json, text/plain, */*"),
            ("Accept-Enoding", "gzip, deflate"),
            ("Content-Type", "application/json"),
            ("Token", "tok"),
        ])
    );
}

#[test]
fn login_token_is_read_from_the_answer() {
    assert_eq!(login_token(br#"{"access_token": "abc123", "expires": 3600}"#), "abc123");
    assert_eq!(try_login_token(br#"{"access_token": "t"}"#), Some("t".to_string()));
    assert_eq!(try_login_token(br#"{"access_token": 5}"#), None);
    assert_eq!(try_login_token(br#"{"token": "t"}"#), None);
    assert_eq!(try_login_token(b"not json"), None);
}

#[test]
fn subscriber_body_sets_the_ue_id() {
    let body = subscriber_body(br#"{"plmnID": "20893", "ueID": "old"}"#, 3).unwrap();
    let v: serde_json::Value = serde_json::from_slice(&body).unwrap();
    assert_eq!(v["ueID"], serde_json::Value::String(subscriber_imsi(3)));
    assert_eq!(v["plmnID"], serde_json::Value::String("20893".to_string()));
    let from_null = subscriber_body(b"null", 1).unwrap();
    let v: serde_json::Value = serde_json::from_slice(&from_null).unwrap();
    assert_eq!(v["ueID"], serde_json::Value::String(subscriber_imsi(1)));
    assert_eq!(subscriber_body(b"[1, 2]", 1), None);
    assert_eq!(subscriber_body(b"{oops", 1), None);
}
