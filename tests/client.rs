use runomicon::client::{
    authorization_header, basic_auth_value, checked_body, credentials, endpoint_url, Request, Resource,
};
use runomicon::error::Error;
use runomicon::league::Lockfile;

fn lockfile(password: &str, port: usize) -> Lockfile {
    Lockfile {
        process: String::from("LeagueClientUx"),
        pid: 1234,
        port,
        password: String::from(password),
        protocol: String::from("https"),
    }
}

#[test]
fn authorization_header_of_example() {
    let l = lockfile("abc123", 61234);
    assert_eq!(authorization_header(&l), "Basic cmlvdDphYmMxMjM=");
}

#[test]
fn authorization_header_encodes_credentials() {
    assert_eq!(authorization_header(&lockfile("", 1)), "Basic cmlvdDo=");
    assert_eq!(authorization_header(&lockfile("pw", 1)), "Basic cmlvdDpwdw==");
    assert_ne!(authorization_header(&lockfile("pw", 1)), format!("Basic {}", credentials("pw")));
}

#[test]
fn credentials_and_basic_prefix() {
    assert_eq!(credentials("abc123"), "riot:abc123");
    assert_eq!(credentials(""), "riot:");
    assert_eq!(basic_auth_value("xyz"), "Basic xyz");
}

#[test]
fn endpoint_is_loopback_https() {
    assert_eq!(
        endpoint_url(61234, "/lol-perks/v1/pages"),
        "https://127.0.0.1:61234/lol-perks/v1/pages"
    );
    assert_eq!(endpoint_url(0, ""), "https://127.0.0.1:0");
}

#[test]
fn requests_for_both_resources() {
    let mut l = lockfile("abc123", 61234);
    l.protocol = String::from("http");
    let perks = Request::new(&l, Resource::Perks);
    assert_eq!(perks.url, "https://127.0.0.1:61234/lol-perks/v1/perks");
    assert_eq!(perks.authorization, "Basic cmlvdDphYmMxMjM=");
    let pages = Request::new(&l, Resource::Pages);
    assert_eq!(pages.url, "https://127.0.0.1:61234/lol-perks/v1/pages");
    assert_eq!(pages.authorization, "Basic cmlvdDphYmMxMjM=");
}

#[test]
fn success_status_keeps_body() {
    for status in [200u16, 204, 299] {
        let r = checked_body(status, None, String::from("[]"));
        assert!(matches!(r, Ok(ref b) if b == "[]"), "{}", status);
    }
}

#[test]
fn other_status_is_request_failure() {
    for status in [100u16, 199, 300, 404, 500] {
        let url = Some(String::from("https://127.0.0.1:1/lol-perks/v1/pages"));
        match checked_body(status, url.clone(), String::from("nope")) {
            Err(Error::RequestFailed(w)) => {
                assert_eq!(w.status, Some(status));
                assert!(w.is_status);
                assert!(!w.is_timeout && !w.is_redirect && !w.is_builder);
                assert_eq!(w.url, url);
            }
            other => panic!("unexpected {:?}", other),
        }
    }
}
