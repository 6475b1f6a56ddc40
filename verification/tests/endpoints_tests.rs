use macronx_tui::config::{Config, ConfigError};
use macronx_tui::endpoints::{authorization, failure_message, reply_succeeded, Endpoints};

#[test]
fn trailing_slashes_leave_the_root() {
    assert_eq!(Endpoints::new("http://localhost:5000/").base_url, "http://localhost:5000");
    assert_eq!(Endpoints::new("http://h///").base_url, "http://h");
    assert_eq!(Endpoints::new("http://h").base_url, "http://h");
    assert_eq!(Endpoints::new("///").base_url, "");
}

#[test]
fn list_and_item_addresses() {
    let e = Endpoints::new("http://localhost:5000/");
    assert_eq!(e.inboxes(), "http://localhost:5000/api/v1/inboxes");
    assert_eq!(e.inbox(42), "http://localhost:5000/api/v1/inboxes/42");
    assert_eq!(e.inbox(0), "http://localhost:5000/api/v1/inboxes/0");
    assert_eq!(
        e.inbox(u64::MAX),
        "http://localhost:5000/api/v1/inboxes/18446744073709551615"
    );
}

#[test]
fn bearer_header_value() {
    assert_eq!(authorization("tok-123"), "Bearer tok-123");
    assert_eq!(authorization(""), "Bearer ");
}

#[test]
fn config_defaults_the_url() {
    let c = Config::from_values(None, Some("t".to_string())).unwrap();
    assert_eq!(c.base_url, "http://localhost:5000");
    assert_eq!(c.api_token, "t");
    let c = Config::from_values(Some("https://x".to_string()), Some("t".to_string())).unwrap();
    assert_eq!(c.base_url, "https://x");
}

#[test]
fn config_needs_a_token() {
    let e = Config::from_values(Some("https://x".to_string()), None).err().unwrap();
    assert_eq!(e, ConfigError::MissingToken);
    assert_eq!(e.message(), "MACRONX_API_TOKEN must be set");
}

#[test]
fn reply_status_decides_success() {
    assert!(reply_succeeded(200));
    assert!(reply_succeeded(201));
    assert!(reply_succeeded(299));
    assert!(!reply_succeeded(199));
    assert!(!reply_succeeded(300));
    assert!(!reply_succeeded(404));
}

#[test]
fn failure_messages() {
    assert_eq!(failure_message("404 Not Found", None), "API returned 404 Not Found");
    assert_eq!(
        failure_message("422 Unprocessable Entity", Some("bad name")),
        "API returned 422 Unprocessable Entity: bad name"
    );
}
