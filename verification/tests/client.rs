use siyuan_mcp::client::ClientConfig;

#[test]
fn base_url_loses_its_trailing_slash() {
    let config = ClientConfig::new("http://127.0.0.1:6806/".to_string(), None, 15000);
    assert_eq!(config.base_url(), "http://127.0.0.1:6806");
    assert_eq!(config.timeout_ms(), 15000);
}

#[test]
fn base_url_without_a_slash_is_kept() {
    let config = ClientConfig::new("http://127.0.0.1:6806".to_string(), None, 1);
    assert_eq!(config.base_url(), "http://127.0.0.1:6806");
}

#[test]
fn url_is_base_url_then_endpoint() {
    let config = ClientConfig::new("http://127.0.0.1:6806//".to_string(), None, 15000);
    assert_eq!(config.url("/api/query/sql"), "http://127.0.0.1:6806/api/query/sql");
    assert_eq!(config.url(""), "http://127.0.0.1:6806");
}

#[test]
fn authorization_carries_the_token() {
    let config =
        ClientConfig::new("http://h".to_string(), Some("s3cret-token".to_string()), 15000);
    assert_eq!(config.authorization(), Some("Token s3cret-token".to_string()));
}

#[test]
fn authorization_is_omitted_without_a_token() {
    let config = ClientConfig::new("http://h".to_string(), None, 15000);
    assert_eq!(config.authorization(), None);
}

#[test]
fn authorization_of_an_empty_token_is_still_sent() {
    let config = ClientConfig::new("http://h".to_string(), Some(String::new()), 15000);
    assert_eq!(config.authorization(), Some("Token ".to_string()));
}
