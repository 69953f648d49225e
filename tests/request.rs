use idv_admin_daemon::config::EndpointConfig;
use idv_admin_daemon::request::{HttpMethod, Trigger, API_KEY_HEADER};

#[test]
fn deletion_request_is_authenticated_delete() {
    let c = EndpointConfig::resolve(Some("dev".to_string()), Some("secret".to_string())).unwrap();
    let r = c.request_for(Trigger::Deletion);
    assert_eq!(r.method(), HttpMethod::Delete);
    assert_eq!(r.url(), "http://localhost:3000/admin/user-idv-data");
    assert_eq!(r.api_key(), "secret");
    assert_eq!(API_KEY_HEADER, "x-api-key");
}

#[test]
fn transfer_request_is_authenticated_post() {
    let c = EndpointConfig::resolve(Some("prod".to_string()), Some("abc".to_string())).unwrap();
    let r = c.request_for(Trigger::Transfer);
    assert_eq!(r.method(), HttpMethod::Post);
    assert_eq!(r.url(), "https://id-server.holonym.io/admin/transfer-funds");
    assert_eq!(r.api_key(), "abc");
}
