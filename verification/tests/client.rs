use pistachio_client::client::{AdminClient, AdminCredentials};
use pistachio_client::http_error::AdminError;

fn credentials() -> AdminCredentials {
    AdminCredentials { api_key: "key-1".to_string(), service_account_token: "token-1".to_string() }
}

#[test]
fn calls_need_a_connected_client() {
    let client = AdminClient::new("https://admin.example.com", credentials());
    assert!(!client.is_connected());
    assert_eq!(client.configuration().unwrap_err(), AdminError::NotConnected);
}

#[test]
fn connect_sets_up_configuration_once() {
    let client = AdminClient::new("https://admin.example.com", credentials()).connect();
    assert!(client.is_connected());
    let config = client.configuration().unwrap().clone();
    assert_eq!(config.base_path, "https://admin.example.com");
    assert_eq!(config.api_key, "key-1");
    assert_eq!(config.bearer_access_token, "token-1");
    let again = client.connect();
    assert_eq!(again.configuration().unwrap(), &config);
}
