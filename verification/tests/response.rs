use ts3_status::config::Config;
use ts3_status::response::JsonResponse;
use ts3_status::session::{ErrorKind, StatusError};
use ts3_status::summary::ServerInfo;

#[test]
fn summary_makes_a_success() {
    let info = ServerInfo {
        name: "Home".to_string(),
        version: "3".to_string(),
        platform: "Linux".to_string(),
        channels: Vec::new(),
    };
    let response = JsonResponse::new(Ok(info.clone()));
    assert_eq!(response, JsonResponse { success: true, error: None, server_info: Some(info) });
}

#[test]
fn error_makes_a_failure_with_its_message() {
    let error = StatusError { kind: ErrorKind::Auth, message: "rejected".to_string() };
    let response = JsonResponse::new(Err(error));
    assert_eq!(
        response,
        JsonResponse { success: false, error: Some("rejected".to_string()), server_info: None }
    );
}

#[test]
fn config_hands_its_values_back() {
    let config = Config::new(
        "ts.example.org".to_string(),
        10011,
        3,
        "serveradmin".to_string(),
        "secret".to_string(),
    );
    assert_eq!(config.ts3_host(), "ts.example.org");
    assert_eq!(config.ts3_port(), 10011);
    assert_eq!(config.ts3_server_id(), 3);
    assert_eq!(config.user(), "serveradmin");
    assert_eq!(config.password(), "secret");
    let copy = config.clone();
    assert_eq!(copy.ts3_host(), "ts.example.org");
    assert_eq!(copy.ts3_port(), 10011);
    assert_eq!(copy.ts3_server_id(), 3);
    assert_eq!(copy.user(), "serveradmin");
    assert_eq!(copy.password(), "secret");
}
