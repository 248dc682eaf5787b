use mousekey::config::{join_path, Config};
use mousekey::error::MouseKeyError;

#[test]
fn default_config_is_40_and_45() {
    let c = Config::default();
    assert_eq!(c.move_limit, 40);
    assert_eq!(c.hold_time, 45);
    assert_eq!(c.move_limit(), 40);
    assert_eq!(c.hold_time(), 45);
}

#[test]
fn getters_return_fields() {
    let c = Config { move_limit: 12, hold_time: -3 };
    assert_eq!(c.move_limit(), 12);
    assert_eq!(c.hold_time(), -3);
}

#[test]
fn config_file_is_next_to_executable() {
    assert_eq!(Config::path("/usr/local/bin"), "/usr/local/bin/config.toml");
    assert_eq!(Config::path("/opt/mousekey/"), "/opt/mousekey/config.toml");
    assert_eq!(Config::path(""), "config.toml");
}

#[test]
fn join_adds_separator_only_when_needed() {
    assert_eq!(join_path("a".to_string(), "b"), "a/b");
    assert_eq!(join_path("a/".to_string(), "b"), "a/b");
    assert_eq!(join_path(String::new(), "b"), "b");
}

#[test]
fn error_messages() {
    assert_eq!(
        MouseKeyError::NoDeviceError.message(),
        "Failed to find a compatible input device. Make sure you are running the application with root priviledges."
    );
    assert_eq!(MouseKeyError::FailedToReadInput.message(), "Failed to read a mouse input");
}
