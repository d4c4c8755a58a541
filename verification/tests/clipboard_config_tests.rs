//! Tests of clipboard content, configuration, logging and errors.

use remote_desk::clipboard::{ClipboardContent, ClipboardMonitor};
use remote_desk::config::{Config, ConfigManager};
use remote_desk::error::{RemoteDeskError, SecurityError};
use remote_desk::logging::LogLevel;
use remote_desk::transport::ClipboardContentType;

#[test]
fn test_clipboard_content_text() {
    let content = ClipboardContent::text("Hello, World!");
    assert_eq!(content.content_type, ClipboardContentType::Text);
    assert_eq!(content.as_text(), Some("Hello, World!".to_string()));
}

#[test]
fn test_clipboard_content_hash() {
    let content1 = ClipboardContent::text("test");
    let content2 = ClipboardContent::text("test");
    let content3 = ClipboardContent::text("different");

    assert_eq!(content1.hash, content2.hash);
    assert_ne!(content1.hash, content3.hash);
}

#[test]
fn test_transport_conversion() {
    let content = ClipboardContent::text("test content");
    let transport = content.to_transport(42);

    assert_eq!(transport.content_type, ClipboardContentType::Text);
    assert_eq!(transport.sequence, 42);

    let restored = ClipboardContent::from_transport(&transport);
    assert_eq!(restored.as_text(), content.as_text());
}

#[test]
fn test_clipboard_monitor_creation() {
    let mut monitor = ClipboardMonitor::new();
    assert!(!monitor.is_running());
    monitor.start();
    assert!(monitor.is_running());
    monitor.stop();
    assert!(!monitor.is_running());

    let monitor = ClipboardMonitor::with_interval(1000);
    assert_eq!(monitor.poll_interval_ms(), 1000);
}

#[test]
fn test_clipboard_echo_suppression() {
    let mut monitor = ClipboardMonitor::new();
    let first = ClipboardContent::text("one");
    let again = ClipboardContent::text("one");
    let second = ClipboardContent::text("two");

    assert_eq!(monitor.observe(first.hash), Some(0));
    assert_eq!(monitor.observe(again.hash), None);
    assert_eq!(monitor.observe(second.hash), Some(1));

    // content applied from the peer must not be echoed back
    monitor.note_applied(first.hash);
    assert_eq!(monitor.observe(first.hash), None);
}

#[test]
fn test_default_config() {
    let config = Config::default();
    assert_eq!(config.network.listen_port, 0);
    assert_eq!(config.desktop.default_quality, 80);
    assert_eq!(config.security.min_password_length, 6);
    assert!(config.clipboard.enabled);
}

#[test]
fn test_config_validation() {
    let manager = ConfigManager::new().unwrap();

    let mut config = Config::default();
    config.desktop.default_quality = 150;

    assert!(manager.validate(&config).is_err());
}

#[test]
fn test_config_paths_share_directory() {
    let manager = ConfigManager::new().unwrap();
    let dir = manager.config_directory().clone();
    assert!(manager.device_id_path().starts_with(&dir));
    assert!(manager.device_id_path().ends_with("/device_id"));
    assert!(manager.password_hash_path().ends_with("/password.hash"));
    assert!(manager.connection_log_path().ends_with("/connections.log"));
}

#[test]
fn test_log_level_filter() {
    assert_eq!(LogLevel::Trace.as_filter_str(), "trace");
    assert_eq!(LogLevel::Debug.as_filter_str(), "debug");
    assert_eq!(LogLevel::Info.as_filter_str(), "info");
    assert_eq!(LogLevel::Warn.as_filter_str(), "warn");
    assert_eq!(LogLevel::Error.as_filter_str(), "error");
}

#[test]
fn test_default_log_level() {
    let default = LogLevel::default();
    assert_eq!(default.as_filter_str(), "info");
}

#[test]
fn test_error_display() {
    let error = SecurityError::PasswordTooShort { min: 8 };
    assert_eq!(
        error.message(),
        "Password is too short (minimum 8 characters)"
    );
}

#[test]
fn test_error_conversion() {
    let io_error = std::io::Error::new(std::io::ErrorKind::NotFound, "file not found");
    let remote_error: RemoteDeskError = io_error.into();
    assert!(matches!(remote_error, RemoteDeskError::Io(_)));
}

#[test]
fn test_as_text_rejects_invalid_utf8() {
    let content = ClipboardContent {
        content_type: ClipboardContentType::Text,
        data: vec![0xFF, 0xFE],
        hash: 0,
        timestamp: 0,
    };
    assert!(content.as_text().is_none());

    let image = ClipboardContent::image(vec![1, 2, 3]);
    assert!(image.as_text().is_none());
}
