use std::collections::HashSet;

use kimage::config::ConfigError;
use kimage::config::load_client_config;
use kimage::config::load_server_config;
use kimage::config::resolve_storage_path;
use kimage::filename::check_image_name;
use kimage::filename::generate_filename;

const FULL_CONFIG: &str = "port = 8080\napi_key = \"test-api-key\"\nstorage_path = \"images\"\nserver_url = \"http://localhost:8080\"\n";

#[test]
fn server_config_resolves_relative_storage_path() {
    let config = load_server_config(FULL_CONFIG, "/home/u").unwrap();
    assert_eq!(config.port, 8080);
    assert_eq!(config.api_key, "test-api-key");
    assert_eq!(config.storage_path, "/home/u/images");
    assert_eq!(config.server_url, "http://localhost:8080");
}

#[test]
fn server_config_keeps_absolute_storage_path() {
    let text = "port = 9000\napi_key = \"k\"\nstorage_path = \"/var/data\"\nserver_url = \"http://example.org\"\n";
    let config = load_server_config(text, "/home/u").unwrap();
    assert_eq!(config.storage_path, "/var/data");
}

#[test]
fn resolve_keeps_absolute_and_joins_relative() {
    assert_eq!(resolve_storage_path("/home/u", String::from("images")), "/home/u/images");
    assert_eq!(resolve_storage_path("/home/u", String::from("/images")), "/images");
    assert_eq!(resolve_storage_path("/home/u", String::from("")), "/home/u/");
}

#[test]
fn server_config_missing_field_is_parse_error() {
    let text = "port = 8080\nstorage_path = \"images\"\nserver_url = \"http://localhost:8080\"\n";
    assert!(matches!(load_server_config(text, "/home/u"), Err(ConfigError::Parse)));
}

#[test]
fn server_config_bad_syntax_is_parse_error() {
    assert!(matches!(load_server_config("port = [", "/home/u"), Err(ConfigError::Parse)));
}

#[test]
fn server_config_port_out_of_range_is_parse_error() {
    let high = "port = 70000\napi_key = \"k\"\nstorage_path = \"i\"\nserver_url = \"u\"\n";
    let negative = "port = -1\napi_key = \"k\"\nstorage_path = \"i\"\nserver_url = \"u\"\n";
    assert!(matches!(load_server_config(high, "/home/u"), Err(ConfigError::Parse)));
    assert!(matches!(load_server_config(negative, "/home/u"), Err(ConfigError::Parse)));
}

#[test]
fn server_config_port_wrong_type_is_parse_error() {
    let text = "port = \"8080\"\napi_key = \"k\"\nstorage_path = \"i\"\nserver_url = \"u\"\n";
    assert!(matches!(load_server_config(text, "/home/u"), Err(ConfigError::Parse)));
}

#[test]
fn server_config_storage_path_wrong_type_is_parse_error() {
    let text = "port = 8080\napi_key = \"k\"\nstorage_path = 7\nserver_url = \"u\"\n";
    assert!(matches!(load_server_config(text, "/home/u"), Err(ConfigError::Parse)));
}

#[test]
fn client_config_needs_only_key_and_url() {
    let text = "api_key = \"k\"\nserver_url = \"http://example.org\"\n";
    let config = load_client_config(text).unwrap();
    assert_eq!(config.api_key, "k");
    assert_eq!(config.server_url, "http://example.org");
}

#[test]
fn client_config_accepts_server_fields_too() {
    let config = load_client_config(FULL_CONFIG).unwrap();
    assert_eq!(config.api_key, "test-api-key");
}

#[test]
fn client_config_missing_key_is_parse_error() {
    assert!(matches!(load_client_config("server_url = \"u\"\n"), Err(ConfigError::Parse)));
}

#[test]
fn image_name_allow_list() {
    assert!(check_image_name("a1B2c3D4e5.png"));
    assert!(check_image_name(&generate_filename()));
    assert!(!check_image_name("../secret.png"));
    assert!(!check_image_name("a1B2c3D4e5.jpg"));
    assert!(!check_image_name("a1B2c3D4e.png"));
    assert!(!check_image_name("a1B2c3D4e5!png"));
}

#[test]
fn filenames_match_pattern_and_rarely_collide() {
    let mut seen: HashSet<String> = HashSet::new();
    for _ in 0..1000 {
        let name = generate_filename();
        assert_eq!(name.len(), 14);
        assert!(name.ends_with(".png"));
        assert!(name.chars().take(10).all(|c| c.is_ascii_alphanumeric()));
        seen.insert(name);
    }
    assert_eq!(seen.len(), 1000);
}
