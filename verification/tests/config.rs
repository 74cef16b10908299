use zephyrfs_cli::config::{Config, ConfigError, ConfigFormat, LoadPlan};

#[test]
fn defaults_follow_the_documented_values() {
    let c = Config::defaults_with_home(Some("/home/alice".to_string()));
    assert_eq!(c.node.id, None);
    assert_eq!(c.node.name, None);
    assert_eq!(c.node.data_dir, "/home/alice/.zephyrfs");
    assert_eq!(c.node.listen_port, 8080);
    assert_eq!(c.network.bootstrap_peers, vec!["127.0.0.1:8081".to_string(), "127.0.0.1:8082".to_string()]);
    assert_eq!(c.network.max_connections, 50);
    assert_eq!(c.network.connection_timeout, 30);
    assert_eq!(c.storage.max_storage_gb, 10);
    assert_eq!(c.storage.chunk_size_mb, 1);
    assert_eq!(c.storage.replication_factor, 3);
    assert_eq!(c.coordinator.endpoint, "http://127.0.0.1:9000");
    assert_eq!(c.coordinator.timeout, 30);
    assert_eq!(c.coordinator.retry_attempts, 3);
}

#[test]
fn defaults_without_home_use_current_directory() {
    let c = Config::defaults_with_home(None);
    assert_eq!(c.node.data_dir, "./.zephyrfs");
}

#[test]
fn default_config_has_a_data_dir_port_and_endpoint() {
    let config = Config::default();
    assert!(!config.node.data_dir.is_empty());
    assert!(config.node.listen_port > 0);
    assert!(!config.coordinator.endpoint.is_empty());
}

#[test]
fn test_nonexistent_config_uses_defaults() {
    assert_eq!(Config::load_plan("/tmp/x/nonexistent.yaml", false), LoadPlan::Defaults);
    let config = Config::defaults_with_home(Some("/home/a".to_string()));
    let default_config = Config::default();
    assert_eq!(config.node.listen_port, default_config.node.listen_port);
    assert_eq!(config.storage.max_storage_gb, default_config.storage.max_storage_gb);
}

#[test]
fn format_follows_extension() {
    assert_eq!(Config::format_for("/etc/zephyrfs/config.toml"), ConfigFormat::Toml);
    assert_eq!(Config::format_for("config.yaml"), ConfigFormat::Yaml);
    assert_eq!(Config::format_for("config.yml"), ConfigFormat::Yaml);
    assert_eq!(Config::format_for("config"), ConfigFormat::Yaml);
    assert_eq!(Config::format_for(".toml"), ConfigFormat::Yaml);
    assert_eq!(Config::format_for("a.TOML"), ConfigFormat::Yaml);
    assert_eq!(Config::load_plan("test_config.toml", true), LoadPlan::Parse(ConfigFormat::Toml));
    assert_eq!(Config::load_plan("test_config.yaml", true), LoadPlan::Parse(ConfigFormat::Yaml));
}

#[test]
fn default_path_prefers_config_dir() {
    assert_eq!(
        Config::default_config_path_with(Some("/home/a/.config".to_string()), Some("/home/a".to_string()), false),
        Ok("/home/a/.config/zephyrfs/config.yaml".to_string())
    );
    assert_eq!(
        Config::default_config_path_with(None, Some("/home/b".to_string()), false),
        Ok("/home/b/.config/zephyrfs/config.yaml".to_string())
    );
    assert_eq!(Config::default_config_path_with(None, None, false), Err(ConfigError::NoConfigDir));
    assert_eq!(Config::default_config_path_with(None, None, true), Err(ConfigError::NoConfigDir));
    assert_eq!(Config::config_path(Some("custom.toml"), false), Ok("custom.toml".to_string()));
}

#[test]
fn documented_place_is_preferred_on_macos() {
    assert_eq!(
        Config::default_config_path_with(
            Some("/Users/a/Library/Application Support".to_string()),
            Some("/Users/a".to_string()),
            true,
        ),
        Ok("/Users/a/.config/zephyrfs/config.yaml".to_string())
    );
    assert_eq!(
        Config::default_config_path_with(Some("/cfg".to_string()), None, true),
        Ok("/cfg/zephyrfs/config.yaml".to_string())
    );
}
