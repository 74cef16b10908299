use zephyrfs_cli::client::NodeInfo;
use zephyrfs_cli::commands::status::{StatusCommand, StatusFormat};
use zephyrfs_cli::commands::CommandError;
use zephyrfs_cli::config::Config;

fn cmd(detailed: bool, format: &str, watch: u64) -> StatusCommand {
    StatusCommand { detailed, format: format.to_string(), watch }
}

#[test]
fn status_labels_ignore_case() {
    let c = cmd(false, "table", 0);
    assert_eq!(c.format_status("running"), "🟢 Running");
    assert_eq!(c.format_status("RUNNING"), "🟢 Running");
    assert_eq!(c.format_status("Starting"), "🟡 Starting");
    assert_eq!(c.format_status("stopping"), "🟡 Stopping");
    assert_eq!(c.format_status("STOPPED"), "🔴 Stopped");
    assert_eq!(c.format_status("error"), "❌ Error");
    assert_eq!(c.format_status("Syncing"), "❓ Syncing");
    assert_eq!(StatusCommand::label_status("running", "RuNnInG"), "🟢 Running");
}

#[test]
fn durations_use_two_units() {
    let c = cmd(false, "table", 0);
    assert_eq!(c.format_duration(0), "0s");
    assert_eq!(c.format_duration(59), "59s");
    assert_eq!(c.format_duration(60), "1m 0s");
    assert_eq!(c.format_duration(125), "2m 5s");
    assert_eq!(c.format_duration(3600), "1h 0m");
    assert_eq!(c.format_duration(3 * 3600 + 12 * 60 + 9), "3h 12m");
    assert_eq!(c.format_duration(86400), "1d 0h");
    assert_eq!(c.format_duration(4 * 86400 + 7 * 3600 + 59), "4d 7h");
}

#[test]
fn format_and_refresh() {
    assert_eq!(cmd(false, "table", 0).output_format().unwrap(), StatusFormat::Table);
    assert_eq!(cmd(false, "json", 0).output_format().unwrap(), StatusFormat::Json);
    assert!(matches!(cmd(false, "yaml", 0).output_format(), Err(CommandError::InvalidFormat(f)) if f == "yaml"));
    assert_eq!(cmd(false, "table", 0).refresh_interval(), None);
    assert_eq!(cmd(false, "table", 5).refresh_interval(), Some(5));
}

#[test]
fn status_table_lines() {
    let info = NodeInfo {
        id: "node-1".to_string(),
        name: "alpha".to_string(),
        status: "Running".to_string(),
        peers_connected: 4,
        uptime_seconds: 3700,
    };
    let config = Config::defaults_with_home(Some("/home/a".to_string()));
    let storage = vec!["  Used: 1 GiB (50.0%)".to_string()];
    let lines = cmd(true, "table", 0).table_lines(&info, &config, &storage);
    let expected: Vec<String> = vec![
        "ZephyrFS Node Status".to_string(),
        "=".repeat(50),
        "".to_string(),
        "Node Information:".to_string(),
        "  ID: node-1".to_string(),
        "  Name: alpha".to_string(),
        "  Status: 🟢 Running".to_string(),
        "".to_string(),
        "Network:".to_string(),
        "  Connected peers: 4".to_string(),
        "  Listen port: 8080".to_string(),
        "  Coordinator: http://127.0.0.1:9000".to_string(),
        "".to_string(),
        "Storage:".to_string(),
        "  Used: 1 GiB (50.0%)".to_string(),
        "  Max allocation: 10 GB".to_string(),
        "".to_string(),
        "Runtime:".to_string(),
        "  Uptime: 1h 1m".to_string(),
        "  Data directory: \"/home/a/.zephyrfs\"".to_string(),
        "".to_string(),
        "Configuration:".to_string(),
        "  Chunk size: 1 MB".to_string(),
        "  Replication factor: 3".to_string(),
        "  Max connections: 50".to_string(),
        "  Connection timeout: 30s".to_string(),
    ];
    assert_eq!(lines, expected);
    let short = cmd(false, "table", 0).table_lines(&info, &config, &storage);
    assert_eq!(short.len(), expected.len() - 6);
}
