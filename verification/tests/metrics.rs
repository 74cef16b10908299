use zephyrfs_cli::metrics::Metrics;

#[test]
fn commands_are_counted_by_name() {
    let mut m = Metrics::new();
    m.record_command_start_at("upload", 100);
    m.record_command_start_at("list", 101);
    m.record_command_start_at("upload", 102);
    assert_eq!(m.commands.total_commands, 3);
    assert_eq!(m.commands.commands_by_type, vec![("upload".to_string(), 2), ("list".to_string(), 1)]);
    assert_eq!(m.commands.last_command_time, Some(102));
    m.record_command_start("status");
    assert_eq!(m.commands.total_commands, 4);
    assert!(m.commands.last_command_time.is_some());
}

#[test]
fn transfers_and_requests_are_counted() {
    let mut m = Metrics::new();
    m.record_network_request(true, 100, true);
    m.record_network_request(false, 50, false);
    m.record_timeout();
    assert_eq!(m.network.total_requests, 2);
    assert_eq!(m.network.failed_requests, 2);
    assert_eq!(m.network.timeouts, 1);
    assert_eq!(m.network.bytes_uploaded, 100);
    assert_eq!(m.network.bytes_downloaded, 50);
    m.record_file_upload(1000);
    m.record_file_download(24);
    m.record_cache_hit();
    m.record_cache_miss();
    m.record_cache_miss();
    m.update_peer_count(7);
    assert_eq!(m.storage.files_uploaded, 1);
    assert_eq!(m.storage.files_downloaded, 1);
    assert_eq!(m.storage.total_bytes_processed, 1024);
    assert_eq!(m.storage.disk_operations, 2);
    assert_eq!(m.storage.cache_hits, 1);
    assert_eq!(m.storage.cache_misses, 2);
    assert_eq!(m.network.peer_connections, 7);
    assert_eq!(m.transfer_totals(), (150, 2));
    m.reset_metrics();
    assert_eq!(m.network.total_requests, 0);
    assert_eq!(m.storage.disk_operations, 0);
    assert!(m.commands.commands_by_type.is_empty());
}

#[test]
fn network_counters_follow_a_history_of_calls() {
    // Since a fresh start: 4 requests (one failed), 2 timeouts.
    let mut m = Metrics::new();
    m.record_network_request(true, 10, true);
    m.record_timeout();
    m.record_network_request(false, 7, false);
    m.record_network_request(true, 5, true);
    m.record_timeout();
    m.record_network_request(true, 3, false);
    assert_eq!(m.network.total_requests, 4);
    assert_eq!(m.network.failed_requests, 1 + 2);
    assert_eq!(m.network.timeouts, 2);
    assert_eq!(m.network.bytes_uploaded, 15);
    assert_eq!(m.network.bytes_downloaded, 10);
    assert_eq!(m.commands.total_commands, 0);
    assert_eq!(m.storage.disk_operations, 0);
}
