use std::path::PathBuf;
use zephyrfs_cli::client::{FileInfo, NodeInfo, Timestamp, UploadResponse};
use zephyrfs_cli::commands::decrypt::DecryptCommand;
use zephyrfs_cli::commands::download::DownloadCommand;
use zephyrfs_cli::commands::encrypt::{crypto_settings, EncryptCommand};
use zephyrfs_cli::commands::init::{Answer, InitCommand, Prompt, WizardStage, WizardStep};
use zephyrfs_cli::commands::join::JoinCommand;
use zephyrfs_cli::commands::upload::UploadCommand;
use zephyrfs_cli::commands::CommandError;
use zephyrfs_cli::config::Config;

fn init_cmd(name: Option<&str>, dir: Option<&str>, port: Option<u16>, storage: Option<u64>) -> InitCommand {
    InitCommand {
        name: name.map(|s| s.to_string()),
        data_dir: dir.map(|s| s.to_string()),
        port,
        storage,
        no_interactive: true,
    }
}

#[test]
fn apply_args_sets_only_given_values() {
    let mut c = Config::defaults_with_home(Some("/home/a".to_string()));
    init_cmd(Some("production-node"), None, None, Some(100)).apply_args(&mut c).unwrap();
    assert_eq!(c.node.name, Some("production-node".to_string()));
    assert_eq!(c.node.data_dir, "/home/a/.zephyrfs");
    assert_eq!(c.node.listen_port, 8080);
    assert_eq!(c.storage.max_storage_gb, 100);
    init_cmd(None, Some("/srv/z"), Some(9000), None).apply_args(&mut c).unwrap();
    assert_eq!(c.node.name, Some("production-node".to_string()));
    assert_eq!(c.node.data_dir, "/srv/z");
    assert_eq!(c.node.listen_port, 9000);
    assert_eq!(c.storage.max_storage_gb, 100);
}

#[test]
fn wizard_asks_for_missing_settings() {
    let cmd = init_cmd(None, Some("/srv/z"), None, Some(5));
    let mut c = Config::defaults_with_home(Some("/home/a".to_string()));
    match cmd.wizard_step(&mut c, WizardStage::Name, None) {
        WizardStep::Ask(Prompt::Name { offered }) => assert_eq!(offered, "zephyr-node"),
        _ => panic!("expected the name prompt"),
    }
    assert!(matches!(
        cmd.wizard_step(&mut c, WizardStage::Name, Some(Answer::Text(String::new()))),
        WizardStep::Next(WizardStage::DataDir)
    ));
    assert_eq!(c.node.name, None);
    assert!(matches!(cmd.wizard_step(&mut c, WizardStage::DataDir, None), WizardStep::Next(WizardStage::Port)));
    assert_eq!(c.node.data_dir, "/srv/z");
    match cmd.wizard_step(&mut c, WizardStage::Port, None) {
        WizardStep::Ask(Prompt::Port { offered }) => assert_eq!(offered, 8080),
        _ => panic!("expected the port prompt"),
    }
    assert!(matches!(
        cmd.wizard_step(&mut c, WizardStage::Port, Some(Answer::Port(7000))),
        WizardStep::Next(WizardStage::Storage)
    ));
    assert_eq!(c.node.listen_port, 7000);
    assert!(matches!(cmd.wizard_step(&mut c, WizardStage::Storage, None), WizardStep::Next(WizardStage::Confirm)));
    assert_eq!(c.storage.max_storage_gb, 5);
    assert!(matches!(cmd.wizard_step(&mut c, WizardStage::Confirm, None), WizardStep::Ask(Prompt::Confirm)));
    assert!(matches!(cmd.wizard_step(&mut c, WizardStage::Confirm, Some(Answer::Confirm(true))), WizardStep::Finished));
    assert!(matches!(cmd.wizard_step(&mut c, WizardStage::Confirm, Some(Answer::Confirm(false))), WizardStep::Cancelled));
    let lines = InitCommand::summary_lines(&c);
    assert_eq!(lines[1], "  Name: auto-generated");
    assert_eq!(lines[2], "  Data directory: \"/srv/z\"");
    assert_eq!(lines[3], "  Listen port: 7000");
    assert_eq!(lines[4], "  Max storage: 5 GB");
    let done = InitCommand::completion_lines(&c);
    assert_eq!(done[1], "  Node ID: auto-generated");
    assert_eq!(done.len(), 8);
}

#[test]
fn upload_checks_and_names() {
    let cmd = UploadCommand { file: "/data/report.pdf".to_string(), name: None, progress: true, verify: true };
    assert!(cmd.check_input(true).is_ok());
    assert!(matches!(cmd.check_input(false), Err(CommandError::PathMissing(p)) if p == "/data/report.pdf"));
    assert_eq!(cmd.display_name(), "report.pdf");
    let named = UploadCommand { name: Some("family-photos".to_string()), ..cmd };
    assert_eq!(named.display_name(), "family-photos");
    let unnamed = UploadCommand { file: "/".to_string(), name: None, progress: false, verify: false };
    assert_eq!(unnamed.display_name(), "unknown");
    let intro = named.intro_lines(2048);
    assert_eq!(intro, vec!["Uploading: family-photos", "  Size: 2 KiB", "  Path: \"/data/report.pdf\""]);
    let response = UploadResponse { success: true, file_hash: "abc".to_string(), chunks_uploaded: 2 };
    let lines = named.result_lines(&response, false);
    assert_eq!(lines[0], "✓ File uploaded successfully!");
    assert_eq!(lines[4], "⚠  Warning: Could not verify upload in file list");
    assert_eq!(lines[6], "  zephyrfs download abc");
}

#[test]
fn upload_accepts_a_directory_under_its_name() {
    // zephyrfs upload photos/ --name family-photos
    let cmd = UploadCommand {
        file: "photos/".to_string(),
        name: Some("family-photos".to_string()),
        progress: true,
        verify: false,
    };
    assert!(cmd.check_input(true).is_ok());
    assert_eq!(cmd.display_name(), "family-photos");
    assert_eq!(cmd.member_name("2020/beach.jpg"), "family-photos/2020/beach.jpg");
    let plain = UploadCommand { name: None, ..cmd };
    assert_eq!(plain.display_name(), "photos");
    assert_eq!(plain.member_name("a.jpg"), "photos/a.jpg");
}

#[test]
fn init_with_options_is_non_interactive() {
    // zephyrfs init --name my-node --port 8080 --storage 50
    let mut c = Config::defaults_with_home(Some("/home/a".to_string()));
    let cmd = InitCommand { no_interactive: false, ..init_cmd(Some("my-node"), None, Some(8080), Some(50)) };
    assert!(matches!(cmd.start(&mut c), WizardStep::Finished));
    assert_eq!(c.node.name.as_deref(), Some("my-node"));
    assert_eq!(c.node.listen_port, 8080);
    assert_eq!(c.storage.max_storage_gb, 50);
    assert_eq!(c.node.data_dir, "/home/a/.zephyrfs");
    let mut d = Config::defaults_with_home(Some("/home/a".to_string()));
    let plain = InitCommand { no_interactive: false, ..init_cmd(None, None, None, None) };
    assert!(matches!(plain.start(&mut d), WizardStep::Next(WizardStage::Name)));
    assert_eq!(d.node.name, None);
    let skipped = init_cmd(None, None, None, None);
    assert!(matches!(skipped.start(&mut d), WizardStep::Finished));
    assert_eq!(d.node.listen_port, 8080);
}

#[test]
fn paths_are_shown_as_path_debug() {
    assert_eq!(
        DownloadCommand::done_lines(&listed("x", "h", 1), "it's"),
        vec!["✓ File downloaded successfully!", "  Location: \"it's\"", "  Size: 1 B"]
    );
}

fn listed(name: &str, hash: &str, size: u64) -> FileInfo {
    FileInfo {
        name: name.to_string(),
        size,
        hash: hash.to_string(),
        uploaded_at: Timestamp { secs: 0, nanos: 0 },
        chunks: 1,
        replicas: 1,
    }
}

#[test]
fn download_selects_first_match() {
    let files = vec![listed("a", "h1", 10), listed("b", "h2", 20), listed("c", "h2", 30)];
    assert!(UploadCommand::is_listed(&files, "h2"));
    assert!(!UploadCommand::is_listed(&files, "h3"));
    let cmd = DownloadCommand { file_hash: "h2".to_string(), output: None, force: false, progress: true, verify: true };
    assert_eq!(cmd.select(&files).unwrap(), 1);
    assert_eq!(cmd.output_path(&files[1]), "b");
    assert!(matches!(cmd.check_output("b", true), Err(CommandError::OutputExists(p)) if p == "b"));
    assert!(cmd.check_output("b", false).is_ok());
    assert!(matches!(cmd.check_downloaded_size(&files[1], 19), Err(CommandError::SizeMismatch { expected: 20, actual: 19 })));
    assert!(cmd.check_downloaded_size(&files[1], 20).is_ok());
    let missing = DownloadCommand { file_hash: "zz".to_string(), ..cmd };
    assert!(matches!(missing.select(&files), Err(CommandError::FileNotFound(h)) if h == "zz"));
    let forced = DownloadCommand { output: Some("out.bin".to_string()), force: true, ..missing };
    assert_eq!(forced.output_path(&files[0]), "out.bin");
    assert!(forced.check_output("out.bin", true).is_ok());
}

fn enc(input: &str) -> EncryptCommand {
    EncryptCommand {
        input: input.to_string(),
        output: None,
        password: None,
        progress: true,
        hash: "both".to_string(),
        chunk_size: 1,
    }
}

fn std_encrypt_default(input: &str) -> String {
    let mut output = PathBuf::from(input);
    let current_ext = output.extension().and_then(|s| s.to_str()).unwrap_or("").to_string();
    if current_ext.is_empty() {
        output.set_extension("zfs");
    } else {
        output.set_extension(format!("{}.zfs", current_ext));
    }
    output.to_str().unwrap().to_string()
}

#[test]
fn encrypt_output_and_password() {
    for p in ["notes.txt", "dir/archive.tar.gz", "README", ".bashrc", "a.", "/x/y/", "dir/a.txt/."] {
        assert_eq!(enc(p).output_path(), std_encrypt_default(p), "encrypt output of {:?}", p);
    }
    assert_eq!(enc("notes.txt").output_path(), "notes.txt.zfs");
    assert_eq!(enc("dir/notes.txt").display_name(), "notes.txt");
    assert!(EncryptCommand::check_password("12345678").is_ok());
    assert!(matches!(EncryptCommand::check_password("1234567"), Err(CommandError::PasswordTooShort)));
    assert!(EncryptCommand::check_password("ééééé").is_ok());
    assert!(matches!(enc("a").check_output("a.zfs", true), Err(CommandError::OutputExists(_))));
    let s = crypto_settings();
    assert_eq!((s.scrypt_log_n, s.scrypt_r, s.scrypt_p, s.scrypt_output_len), (17, 8, 1, 64));
    assert_eq!((s.aes_key_len, s.aes_nonce_len, s.aes_tag_len), (32, 12, 16));
}

fn dec(input: &str, output: Option<&str>) -> DecryptCommand {
    DecryptCommand {
        input: input.to_string(),
        output: output.map(|o| o.to_string()),
        password: None,
        progress: true,
        skip_verify: false,
        force: false,
    }
}

#[test]
fn decrypt_output_and_checks() {
    assert_eq!(dec("backup/notes.txt.zfs", None).output_path("notes.txt"), "notes.txt");
    assert_eq!(dec("backup/unknown.zfs", None).output_path("unknown"), "backup/unknown");
    assert_eq!(dec("backup/x.zfs", Some("restored.txt")).output_path("x"), "restored.txt");
    assert_eq!(dec("..", None).output_path("unknown"), "..");
    assert!(DecryptCommand::check_version(1).is_ok());
    assert!(matches!(DecryptCommand::check_version(2), Err(CommandError::UnsupportedVersion(2))));
    assert!(DecryptCommand::check_decrypted_size(5, 5).is_ok());
    assert!(matches!(DecryptCommand::check_decrypted_size(5, 4), Err(CommandError::SizeMismatch { expected: 5, actual: 4 })));
    let p = "dir/unknown";
    let encrypted = enc(p).output_path();
    assert_eq!(dec(&encrypted, None).output_path(&enc(p).display_name()), p);
}

#[test]
fn join_report_warns_without_peers() {
    let cmd = JoinCommand { bootstrap_peer: "127.0.0.1:8081".to_string(), timeout: 30, skip_test: false };
    let mut info = NodeInfo {
        id: "n".to_string(),
        name: "n".to_string(),
        status: "running".to_string(),
        peers_connected: 0,
        uptime_seconds: 1,
    };
    let lines = cmd.report_lines(&info);
    assert_eq!(lines.len(), 5);
    assert_eq!(lines[1], "  Bootstrap peer: 127.0.0.1:8081");
    assert_eq!(lines[2], "  Connected peers: 0");
    info.peers_connected = 3;
    assert_eq!(cmd.report_lines(&info).len(), 4);
}

#[test]
fn transfer_reports() {
    let f = listed("report.pdf", "h9", 1536);
    assert_eq!(
        DownloadCommand::intro_lines(&f, "out/report.pdf"),
        vec!["Downloading: report.pdf", "  Hash: h9", "  Size: 1.50 KiB", "  Chunks: 1", "  Output: \"out/report.pdf\""]
    );
    assert_eq!(
        DownloadCommand::done_lines(&f, "a\"b"),
        vec!["✓ File downloaded successfully!", "  Location: \"a\\\"b\"", "  Size: 1.50 KiB"]
    );
    assert_eq!(
        EncryptCommand::intro_lines("notes.txt", 12, "notes.txt.zfs"),
        vec!["Encrypting: notes.txt", "  Size: 12 B", "  Output: \"notes.txt.zfs\""]
    );
    let record = enc("notes.txt").file_format(
        "notes.txt".to_string(),
        12,
        "cid".to_string(),
        vec![],
        Timestamp { secs: 1_431_648_000, nanos: 0 },
    );
    assert_eq!(record.version, 1);
    assert_eq!(record.hash_algorithm, "both");
    let done = EncryptCommand::done_lines(&record, "notes.txt.zfs");
    assert_eq!(done[2], "  Content ID: cid");
    assert_eq!(done[3], "  Segments: 0");
    assert_eq!(done.len(), 9);
    let intro = DecryptCommand::intro_lines(&record, "notes.txt").unwrap();
    assert_eq!(intro[3], "  Created: 2015-05-15 00:00:00 UTC");
    assert_eq!(intro[1], "  Original size: 12 B");
    assert_eq!(DecryptCommand::done_lines("notes.txt", 12)[2], "  Size: 12 B");
}

#[test]
fn preflight_checks_come_in_order() {
    let e = enc("notes.txt");
    assert!(matches!(e.preflight(false, false, true), Err(CommandError::PathMissing(p)) if p == "notes.txt"));
    assert!(matches!(e.preflight(true, false, true), Err(CommandError::NotAFile(p)) if p == "notes.txt"));
    assert!(matches!(e.preflight(true, true, true), Err(CommandError::OutputExists(p)) if p == "notes.txt.zfs"));
    assert_eq!(e.preflight(true, true, false).unwrap(), "notes.txt.zfs");

    let d = dec("backup/unknown.zfs", None);
    assert!(matches!(d.preflight(2, "unknown", true), Err(CommandError::UnsupportedVersion(2))));
    assert!(matches!(d.preflight(1, "unknown", true), Err(CommandError::OutputExists(p)) if p == "backup/unknown"));
    assert_eq!(d.preflight(1, "notes.txt", false).unwrap(), "notes.txt");
    let forced = DecryptCommand { force: true, ..dec("x.zfs", None) };
    assert_eq!(forced.preflight(1, "x.txt", true).unwrap(), "x.txt");

    let files = vec![listed("a", "h1", 10), listed("b", "h2", 20)];
    let cmd = DownloadCommand { file_hash: "h2".to_string(), output: None, force: false, progress: true, verify: true };
    assert_eq!(cmd.target(&files).unwrap(), (1, "b".to_string()));
    let missing = DownloadCommand { file_hash: "h9".to_string(), ..cmd };
    assert!(matches!(missing.target(&files), Err(CommandError::FileNotFound(h)) if h == "h9"));
}

#[test]
fn join_uses_the_given_timeout() {
    let cmd = JoinCommand { bootstrap_peer: "127.0.0.1:8081".to_string(), timeout: 5, skip_test: true };
    assert_eq!(cmd.request_timeout(), 5);
    let c = cmd.join_config(Config::defaults_with_home(Some("/home/a".to_string())));
    assert_eq!(c.coordinator.timeout, 5);
    assert_eq!(c.coordinator.endpoint, "http://127.0.0.1:9000");
    assert_eq!(c.coordinator.retry_attempts, 3);
    assert_eq!(c.node.listen_port, 8080);
}
