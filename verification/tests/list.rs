use zephyrfs_cli::client::{FileInfo, Timestamp};
use zephyrfs_cli::commands::list::{stable_sort, ListCommand, ListFormat, Listing, SortColumn};
use zephyrfs_cli::commands::CommandError;

fn file(name: &str, size: u64, hash: &str, secs: i64, chunks: usize) -> FileInfo {
    FileInfo {
        name: name.to_string(),
        size,
        hash: hash.to_string(),
        uploaded_at: Timestamp { secs, nanos: 0 },
        chunks,
        replicas: 3,
    }
}

fn sample() -> Vec<FileInfo> {
    vec![
        file("notes.txt", 300, "aaaa1111bbbb2222", 1_700_000_300, 1),
        file("photo.jpg", 5_000_000, "cccc3333dddd4444", 1_700_000_100, 5),
        file("archive.tar", 300, "eeee5555ffff6666", 1_700_000_200, 3),
        file("notes-old.txt", 10, "9999", 1_700_000_000, 1),
    ]
}

fn cmd(sort: &str, reverse: bool, filter: Option<&str>, format: &str, long: bool) -> ListCommand {
    ListCommand {
        long,
        sort: sort.to_string(),
        reverse,
        filter: filter.map(|f| f.to_string()),
        format: format.to_string(),
    }
}

fn names(files: &[FileInfo]) -> Vec<String> {
    files.iter().map(|f| f.name.clone()).collect()
}

#[test]
fn sorts_by_each_column() {
    let by_name = cmd("name", false, None, "table", false).arrange(sample()).unwrap();
    assert_eq!(names(&by_name), vec!["archive.tar", "notes-old.txt", "notes.txt", "photo.jpg"]);
    let by_size = cmd("size", false, None, "table", false).arrange(sample()).unwrap();
    assert_eq!(names(&by_size), vec!["notes-old.txt", "notes.txt", "archive.tar", "photo.jpg"]);
    let by_date = cmd("date", false, None, "table", false).arrange(sample()).unwrap();
    assert_eq!(names(&by_date), vec!["notes-old.txt", "photo.jpg", "archive.tar", "notes.txt"]);
    let by_chunks = cmd("chunks", false, None, "table", false).arrange(sample()).unwrap();
    assert_eq!(names(&by_chunks), vec!["notes.txt", "notes-old.txt", "archive.tar", "photo.jpg"]);
}

#[test]
fn equal_keys_keep_their_order_and_reverse_flips_all() {
    let by_size = cmd("size", true, None, "table", false).arrange(sample()).unwrap();
    assert_eq!(names(&by_size), vec!["photo.jpg", "archive.tar", "notes.txt", "notes-old.txt"]);
    let mut expected = sample();
    expected.sort_by(|a, b| a.chunks.cmp(&b.chunks));
    let sorted = stable_sort(sample(), SortColumn::Chunks);
    assert_eq!(names(&sorted), names(&expected));
}

#[test]
fn filter_keeps_matching_names() {
    let notes = cmd("name", false, Some("notes"), "table", false).arrange(sample()).unwrap();
    assert_eq!(names(&notes), vec!["notes-old.txt", "notes.txt"]);
    let none = cmd("name", false, Some("zzz"), "table", false).arrange(sample()).unwrap();
    assert!(none.is_empty());
}

#[test]
fn unknown_sort_column_and_format_are_errors() {
    match cmd("owner", false, None, "table", false).arrange(sample()) {
        Err(CommandError::InvalidSortColumn(c)) => assert_eq!(c, "owner"),
        other => panic!("unexpected {:?}", other.map(|v| v.len())),
    }
    assert_eq!(cmd("name", false, None, "csv", false).output_format().unwrap(), ListFormat::Csv);
    assert_eq!(cmd("name", false, None, "json", false).output_format().unwrap(), ListFormat::Json);
    assert_eq!(cmd("name", false, None, "table", false).output_format().unwrap(), ListFormat::Table);
    assert!(matches!(cmd("name", false, None, "xml", false).output_format(), Err(CommandError::InvalidFormat(f)) if f == "xml"));
}

#[test]
fn short_table_layout() {
    let files = vec![
        file("a.txt", 100, "0123456789abcdef", 0, 1),
        file("a-very-long-file-name-that-goes-past-forty-bytes.bin", 2048, "beef", 0, 2),
    ];
    let c = cmd("name", false, None, "table", false);
    assert!(c.table_printable(&files));
    let lines = c.table_lines(&files);
    assert_eq!(lines[0], format!("{:<40} {:>10} {}", "NAME", "SIZE", "HASH"));
    assert_eq!(lines[1], "-".repeat(60));
    assert_eq!(lines[2], format!("{:<40} {:>10} {}", "a.txt", "100 B", "01234567"));
    assert_eq!(
        lines[3],
        format!(
            "{:<40} {:>10} {}",
            format!("{}...", &"a-very-long-file-name-that-goes-past-forty-bytes.bin"[..37]),
            "2 KiB",
            "beef"
        )
    );
    assert_eq!(lines.len(), 4);
}

#[test]
fn long_table_layout_with_given_times() {
    let files = vec![file("a.txt", 1536, "0123456789abcdef", 0, 4)];
    let c = cmd("name", false, None, "table", true);
    let lines = c.table_lines_with_times(&files, &vec!["2024-01-02 03:04".to_string()]);
    assert_eq!(
        lines[0],
        format!("{:<12} {:>10} {:>8} {:>8} {:<20} {}", "HASH", "SIZE", "CHUNKS", "REPLICAS", "UPLOADED", "NAME")
    );
    assert_eq!(lines[1], "-".repeat(80));
    assert_eq!(
        lines[2],
        format!("{:<12} {:>10} {:>8} {:>8} {:<20} {}", "0123456789ab", "1.50 KiB", 4, 3, "2024-01-02 03:04", "a.txt")
    );
}

#[test]
fn cutting_inside_a_character_is_refused() {
    let files = vec![file("x", 1, "abcdefgé", 0, 1)];
    assert!(!cmd("name", false, None, "table", false).table_printable(&files));
    assert!(cmd("name", false, None, "table", true).table_printable(&files));
}

#[test]
fn csv_layout() {
    let files = vec![file("a.txt", 100, "h1", 1_431_648_000, 2)];
    let lines = ListCommand::csv_lines(&files).unwrap();
    assert_eq!(lines[0], "name,size,hash,chunks,replicas,uploaded_at");
    assert_eq!(lines[1], "a.txt,100,h1,2,3,2015-05-15T00:00:00+00:00");
}

#[test]
fn summary_counts_and_sizes() {
    let lines = ListCommand::summary_lines(&sample());
    assert_eq!(lines[0], "\nTotal files: 4");
    assert_eq!(lines[1], "Total size: 4.77 MiB");
    assert_eq!(zephyrfs_cli::commands::list::total_size(&sample()), Some(5_000_610));
    let huge = vec![file("a", u64::MAX, "h", 0, 1), file("b", 1, "h", 0, 1)];
    assert_eq!(zephyrfs_cli::commands::list::total_size(&huge), None);
}

#[test]
fn listing_decides_in_the_command_order() {
    // Unknown sort column is refused before anything else.
    assert!(matches!(
        cmd("owner", false, None, "xml", false).listing(sample()),
        Err(CommandError::InvalidSortColumn(s)) if s == "owner"
    ));
    // Nothing passes the filter: "no files", even with an unknown format.
    assert!(matches!(cmd("name", false, Some("zzz"), "xml", false).listing(sample()), Ok(Listing::NoFiles)));
    assert!(matches!(cmd("name", false, None, "json", false).listing(Vec::new()), Ok(Listing::NoFiles)));
    // Some files and an unknown format: refused.
    assert!(matches!(
        cmd("name", false, None, "xml", false).listing(sample()),
        Err(CommandError::InvalidFormat(f)) if f == "xml"
    ));
    // Otherwise the arranged files in the chosen layout.
    match cmd("size", true, Some("notes"), "csv", false).listing(sample()) {
        Ok(Listing::Show(ListFormat::Csv, files)) => {
            assert_eq!(names(&files), vec!["notes.txt", "notes-old.txt"]);
        }
        _ => panic!("expected a CSV listing"),
    }
}

#[test]
fn long_table_shows_local_upload_minutes() {
    // 1_700_000_000 is 2023-11-14 22:13:20 UTC; any local offset keeps the
    // date within a day of it.
    let files = vec![file("a.txt", 1, "0123456789abcdef", 1_700_000_000, 1)];
    let lines = cmd("name", false, None, "table", true).table_lines(&files);
    let row = &lines[2];
    let time = &row[12 + 1 + 10 + 1 + 8 + 1 + 8 + 1..][..20];
    assert!(time.starts_with("2023-11-14 ") || time.starts_with("2023-11-15 "), "{:?}", time);
    assert_eq!(time.trim_end().len(), 16);
}
