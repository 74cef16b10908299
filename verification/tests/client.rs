use zephyrfs_cli::client::{check_status, node_url, ClientError, DownloadRequest, Endpoints, Route, UploadRequest};
use zephyrfs_cli::config::Config;

#[test]
fn node_url_uses_listen_port() {
    assert_eq!(node_url(8080), "http://127.0.0.1:8080");
    assert_eq!(node_url(0), "http://127.0.0.1:0");
    let mut c = Config::defaults_with_home(None);
    c.node.listen_port = 9123;
    let e = Endpoints::from_config(&c);
    assert_eq!(e.node_url, "http://127.0.0.1:9123");
    assert_eq!(e.coordinator_url, "http://127.0.0.1:9000");
    assert_eq!(e.url(Route::Status), "http://127.0.0.1:9123/api/status");
    assert_eq!(e.url(Route::Files), "http://127.0.0.1:9123/api/files");
    assert_eq!(e.url(Route::Upload), "http://127.0.0.1:9123/api/upload");
    assert_eq!(e.url(Route::Download), "http://127.0.0.1:9123/api/download");
    assert_eq!(e.url(Route::Join), "http://127.0.0.1:9123/api/network/join");
    assert_eq!(e.url(Route::Init), "http://127.0.0.1:9123/api/node/init");
}

#[test]
fn only_2xx_answers_are_accepted() {
    assert_eq!(check_status(200), Ok(()));
    assert_eq!(check_status(204), Ok(()));
    assert_eq!(check_status(299), Ok(()));
    assert_eq!(check_status(199), Err(ClientError::Status(199)));
    assert_eq!(check_status(300), Err(ClientError::Status(300)));
    assert_eq!(check_status(404), Err(ClientError::Status(404)));
    assert_eq!(check_status(500), Err(ClientError::Status(500)));
}

#[test]
fn upload_request_takes_the_file_name() {
    let r = UploadRequest::for_file("/data/docs/report.pdf", 1234, None).unwrap();
    assert_eq!(r.file_path, "/data/docs/report.pdf");
    assert_eq!(r.file_name, "report.pdf");
    assert_eq!(r.file_size, 1234);
    let named = UploadRequest::for_file("/data/docs/report.pdf", 1234, Some("q3.pdf")).unwrap();
    assert_eq!(named.file_name, "q3.pdf");
    assert_eq!(named.file_path, "/data/docs/report.pdf");
    assert!(matches!(UploadRequest::for_file("/data/..", 1, None), Err(ClientError::InvalidFileName)));
    assert!(matches!(UploadRequest::for_file("/", 1, None), Err(ClientError::InvalidFileName)));
    assert_eq!(UploadRequest::for_file("/", 1, Some("root")).unwrap().file_name, "root");
    let d = DownloadRequest::new("abc123", "out.txt");
    assert_eq!(d.file_hash, "abc123");
    assert_eq!(d.output_path, "out.txt");
}
