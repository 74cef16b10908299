//! What the client exchanges with the local node: the records it receives,
//! the requests it sends, the URLs it sends them to and how it judges the
//! node's answer.

use vstd::prelude::*;
use crate::config::Config;
use crate::text::{decimal, decimal_string};
use crate::paths::{file_name, path_file_name};

verus! {

/// An instant as seconds and nanoseconds since the Unix epoch (UTC).
#[derive(PartialEq, Eq, Structural, Clone, Copy, Debug)]
pub struct Timestamp {
    pub secs: i64,
    pub nanos: u32,
}

/// A file stored in the network, as the node lists it.
#[derive(Clone, Debug)]
pub struct FileInfo {
    pub name: String,
    pub size: u64,
    pub hash: String,
    pub uploaded_at: Timestamp,
    pub chunks: usize,
    pub replicas: usize,
}

/// The node's own report of its state.  The storage gauges, which the node
/// reports as floating-point numbers, are not part of this record.
#[derive(Clone, Debug)]
pub struct NodeInfo {
    pub id: String,
    pub name: String,
    pub status: String,
    pub peers_connected: usize,
    pub uptime_seconds: u64,
}

/// Body of an upload request.
#[derive(Clone, Debug)]
pub struct UploadRequest {
    pub file_path: String,
    pub file_name: String,
    pub file_size: u64,
}

/// The node's answer to an upload.
#[derive(Clone, Debug)]
pub struct UploadResponse {
    pub success: bool,
    pub file_hash: String,
    pub chunks_uploaded: usize,
}

/// Body of a download request.
#[derive(Clone, Debug)]
pub struct DownloadRequest {
    pub file_hash: String,
    pub output_path: String,
}

/// Why a request to the node failed on the client's side.
#[derive(PartialEq, Eq, Structural, Clone, Copy, Debug)]
pub enum ClientError {
    /// The path to upload has no usable file name.
    InvalidFileName,
    /// The node answered with a status code outside 200..=299.
    Status(u16),
}

/// `StatusCode::is_success`: the status code is in the 2xx range.
pub open spec fn is_success(code: u16) -> bool {
    200 <= code <= 299
}

/// The node's HTTP API, served on the local machine at the listen port.
pub open spec fn node_url_of(port: u16) -> Seq<char> {
    "http://127.0.0.1:"@ + decimal(port as nat)
}

/// The routes of the node's API.
#[derive(PartialEq, Eq, Structural, Clone, Copy, Debug)]
pub enum Route {
    Status,
    Files,
    Upload,
    Download,
    Join,
    Init,
}

/// The path of a route under the node's base URL.
pub open spec fn route_path(r: Route) -> Seq<char> {
    match r {
        Route::Status => "/api/status"@,
        Route::Files => "/api/files"@,
        Route::Upload => "/api/upload"@,
        Route::Download => "/api/download"@,
        Route::Join => "/api/network/join"@,
        Route::Init => "/api/node/init"@,
    }
}

/// The base URLs the client talks to.
#[derive(Clone, Debug)]
pub struct Endpoints {
    pub coordinator_url: String,
    pub node_url: String,
}

impl Endpoints {
    /// The coordinator endpoint of the configuration and the local node
    /// at the configured listen port.
    pub fn from_config(config: &Config) -> (r: Endpoints)
        ensures
            r.coordinator_url@ == config.coordinator.endpoint@,
            r.node_url@ == node_url_of(config.node.listen_port),
    {
        Endpoints {
            coordinator_url: config.coordinator.endpoint.clone(),
            node_url: node_url(config.node.listen_port),
        }
    }

    /// The full URL of a route of the node's API.
    pub fn url(&self, route: Route) -> (r: String)
        ensures
            r@ == self.node_url@ + route_path(route),
    {
        let mut r = self.node_url.clone();
        let path = match route {
            Route::Status => "/api/status",
            Route::Files => "/api/files",
            Route::Upload => "/api/upload",
            Route::Download => "/api/download",
            Route::Join => "/api/network/join",
            Route::Init => "/api/node/init",
        };
        r.append(path);
        r
    }
}

/// The URL of the node listening on `port` of the local machine.
pub fn node_url(port: u16) -> (r: String)
    ensures
        r@ == node_url_of(port),
{
    let mut r = String::from_str("http://127.0.0.1:");
    let digits = decimal_string(port as u64);
    r.append(digits.as_str());
    r
}

/// Accepts an answer of the node with a 2xx status code and turns any other
/// into an error carrying the code.
pub fn check_status(code: u16) -> (r: Result<(), ClientError>)
    ensures
        is_success(code) <==> r is Ok,
        !is_success(code) ==> r == Err::<(), ClientError>(ClientError::Status(code)),
{
    if 200 <= code && code <= 299 {
        Ok(())
    } else {
        Err(ClientError::Status(code))
    }
}

impl UploadRequest {
    /// The request that uploads the file at `file_path` of `file_size`
    /// bytes under the name `name`, or under the path's own file name when
    /// no name is given; it fails when no name is given and the path has no
    /// file name.
    pub fn for_file(file_path: &str, file_size: u64, name: Option<&str>) -> (r: Result<
        UploadRequest,
        ClientError,
    >)
        ensures
            (name is None && file_name(file_path@) is None) <==> r is Err,
            r is Err ==> r == Err::<UploadRequest, ClientError>(ClientError::InvalidFileName),
            match r {
                Ok(req) => {
                    &&& req.file_path@ == file_path@
                    &&& req.file_size == file_size
                    &&& match name {
                        Some(n) => req.file_name@ == n@,
                        None => Some(req.file_name@) == file_name(file_path@),
                    }
                },
                Err(_) => true,
            },
    {
        let chosen = match name {
            Some(n) => String::from_str(n),
            None => match path_file_name(file_path) {
                Some(f) => f,
                None => return Err(ClientError::InvalidFileName),
            },
        };
        Ok(UploadRequest { file_path: String::from_str(file_path), file_name: chosen, file_size })
    }
}

impl DownloadRequest {
    /// The request that downloads the file with hash `file_hash` to
    /// `output_path`.
    pub fn new(file_hash: &str, output_path: &str) -> (r: DownloadRequest)
        ensures
            r.file_hash@ == file_hash@,
            r.output_path@ == output_path@,
    {
        DownloadRequest {
            file_hash: String::from_str(file_hash),
            output_path: String::from_str(output_path),
        }
    }
}

} // verus!
