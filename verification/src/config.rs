//! Node configuration: its sections, its defaults, where the configuration
//! file lives and which format it is read and written in.

use vstd::prelude::*;
use crate::paths::{join, extension, path_join, path_extension};
use crate::text::str_eq;

verus! {

/// Identity and local settings of the node.
#[derive(Clone, Debug)]
pub struct NodeConfig {
    pub id: Option<String>,
    pub name: Option<String>,
    pub data_dir: String,
    pub listen_port: u16,
}

/// Peer-to-peer network settings.
#[derive(Clone, Debug)]
pub struct NetworkConfig {
    pub bootstrap_peers: Vec<String>,
    pub max_connections: usize,
    pub connection_timeout: u64,
}

/// Local storage allocation.
#[derive(Clone, Debug)]
pub struct StorageConfig {
    pub max_storage_gb: u64,
    pub chunk_size_mb: u32,
    pub replication_factor: u32,
}

/// How to reach the coordinator service.
#[derive(Clone, Debug)]
pub struct CoordinatorConfig {
    pub endpoint: String,
    pub timeout: u64,
    pub retry_attempts: u32,
}

/// The whole configuration of a node.
#[derive(Clone, Debug)]
pub struct Config {
    pub node: NodeConfig,
    pub network: NetworkConfig,
    pub storage: StorageConfig,
    pub coordinator: CoordinatorConfig,
}

/// The characters of an optional string.
pub open spec fn opt_view(o: Option<String>) -> Option<Seq<char>> {
    match o {
        Some(s) => Some(s@),
        None => None,
    }
}

/// The characters of each string of a list.
pub open spec fn strings_view(v: Seq<String>) -> Seq<Seq<char>> {
    v.map_values(|s: String| s@)
}

/// Mathematical value of `NodeConfig`.
pub struct NodeView {
    pub id: Option<Seq<char>>,
    pub name: Option<Seq<char>>,
    pub data_dir: Seq<char>,
    pub listen_port: u16,
}

/// Mathematical value of `NetworkConfig`.
pub struct NetworkView {
    pub bootstrap_peers: Seq<Seq<char>>,
    pub max_connections: usize,
    pub connection_timeout: u64,
}

/// Mathematical value of `CoordinatorConfig`.
pub struct CoordinatorView {
    pub endpoint: Seq<char>,
    pub timeout: u64,
    pub retry_attempts: u32,
}

/// Mathematical value of `Config`.
pub struct ConfigView {
    pub node: NodeView,
    pub network: NetworkView,
    pub storage: (u64, u32, u32),
    pub coordinator: CoordinatorView,
}

impl View for Config {
    type V = ConfigView;

    open spec fn view(&self) -> ConfigView {
        ConfigView {
            node: NodeView {
                id: opt_view(self.node.id),
                name: opt_view(self.node.name),
                data_dir: self.node.data_dir@,
                listen_port: self.node.listen_port,
            },
            network: NetworkView {
                bootstrap_peers: strings_view(self.network.bootstrap_peers@),
                max_connections: self.network.max_connections,
                connection_timeout: self.network.connection_timeout,
            },
            storage: (
                self.storage.max_storage_gb,
                self.storage.chunk_size_mb,
                self.storage.replication_factor,
            ),
            coordinator: CoordinatorView {
                endpoint: self.coordinator.endpoint@,
                timeout: self.coordinator.timeout,
                retry_attempts: self.coordinator.retry_attempts,
            },
        }
    }
}

/// The directory that holds the node's data by default: `.zephyrfs` under
/// the home directory, or under the current directory when there is no home.
pub open spec fn default_data_dir(home: Option<Seq<char>>) -> Seq<char> {
    match home {
        Some(h) => join(h, ".zephyrfs"@),
        None => join("."@, ".zephyrfs"@),
    }
}

/// The default configuration, given the user's home directory.
pub open spec fn default_config(home: Option<Seq<char>>) -> ConfigView {
    ConfigView {
        node: NodeView {
            id: None,
            name: None,
            data_dir: default_data_dir(home),
            listen_port: 8080,
        },
        network: NetworkView {
            bootstrap_peers: seq!["127.0.0.1:8081"@, "127.0.0.1:8082"@],
            max_connections: 50,
            connection_timeout: 30,
        },
        storage: (10, 1, 3),
        coordinator: CoordinatorView {
            endpoint: "http://127.0.0.1:9000"@,
            timeout: 30,
            retry_attempts: 3,
        },
    }
}

/// Format of a configuration file.
#[derive(PartialEq, Eq, Structural, Clone, Copy, Debug)]
pub enum ConfigFormat {
    Yaml,
    Toml,
}

/// What loading a configuration file comes down to.
#[derive(PartialEq, Eq, Structural, Clone, Copy, Debug)]
pub enum LoadPlan {
    /// There is no file: the defaults apply.
    Defaults,
    /// The file is parsed in the given format.
    Parse(ConfigFormat),
}

/// Errors in locating the configuration.
#[derive(PartialEq, Eq, Structural, Clone, Copy, Debug)]
pub enum ConfigError {
    /// Neither a configuration directory nor a home directory is known.
    NoConfigDir,
}

/// The format a configuration file is read and written in: TOML when its
/// extension is `toml`, YAML otherwise.
pub open spec fn format_of(path: Seq<char>) -> ConfigFormat {
    if extension(path) == Some("toml"@) { ConfigFormat::Toml } else { ConfigFormat::Yaml }
}

/// Where the configuration file lives by default: `zephyrfs/config.yaml`
/// under the configuration directory.  That directory is the platform's
/// configuration directory, or `.config` in the home directory when the
/// platform gives none.  Where the platform's directory is not the one the
/// documentation names (`~/.config` on macOS, `home_config`), `.config` in the
/// home directory is preferred, and the platform's directory is used only
/// when there is no home directory.
pub open spec fn default_config_path_from(
    config_dir: Option<Seq<char>>,
    home_dir: Option<Seq<char>>,
    home_config: bool,
) -> Result<Seq<char>, ConfigError> {
    let under_home = match home_dir {
        Some(h) => Some(join(h, ".config"@)),
        None => None,
    };
    let dir = if home_config {
        match under_home {
            Some(d) => Some(d),
            None => config_dir,
        }
    } else {
        match config_dir {
            Some(d) => Some(d),
            None => under_home,
        }
    };
    match dir {
        Some(d) => Ok(join(join(d, "zephyrfs"@), "config.yaml"@)),
        None => Err(ConfigError::NoConfigDir),
    }
}

/// The user's home directory, from `dirs::home_dir`; it depends on the
/// environment, so nothing is stated of it.  The library holds paths as
/// Unicode text, so a home directory that is not valid UTF-8 is reported as
/// unknown (`None`) rather than altered.
#[verifier::external_body]
fn home_dir() -> (r: Option<String>) {
    dirs::home_dir().and_then(|p| p.into_os_string().into_string().ok())
}

/// The platform's configuration directory, from `dirs::config_dir`; it
/// depends on the environment, so nothing is stated of it.  The library
/// holds paths as Unicode text, so a directory that is not valid UTF-8 is
/// reported as unknown (`None`) rather than altered.
#[verifier::external_body]
fn config_dir() -> (r: Option<String>) {
    dirs::config_dir().and_then(|p| p.into_os_string().into_string().ok())
}

impl Config {
    /// The default configuration for a user whose home directory is `home`.
    pub fn defaults_with_home(home: Option<String>) -> (r: Config)
        ensures
            r@ == default_config(opt_view(home)),
    {
        let data_dir = match home {
            Some(h) => path_join(h.as_str(), ".zephyrfs"),
            None => path_join(".", ".zephyrfs"),
        };
        let mut peers: Vec<String> = Vec::new();
        peers.push(String::from_str("127.0.0.1:8081"));
        peers.push(String::from_str("127.0.0.1:8082"));
        let r = Config {
            node: NodeConfig { id: None, name: None, data_dir, listen_port: 8080 },
            network: NetworkConfig {
                bootstrap_peers: peers,
                max_connections: 50,
                connection_timeout: 30,
            },
            storage: StorageConfig { max_storage_gb: 10, chunk_size_mb: 1, replication_factor: 3 },
            coordinator: CoordinatorConfig {
                endpoint: String::from_str("http://127.0.0.1:9000"),
                timeout: 30,
                retry_attempts: 3,
            },
        };
        assert(r@.network.bootstrap_peers =~= seq!["127.0.0.1:8081"@, "127.0.0.1:8082"@]);
        r
    }

    /// Where the configuration file lives when no path is given, from the
    /// configuration and home directories of the platform; `home_config`
    /// tells that `.config` in the home directory is preferred (macOS).
    pub fn default_config_path_with(
        config_dir: Option<String>,
        home_dir: Option<String>,
        home_config: bool,
    ) -> (r: Result<String, ConfigError>)
        ensures
            match r {
                Ok(p) => default_config_path_from(opt_view(config_dir), opt_view(home_dir), home_config)
                    == Ok::<Seq<char>, ConfigError>(p@),
                Err(e) => default_config_path_from(opt_view(config_dir), opt_view(home_dir), home_config)
                    == Err::<Seq<char>, ConfigError>(e),
            },
    {
        let under_home = match home_dir {
            Some(h) => Some(path_join(h.as_str(), ".config")),
            None => None,
        };
        let dir = if home_config {
            match under_home {
                Some(d) => d,
                None => match config_dir {
                    Some(d) => d,
                    None => return Err(ConfigError::NoConfigDir),
                },
            }
        } else {
            match config_dir {
                Some(d) => d,
                None => match under_home {
                    Some(d) => d,
                    None => return Err(ConfigError::NoConfigDir),
                },
            }
        };
        let app_dir = path_join(dir.as_str(), "zephyrfs");
        Ok(path_join(app_dir.as_str(), "config.yaml"))
    }

    /// Where the configuration file lives when no path is given.  The result
    /// depends on the environment; it is whatever `default_config_path_with`
    /// makes of the directories that the platform reports.
    pub fn default_config_path(home_config: bool) -> (r: Result<String, ConfigError>)
        ensures
            exists|c: Option<Seq<char>>, h: Option<Seq<char>>|
                match r {
                    Ok(p) => #[trigger] default_config_path_from(c, h, home_config) == Ok::<
                        Seq<char>,
                        ConfigError,
                    >(p@),
                    Err(e) => default_config_path_from(c, h, home_config) == Err::<
                        Seq<char>,
                        ConfigError,
                    >(e),
                },
    {
        let c = config_dir();
        let h = home_dir();
        let ghost cv = opt_view(c);
        let ghost hv = opt_view(h);
        let r = Self::default_config_path_with(c, h, home_config);
        assert(match r {
            Ok(p) => default_config_path_from(cv, hv, home_config) == Ok::<Seq<char>, ConfigError>(p@),
            Err(e) => default_config_path_from(cv, hv, home_config) == Err::<Seq<char>, ConfigError>(e),
        });
        r
    }

    /// The path of the configuration file: the one given, or the default one.
    pub fn config_path(config_path: Option<&str>, home_config: bool) -> (r: Result<
        String,
        ConfigError,
    >)
        ensures
            config_path is Some ==> r is Ok && r->Ok_0@ == config_path->Some_0@,
            config_path is None ==> exists|c: Option<Seq<char>>, h: Option<Seq<char>>|
                match r {
                    Ok(p) => #[trigger] default_config_path_from(c, h, home_config) == Ok::<
                        Seq<char>,
                        ConfigError,
                    >(p@),
                    Err(e) => default_config_path_from(c, h, home_config) == Err::<
                        Seq<char>,
                        ConfigError,
                    >(e),
                },
    {
        match config_path {
            Some(p) => Ok(String::from_str(p)),
            None => Self::default_config_path(home_config),
        }
    }

    /// The format the file at `path` is read and written in.
    pub fn format_for(path: &str) -> (r: ConfigFormat)
        ensures
            r == format_of(path@),
    {
        match path_extension(path) {
            Some(e) => {
                if str_eq(e.as_str(), "toml") {
                    ConfigFormat::Toml
                } else {
                    ConfigFormat::Yaml
                }
            },
            None => ConfigFormat::Yaml,
        }
    }

    /// What loading the configuration at `path` does, given whether a file
    /// exists there: a missing file means the defaults, an existing one is
    /// parsed in the format its extension selects.
    pub fn load_plan(path: &str, present: bool) -> (r: LoadPlan)
        ensures
            !present ==> r == LoadPlan::Defaults,
            present ==> r == LoadPlan::Parse(format_of(path@)),
    {
        if !present {
            LoadPlan::Defaults
        } else {
            LoadPlan::Parse(Self::format_for(path))
        }
    }
}

impl Default for Config {
    /// The default configuration, with the data directory under the home
    /// directory that the environment reports.
    fn default() -> (r: Config)
        ensures
            exists|home: Option<Seq<char>>| r@ == #[trigger] default_config(home),
    {
        let h = home_dir();
        let ghost hv = opt_view(h);
        let r = Config::defaults_with_home(h);
        assert(r@ == default_config(hv));
        r
    }
}

} // verus!
