//! `status`: how the node's state is shown.

use vstd::prelude::*;
use crate::client::NodeInfo;
use crate::commands::{CommandError, labelled, push_line};
use crate::config::{Config, CoordinatorConfig, strings_view};
use crate::display::{lowercase, to_lowercase, path_debug_text, path_debug};
use crate::text::{decimal, decimal_string, repeat_char, repeat_string, str_eq};

verus! {

/// Options of the `status` command.
#[derive(Clone, Debug)]
pub struct StatusCommand {
    /// Show detailed status information.
    pub detailed: bool,
    /// Output format (table, json).
    pub format: String,
    /// Refresh interval in seconds (0 for single check).
    pub watch: u64,
}

/// A layout of the status report.
#[derive(PartialEq, Eq, Structural, Clone, Copy, Debug)]
pub enum StatusFormat {
    Table,
    Json,
}

/// The layout named by `s`, if it is one of the two.
pub open spec fn status_format_of(s: Seq<char>) -> Option<StatusFormat> {
    if s == "table"@ {
        Some(StatusFormat::Table)
    } else if s == "json"@ {
        Some(StatusFormat::Json)
    } else {
        None
    }
}

/// The label of a node state, given the state lower-cased and as reported.
pub open spec fn status_label(lowered: Seq<char>, status: Seq<char>) -> Seq<char> {
    if lowered == "running"@ {
        "🟢 Running"@
    } else if lowered == "starting"@ {
        "🟡 Starting"@
    } else if lowered == "stopping"@ {
        "🟡 Stopping"@
    } else if lowered == "stopped"@ {
        "🔴 Stopped"@
    } else if lowered == "error"@ {
        "❌ Error"@
    } else {
        "❓ "@ + status
    }
}

/// A duration of `secs` seconds in its two largest units: `42s`, `2m 5s`,
/// `3h 12m` or `4d 7h`.
pub open spec fn duration_text(secs: nat) -> Seq<char> {
    if secs < 60 {
        decimal(secs) + "s"@
    } else if secs < 3600 {
        decimal(secs / 60) + "m "@ + decimal(secs % 60) + "s"@
    } else if secs < 86400 {
        decimal(secs / 3600) + "h "@ + decimal((secs % 3600) / 60) + "m"@
    } else {
        decimal(secs / 86400) + "d "@ + decimal((secs % 86400) / 3600) + "h"@
    }
}

/// The lines of the status table, given the lines of its storage section
/// (which the caller computes from the node's floating-point gauges).
pub open spec fn status_table_view(
    detailed: bool,
    info: NodeInfo,
    config: Config,
    storage: Seq<Seq<char>>,
) -> Seq<Seq<char>> {
    seq![
        "ZephyrFS Node Status"@,
        repeat_char('=', 50),
        ""@,
        "Node Information:"@,
        "  ID: "@ + info.id@,
        "  Name: "@ + info.name@,
        "  Status: "@ + status_label(lowercase(info.status@), info.status@),
        ""@,
        "Network:"@,
        "  Connected peers: "@ + decimal(info.peers_connected as nat),
        "  Listen port: "@ + decimal(config.node.listen_port as nat),
        "  Coordinator: "@ + config.coordinator.endpoint@,
        ""@,
        "Storage:"@,
    ] + storage + seq![
        "  Max allocation: "@ + decimal(config.storage.max_storage_gb as nat) + " GB"@,
        ""@,
        "Runtime:"@,
        "  Uptime: "@ + duration_text(info.uptime_seconds as nat),
        "  Data directory: "@ + path_debug(config.node.data_dir@),
    ] + if detailed {
        seq![
            ""@,
            "Configuration:"@,
            "  Chunk size: "@ + decimal(config.storage.chunk_size_mb as nat) + " MB"@,
            "  Replication factor: "@ + decimal(config.storage.replication_factor as nat),
            "  Max connections: "@ + decimal(config.network.max_connections as nat),
            "  Connection timeout: "@ + decimal(config.network.connection_timeout as nat) + "s"@,
        ]
    } else {
        Seq::empty()
    }
}

fn concat3(a: &str, b: &str, c: &str) -> (r: String)
    ensures
        r@ == a@ + b@ + c@,
{
    let mut r = String::from_str(a);
    r.append(b);
    r.append(c);
    r
}

fn push_lines(out: &mut Vec<String>, more: &Vec<String>)
    ensures
        strings_view(final(out)@) == strings_view(old(out)@) + strings_view(more@),
{
    let ghost start = strings_view(out@);
    let n = more.len();
    let mut k: usize = 0;
    while k < n
        invariant
            n == more@.len(),
            k <= n,
            strings_view(out@) == start + strings_view(more@).take(k as int),
        decreases n - k,
    {
        let ghost before = strings_view(out@);
        out.push(more[k].clone());
        k = k + 1;
        assert(strings_view(out@) =~= before.push(more@[k - 1]@));
        assert(strings_view(out@) =~= start + strings_view(more@).take(k as int));
    }
    assert(strings_view(more@).take(n as int) =~= strings_view(more@));
}

impl StatusCommand {
    /// The layout to print in, or an error naming the unknown format.
    pub fn output_format(&self) -> (r: Result<StatusFormat, CommandError>)
        ensures
            match r {
                Ok(f) => status_format_of(self.format@) == Some(f),
                Err(e) => {
                    &&& status_format_of(self.format@) is None
                    &&& e matches CommandError::InvalidFormat(s) && s@ == self.format@
                },
            },
    {
        if str_eq(self.format.as_str(), "table") {
            Ok(StatusFormat::Table)
        } else if str_eq(self.format.as_str(), "json") {
            Ok(StatusFormat::Json)
        } else {
            Err(CommandError::InvalidFormat(self.format.clone()))
        }
    }

    /// How often to refresh the report: every `watch` seconds when it is
    /// positive, otherwise the report is shown once.
    pub fn refresh_interval(&self) -> (r: Option<u64>)
        ensures
            self.watch > 0 ==> r == Some(self.watch),
            self.watch == 0 ==> r is None,
    {
        if self.watch > 0 {
            Some(self.watch)
        } else {
            None
        }
    }

    /// The label of a node state, given the state already lower-cased.
    pub fn label_status(lowered: &str, status: &str) -> (r: String)
        ensures
            r@ == status_label(lowered@, status@),
    {
        if str_eq(lowered, "running") {
            String::from_str("🟢 Running")
        } else if str_eq(lowered, "starting") {
            String::from_str("🟡 Starting")
        } else if str_eq(lowered, "stopping") {
            String::from_str("🟡 Stopping")
        } else if str_eq(lowered, "stopped") {
            String::from_str("🔴 Stopped")
        } else if str_eq(lowered, "error") {
            String::from_str("❌ Error")
        } else {
            labelled("❓ ", status)
        }
    }

    /// The label of the node state `status`, matched without regard to case.
    pub fn format_status(&self, status: &str) -> (r: String)
        ensures
            r@ == status_label(lowercase(status@), status@),
    {
        let lowered = to_lowercase(status);
        Self::label_status(lowered.as_str(), status)
    }

    /// An uptime of `secs` whole seconds in its two largest units.
    pub fn format_duration(&self, secs: u64) -> (r: String)
        ensures
            r@ == duration_text(secs as nat),
    {
        if secs < 60 {
            let n = decimal_string(secs);
            labelled(n.as_str(), "s")
        } else if secs < 3600 {
            let m = decimal_string(secs / 60);
            let s = decimal_string(secs % 60);
            let mut r = concat3(m.as_str(), "m ", s.as_str());
            r.append("s");
            r
        } else if secs < 86400 {
            let h = decimal_string(secs / 3600);
            let m = decimal_string((secs % 3600) / 60);
            let mut r = concat3(h.as_str(), "h ", m.as_str());
            r.append("m");
            r
        } else {
            let d = decimal_string(secs / 86400);
            let h = decimal_string((secs % 86400) / 3600);
            let mut r = concat3(d.as_str(), "d ", h.as_str());
            r.append("h");
            r
        }
    }

    /// The lines of the status table, given the lines of its storage section.
    pub fn table_lines(&self, info: &NodeInfo, config: &Config, storage: &Vec<String>) -> (r: Vec<
        String,
    >)
        ensures
            strings_view(r@) == status_table_view(self.detailed, *info, *config, strings_view(storage@)),
    {
        let mut r: Vec<String> = Vec::new();
        push_line(&mut r, String::from_str("ZephyrFS Node Status"));
        proof {
            reveal_strlit("=");
        }
        push_line(&mut r, repeat_string("=", 50));
        push_line(&mut r, String::new());
        push_line(&mut r, String::from_str("Node Information:"));
        push_line(&mut r, labelled("  ID: ", info.id.as_str()));
        push_line(&mut r, labelled("  Name: ", info.name.as_str()));
        let label = self.format_status(info.status.as_str());
        push_line(&mut r, labelled("  Status: ", label.as_str()));
        push_line(&mut r, String::new());
        push_line(&mut r, String::from_str("Network:"));
        let peers = decimal_string(info.peers_connected as u64);
        push_line(&mut r, labelled("  Connected peers: ", peers.as_str()));
        let port = decimal_string(config.node.listen_port as u64);
        push_line(&mut r, labelled("  Listen port: ", port.as_str()));
        push_line(&mut r, labelled("  Coordinator: ", config.coordinator.endpoint.as_str()));
        push_line(&mut r, String::new());
        push_line(&mut r, String::from_str("Storage:"));
        let ghost head = strings_view(r@);
        push_lines(&mut r, storage);
        let ghost with_storage = strings_view(r@);
        let max = decimal_string(config.storage.max_storage_gb);
        push_line(&mut r, concat3("  Max allocation: ", max.as_str(), " GB"));
        push_line(&mut r, String::new());
        push_line(&mut r, String::from_str("Runtime:"));
        let uptime = self.format_duration(info.uptime_seconds);
        push_line(&mut r, labelled("  Uptime: ", uptime.as_str()));
        let dir = path_debug_text(config.node.data_dir.as_str());
        push_line(&mut r, labelled("  Data directory: ", dir.as_str()));
        let ghost with_runtime = strings_view(r@);
        if self.detailed {
            push_line(&mut r, String::new());
            push_line(&mut r, String::from_str("Configuration:"));
            let chunk = decimal_string(config.storage.chunk_size_mb as u64);
            push_line(&mut r, concat3("  Chunk size: ", chunk.as_str(), " MB"));
            let repl = decimal_string(config.storage.replication_factor as u64);
            push_line(&mut r, labelled("  Replication factor: ", repl.as_str()));
            let conns = decimal_string(config.network.max_connections as u64);
            push_line(&mut r, labelled("  Max connections: ", conns.as_str()));
            let timeout = decimal_string(config.network.connection_timeout);
            push_line(&mut r, concat3("  Connection timeout: ", timeout.as_str(), "s"));
        }
        proof {
            reveal_strlit("");
            assert(head.len() == 14);
            assert(head[0] == "ZephyrFS Node Status"@);
            assert(head[1] == repeat_char('=', 50));
            assert(head[2] == ""@);
            assert(head[4] == "  ID: "@ + info.id@);
            assert(head[6] == "  Status: "@ + status_label(lowercase(info.status@), info.status@));
            assert(head[9] == "  Connected peers: "@ + decimal(info.peers_connected as nat));
            let v = status_table_view(self.detailed, *info, *config, strings_view(storage@));
            assert(head =~= seq![
                "ZephyrFS Node Status"@,
                repeat_char('=', 50),
                ""@,
                "Node Information:"@,
                "  ID: "@ + info.id@,
                "  Name: "@ + info.name@,
                "  Status: "@ + status_label(lowercase(info.status@), info.status@),
                ""@,
                "Network:"@,
                "  Connected peers: "@ + decimal(info.peers_connected as nat),
                "  Listen port: "@ + decimal(config.node.listen_port as nat),
                "  Coordinator: "@ + config.coordinator.endpoint@,
                ""@,
                "Storage:"@,
            ]);
            assert(strings_view(r@) =~= v);
        }
        r
    }
}

/// The detailed report adds six lines of configuration and ends with the
/// network's connection timeout in seconds; the coordinator's request
/// timeout is not part of the report, so changing it changes nothing shown.
pub proof fn lemma_detailed_report_shows_connection_timeout(
    info: NodeInfo,
    config: Config,
    storage: Seq<Seq<char>>,
    other_timeout: u64,
)
    ensures
        status_table_view(true, info, config, storage).len() == status_table_view(
            false,
            info,
            config,
            storage,
        ).len() + 6,
        status_table_view(true, info, config, storage).last() == "  Connection timeout: "@
            + decimal(config.network.connection_timeout as nat) + "s"@,
        ({
            let v = status_table_view(true, info, config, storage);
            &&& v[v.len() - 4] == "  Chunk size: "@ + decimal(config.storage.chunk_size_mb as nat) + " MB"@
            &&& v[v.len() - 3] == "  Replication factor: "@ + decimal(
                config.storage.replication_factor as nat,
            )
            &&& v[v.len() - 2] == "  Max connections: "@ + decimal(config.network.max_connections as nat)
        }),
        forall|detailed: bool|
            #[trigger] status_table_view(
                detailed,
                info,
                Config {
                    coordinator: CoordinatorConfig { timeout: other_timeout, ..config.coordinator },
                    ..config
                },
                storage,
            ) == status_table_view(detailed, info, config, storage),
{
}

} // verus!
