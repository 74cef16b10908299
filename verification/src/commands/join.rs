//! `join`: what is reported once the node has joined the network.

use vstd::prelude::*;
use crate::client::NodeInfo;
use crate::commands::{labelled, push_line};
use crate::config::{Config, ConfigView, CoordinatorView, strings_view};
use crate::text::{decimal, decimal_string};

verus! {

/// Options of the `join` command.
#[derive(Clone, Debug)]
pub struct JoinCommand {
    /// Bootstrap peer address (host:port).
    pub bootstrap_peer: String,
    /// Timeout in seconds.
    pub timeout: u64,
    /// Skip connectivity test.
    pub skip_test: bool,
}

/// The report after joining, warning when no peer is connected yet.
pub open spec fn join_report(peer: Seq<char>, info: NodeInfo) -> Seq<Seq<char>> {
    seq![
        "✓ Successfully joined ZephyrFS network!"@,
        "  Bootstrap peer: "@ + peer,
        "  Connected peers: "@ + decimal(info.peers_connected as nat),
        "  Node status: "@ + info.status@,
    ] + if info.peers_connected == 0 {
        seq!["\n⚠  Warning: No peers connected yet. This might be expected for a new network."@]
    } else {
        Seq::empty()
    }
}

impl JoinCommand {
    /// How long each request of the join may take, in seconds: the
    /// `--timeout` given on the command line.
    pub fn request_timeout(&self) -> (r: u64)
        ensures
            r == self.timeout,
    {
        self.timeout
    }

    /// The configuration the join's requests are made with: `config` with
    /// the request timeout of the command and every other setting as it was.
    pub fn join_config(&self, config: Config) -> (r: Config)
        ensures
            r@ == (ConfigView {
                coordinator: CoordinatorView { timeout: self.timeout, ..config@.coordinator },
                ..config@
            }),
    {
        let mut r = config;
        r.coordinator.timeout = self.request_timeout();
        r
    }

    /// The lines reported once the node has joined through the bootstrap peer.
    pub fn report_lines(&self, info: &NodeInfo) -> (r: Vec<String>)
        ensures
            strings_view(r@) == join_report(self.bootstrap_peer@, *info),
    {
        let mut r: Vec<String> = Vec::new();
        push_line(&mut r, String::from_str("✓ Successfully joined ZephyrFS network!"));
        push_line(&mut r, labelled("  Bootstrap peer: ", self.bootstrap_peer.as_str()));
        let peers = decimal_string(info.peers_connected as u64);
        push_line(&mut r, labelled("  Connected peers: ", peers.as_str()));
        push_line(&mut r, labelled("  Node status: ", info.status.as_str()));
        if info.peers_connected == 0 {
            push_line(
                &mut r,
                String::from_str(
                    "\n⚠  Warning: No peers connected yet. This might be expected for a new network.",
                ),
            );
        }
        assert(strings_view(r@) =~= join_report(self.bootstrap_peer@, *info));
        r
    }
}

} // verus!
