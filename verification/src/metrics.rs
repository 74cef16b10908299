//! Usage counters of the client: commands run, network requests, file
//! transfers and cache use.  The floating-point gauges (durations, averages,
//! memory and CPU use) are kept beside these counters by the caller.

use vstd::prelude::*;
use crate::text::str_eq;

verus! {

/// Counts of the commands run.
#[derive(Clone, Debug)]
pub struct CommandMetrics {
    pub total_commands: u64,
    /// How many times each command ran, one entry per command name.
    pub commands_by_type: Vec<(String, u64)>,
    pub failed_commands: u64,
    /// When the last command started (Unix seconds).
    pub last_command_time: Option<u64>,
}

/// Counts of the network requests made.
#[derive(Clone, Debug)]
pub struct NetworkMetrics {
    pub total_requests: u64,
    pub failed_requests: u64,
    pub timeouts: u64,
    pub bytes_uploaded: u64,
    pub bytes_downloaded: u64,
    pub peer_connections: u32,
}

/// Counts of file transfers and cache use.
#[derive(PartialEq, Eq, Structural, Clone, Copy, Debug)]
pub struct StorageMetrics {
    pub files_uploaded: u64,
    pub files_downloaded: u64,
    pub total_bytes_processed: u64,
    pub cache_hits: u64,
    pub cache_misses: u64,
    pub disk_operations: u64,
}

/// All the counters.
#[derive(Clone, Debug)]
pub struct Metrics {
    pub commands: CommandMetrics,
    pub network: NetworkMetrics,
    pub storage: StorageMetrics,
}

/// The per-command counts as (name, count) pairs.
pub open spec fn tally_view(v: Seq<(String, u64)>) -> Seq<(Seq<char>, u64)> {
    v.map_values(|e: (String, u64)| (e.0@, e.1))
}

/// The sum of the per-command counts.
pub open spec fn tally_sum(t: Seq<(Seq<char>, u64)>) -> nat
    decreases t.len(),
{
    if t.len() == 0 { 0 } else { tally_sum(t.drop_last()) + (t.last().1 as nat) }
}

/// No command name occurs twice.
pub open spec fn names_distinct(t: Seq<(Seq<char>, u64)>) -> bool {
    forall|i: int, j: int| 0 <= i < j < t.len() ==> (#[trigger] t[i]).0 != (#[trigger] t[j]).0
}

/// How many times the command `name` ran according to the tally.
pub open spec fn count_of(t: Seq<(Seq<char>, u64)>, name: Seq<char>) -> nat
    decreases t.len(),
{
    if t.len() == 0 {
        0
    } else {
        count_of(t.drop_last(), name) + if t.last().0 == name { t.last().1 as nat } else { 0 }
    }
}

/// Mathematical value of the counters.
pub struct MetricsView {
    pub total_commands: u64,
    pub tally: Seq<(Seq<char>, u64)>,
    pub failed_commands: u64,
    pub last_command_time: Option<u64>,
    pub total_requests: u64,
    pub failed_requests: u64,
    pub timeouts: u64,
    pub bytes_uploaded: u64,
    pub bytes_downloaded: u64,
    pub peer_connections: u32,
    pub storage: StorageMetrics,
}

impl View for Metrics {
    type V = MetricsView;

    open spec fn view(&self) -> MetricsView {
        MetricsView {
            total_commands: self.commands.total_commands,
            tally: tally_view(self.commands.commands_by_type@),
            failed_commands: self.commands.failed_commands,
            last_command_time: self.commands.last_command_time,
            total_requests: self.network.total_requests,
            failed_requests: self.network.failed_requests,
            timeouts: self.network.timeouts,
            bytes_uploaded: self.network.bytes_uploaded,
            bytes_downloaded: self.network.bytes_downloaded,
            peer_connections: self.network.peer_connections,
            storage: self.storage,
        }
    }
}

/// The counters of a fresh start: everything zero, no command run.
pub open spec fn zero_metrics() -> MetricsView {
    MetricsView {
        total_commands: 0,
        tally: Seq::empty(),
        failed_commands: 0,
        last_command_time: None,
        total_requests: 0,
        failed_requests: 0,
        timeouts: 0,
        bytes_uploaded: 0,
        bytes_downloaded: 0,
        peer_connections: 0,
        storage: StorageMetrics {
            files_uploaded: 0,
            files_downloaded: 0,
            total_bytes_processed: 0,
            cache_hits: 0,
            cache_misses: 0,
            disk_operations: 0,
        },
    }
}

/// The counters agree with one another: the command total is the sum of
/// the per-command counts, each command has one entry, and every file
/// transfer counts as one disk operation.
pub open spec fn consistent(m: MetricsView) -> bool {
    &&& m.total_commands == tally_sum(m.tally)
    &&& names_distinct(m.tally)
    &&& m.storage.disk_operations == m.storage.files_uploaded + m.storage.files_downloaded
}

/// A recorded network event: a request (whether it succeeded, how many
/// bytes it moved and in which direction) or a timeout.
pub enum NetworkEvent {
    Request { success: bool, bytes: u64, upload: bool },
    Timeout,
}

/// The counters after recording `e`, as `record_network_request` and
/// `record_timeout` leave them.
pub open spec fn after_network_event(m: MetricsView, e: NetworkEvent) -> MetricsView {
    match e {
        NetworkEvent::Request { success, bytes, upload } => MetricsView {
            total_requests: (m.total_requests + 1) as u64,
            failed_requests: if success { m.failed_requests } else { (m.failed_requests + 1) as u64 },
            bytes_uploaded: if upload { (m.bytes_uploaded + bytes) as u64 } else { m.bytes_uploaded },
            bytes_downloaded: if upload { m.bytes_downloaded } else { (m.bytes_downloaded + bytes) as u64 },
            ..m
        },
        NetworkEvent::Timeout => MetricsView {
            timeouts: (m.timeouts + 1) as u64,
            failed_requests: (m.failed_requests + 1) as u64,
            ..m
        },
    }
}

/// The counters after recording the events of `h` in order, starting from `m`.
pub open spec fn after_network_events(m: MetricsView, h: Seq<NetworkEvent>) -> MetricsView
    decreases h.len(),
{
    if h.len() == 0 {
        m
    } else {
        after_network_event(after_network_events(m, h.drop_last()), h.last())
    }
}

/// How many requests `h` records.
pub open spec fn requests_in(h: Seq<NetworkEvent>) -> nat
    decreases h.len(),
{
    if h.len() == 0 { 0 } else { requests_in(h.drop_last()) + if h.last() is Request { 1nat } else { 0 } }
}

/// How many failed requests `h` records.
pub open spec fn failures_in(h: Seq<NetworkEvent>) -> nat
    decreases h.len(),
{
    if h.len() == 0 {
        0
    } else {
        failures_in(h.drop_last()) + if h.last() matches NetworkEvent::Request { success: false, .. } { 1nat } else { 0 }
    }
}

/// How many timeouts `h` records.
pub open spec fn timeouts_in(h: Seq<NetworkEvent>) -> nat
    decreases h.len(),
{
    if h.len() == 0 { 0 } else { timeouts_in(h.drop_last()) + if h.last() is Timeout { 1nat } else { 0 } }
}

/// The bytes that the requests of `h` moved in the direction `upload`.
pub open spec fn bytes_in(h: Seq<NetworkEvent>, upload: bool) -> nat
    decreases h.len(),
{
    if h.len() == 0 {
        0
    } else {
        bytes_in(h.drop_last(), upload) + match h.last() {
            NetworkEvent::Request { bytes, upload: u, .. } => if u == upload { bytes as nat } else { 0 },
            NetworkEvent::Timeout => 0,
        }
    }
}

/// Since a fresh start or a reset, the network counters count the recorded
/// events: total requests is the number of requests, failed requests is the
/// unsuccessful requests plus the timeouts, timeouts is the number of
/// timeouts, each byte counter is the sum of the bytes moved in its
/// direction, and no other counter moves.  (The counts must fit in a `u64`,
/// which the recording calls require.)
pub proof fn lemma_network_history(h: Seq<NetworkEvent>)
    requires
        requests_in(h) <= u64::MAX,
        failures_in(h) + timeouts_in(h) <= u64::MAX,
        bytes_in(h, true) <= u64::MAX,
        bytes_in(h, false) <= u64::MAX,
    ensures
        after_network_events(zero_metrics(), h).total_requests == requests_in(h),
        after_network_events(zero_metrics(), h).failed_requests == failures_in(h) + timeouts_in(h),
        after_network_events(zero_metrics(), h).timeouts == timeouts_in(h),
        after_network_events(zero_metrics(), h).bytes_uploaded == bytes_in(h, true),
        after_network_events(zero_metrics(), h).bytes_downloaded == bytes_in(h, false),
        after_network_events(zero_metrics(), h).total_commands == 0,
        after_network_events(zero_metrics(), h).storage == zero_metrics().storage,
        consistent(after_network_events(zero_metrics(), h)),
    decreases h.len(),
{
    if h.len() > 0 {
        let g = h.drop_last();
        lemma_network_history(g);
    }
}

/// The current time in whole seconds since the Unix epoch, from
/// `SystemTime::now()` (0 if the clock is before the epoch).  It depends on
/// the clock, so nothing is stated of it.
#[verifier::external_body]
fn unix_now_secs() -> (r: u64) {
    std::time::SystemTime::now().duration_since(std::time::UNIX_EPOCH).unwrap_or_default().as_secs()
}

proof fn lemma_tally_sum_update(t: Seq<(Seq<char>, u64)>, i: int, v: u64)
    requires
        0 <= i < t.len(),
        v == t[i].1 + 1,
    ensures
        tally_sum(t.update(i, (t[i].0, v))) == tally_sum(t) + 1,
    decreases t.len(),
{
    if i < t.len() - 1 {
        assert(t.update(i, (t[i].0, v)).drop_last() =~= t.drop_last().update(i, (t[i].0, v)));
        lemma_tally_sum_update(t.drop_last(), i, v);
    } else {
        assert(t.update(i, (t[i].0, v)).drop_last() =~= t.drop_last());
    }
}

proof fn lemma_count_update(t: Seq<(Seq<char>, u64)>, i: int, v: u64, name: Seq<char>)
    requires
        0 <= i < t.len(),
    ensures
        count_of(t.update(i, (t[i].0, v)), name) == if t[i].0 == name {
            count_of(t, name) - t[i].1 + v
        } else {
            count_of(t, name) as int
        },
    decreases t.len(),
{
    if i < t.len() - 1 {
        assert(t.update(i, (t[i].0, v)).drop_last() =~= t.drop_last().update(i, (t[i].0, v)));
        lemma_count_update(t.drop_last(), i, v, name);
    } else {
        assert(t.update(i, (t[i].0, v)).drop_last() =~= t.drop_last());
    }
}

proof fn lemma_count_absent(t: Seq<(Seq<char>, u64)>, name: Seq<char>)
    requires
        forall|k: int| 0 <= k < t.len() ==> (#[trigger] t[k]).0 != name,
    ensures
        count_of(t, name) == 0,
    decreases t.len(),
{
    if t.len() > 0 {
        lemma_count_absent(t.drop_last(), name);
    }
}

impl Metrics {
    /// The counters of a fresh start.
    pub fn new() -> (r: Metrics)
        ensures
            r@ == zero_metrics(),
            consistent(r@),
    {
        let r = Metrics {
            commands: CommandMetrics {
                total_commands: 0,
                commands_by_type: Vec::new(),
                failed_commands: 0,
                last_command_time: None,
            },
            network: NetworkMetrics {
                total_requests: 0,
                failed_requests: 0,
                timeouts: 0,
                bytes_uploaded: 0,
                bytes_downloaded: 0,
                peer_connections: 0,
            },
            storage: StorageMetrics {
                files_uploaded: 0,
                files_downloaded: 0,
                total_bytes_processed: 0,
                cache_hits: 0,
                cache_misses: 0,
                disk_operations: 0,
            },
        };
        assert(r@.tally =~= Seq::<(Seq<char>, u64)>::empty());
        r
    }

    /// Counts one more run of `command`, started at `now` (Unix seconds).
    pub fn record_command_start_at(&mut self, command: &str, now: u64)
        requires
            old(self)@.total_commands < u64::MAX,
            forall|i: int|
                0 <= i < old(self)@.tally.len() && (#[trigger] old(self)@.tally[i]).0 == command@
                    ==> old(self)@.tally[i].1 < u64::MAX,
        ensures
            consistent(old(self)@) ==> consistent(final(self)@),
            final(self)@.total_commands == old(self)@.total_commands + 1,
            count_of(final(self)@.tally, command@) == count_of(old(self)@.tally, command@) + 1,
            forall|other: Seq<char>|
                other != command@ ==> count_of(final(self)@.tally, other) == count_of(
                    old(self)@.tally,
                    other,
                ),
            final(self)@.last_command_time == Some(now),
            final(self)@.failed_commands == old(self)@.failed_commands,
            final(self)@.total_requests == old(self)@.total_requests,
            final(self)@.failed_requests == old(self)@.failed_requests,
            final(self)@.timeouts == old(self)@.timeouts,
            final(self)@.bytes_uploaded == old(self)@.bytes_uploaded,
            final(self)@.bytes_downloaded == old(self)@.bytes_downloaded,
            final(self)@.peer_connections == old(self)@.peer_connections,
            final(self)@.storage == old(self)@.storage,
    {
        let ghost t = self@.tally;
        let n = self.commands.commands_by_type.len();
        let mut i: usize = 0;
        let mut found = false;
        while i < n && !found
            invariant
                n == self.commands.commands_by_type@.len(),
                t == tally_view(self.commands.commands_by_type@),
                i <= n,
                found ==> i < n && t[i as int].0 == command@,
                forall|k: int| 0 <= k < i ==> (#[trigger] t[k]).0 != command@,
            decreases n - i + (if found { 0int } else { 1int }),
        {
            if str_eq(self.commands.commands_by_type[i].0.as_str(), command) {
                found = true;
            } else {
                i = i + 1;
            }
        }
        if found {
            let name = self.commands.commands_by_type[i].0.clone();
            let count = self.commands.commands_by_type[i].1 + 1;
            self.commands.commands_by_type.set(i, (name, count));
            proof {
                assert(tally_view(self.commands.commands_by_type@) =~= t.update(i as int, (t[i as int].0, count)));
                lemma_tally_sum_update(t, i as int, count);
                lemma_count_update(t, i as int, count, command@);
                assert forall|other: Seq<char>| other != command@ implies count_of(
                    tally_view(self.commands.commands_by_type@),
                    other,
                ) == count_of(t, other) by {
                    lemma_count_update(t, i as int, count, other);
                }
            }
        } else {
            let ghost before = self.commands.commands_by_type@;
            self.commands.commands_by_type.push((String::from_str(command), 1));
            proof {
                assert(tally_view(self.commands.commands_by_type@) =~= t.push((command@, 1)));
                assert(t.push((command@, 1)).drop_last() =~= t);
                lemma_count_absent(t, command@);
            }
        }
        self.commands.total_commands = self.commands.total_commands + 1;
        self.commands.last_command_time = Some(now);
    }

    /// Counts one more run of `command`, started now.
    pub fn record_command_start(&mut self, command: &str)
        requires
            old(self)@.total_commands < u64::MAX,
            forall|i: int|
                0 <= i < old(self)@.tally.len() && (#[trigger] old(self)@.tally[i]).0 == command@
                    ==> old(self)@.tally[i].1 < u64::MAX,
        ensures
            consistent(old(self)@) ==> consistent(final(self)@),
            final(self)@.total_commands == old(self)@.total_commands + 1,
            count_of(final(self)@.tally, command@) == count_of(old(self)@.tally, command@) + 1,
            forall|other: Seq<char>|
                other != command@ ==> count_of(final(self)@.tally, other) == count_of(
                    old(self)@.tally,
                    other,
                ),
            final(self)@.last_command_time is Some,
            final(self)@.failed_commands == old(self)@.failed_commands,
            final(self)@.total_requests == old(self)@.total_requests,
            final(self)@.failed_requests == old(self)@.failed_requests,
            final(self)@.timeouts == old(self)@.timeouts,
            final(self)@.bytes_uploaded == old(self)@.bytes_uploaded,
            final(self)@.bytes_downloaded == old(self)@.bytes_downloaded,
            final(self)@.peer_connections == old(self)@.peer_connections,
            final(self)@.storage == old(self)@.storage,
    {
        let now = unix_now_secs();
        self.record_command_start_at(command, now);
    }

    /// Counts a network request, whether it succeeded, and the bytes it
    /// moved in the direction it moved them.
    pub fn record_network_request(&mut self, success: bool, bytes_transferred: u64, upload: bool)
        requires
            old(self)@.total_requests < u64::MAX,
            old(self)@.failed_requests < u64::MAX,
            upload ==> old(self)@.bytes_uploaded + bytes_transferred <= u64::MAX,
            !upload ==> old(self)@.bytes_downloaded + bytes_transferred <= u64::MAX,
        ensures
            consistent(old(self)@) ==> consistent(final(self)@),
            final(self)@ == after_network_event(
                old(self)@,
                NetworkEvent::Request { success, bytes: bytes_transferred, upload },
            ),
            final(self)@ == (MetricsView {
                total_requests: (old(self)@.total_requests + 1) as u64,
                failed_requests: if success { old(self)@.failed_requests } else { (old(self)@.failed_requests + 1) as u64 },
                bytes_uploaded: if upload { (old(self)@.bytes_uploaded + bytes_transferred) as u64 } else { old(self)@.bytes_uploaded },
                bytes_downloaded: if upload { old(self)@.bytes_downloaded } else { (old(self)@.bytes_downloaded + bytes_transferred) as u64 },
                ..old(self)@
            }),
    {
        self.network.total_requests = self.network.total_requests + 1;
        if !success {
            self.network.failed_requests = self.network.failed_requests + 1;
        }
        if upload {
            self.network.bytes_uploaded = self.network.bytes_uploaded + bytes_transferred;
        } else {
            self.network.bytes_downloaded = self.network.bytes_downloaded + bytes_transferred;
        }
    }

    /// Counts a timed-out request, which is a failed one too.
    pub fn record_timeout(&mut self)
        requires
            old(self)@.timeouts < u64::MAX,
            old(self)@.failed_requests < u64::MAX,
        ensures
            consistent(old(self)@) ==> consistent(final(self)@),
            final(self)@ == after_network_event(old(self)@, NetworkEvent::Timeout),
            final(self)@ == (MetricsView {
                timeouts: (old(self)@.timeouts + 1) as u64,
                failed_requests: (old(self)@.failed_requests + 1) as u64,
                ..old(self)@
            }),
    {
        self.network.timeouts = self.network.timeouts + 1;
        self.network.failed_requests = self.network.failed_requests + 1;
    }

    /// Counts an uploaded file of `file_size` bytes.
    pub fn record_file_upload(&mut self, file_size: u64)
        requires
            old(self)@.storage.files_uploaded < u64::MAX,
            old(self)@.storage.disk_operations < u64::MAX,
            old(self)@.storage.total_bytes_processed + file_size <= u64::MAX,
        ensures
            consistent(old(self)@) ==> consistent(final(self)@),
            final(self)@ == (MetricsView {
                storage: StorageMetrics {
                    files_uploaded: (old(self)@.storage.files_uploaded + 1) as u64,
                    total_bytes_processed: (old(self)@.storage.total_bytes_processed + file_size) as u64,
                    disk_operations: (old(self)@.storage.disk_operations + 1) as u64,
                    ..old(self)@.storage
                },
                ..old(self)@
            }),
    {
        self.storage.files_uploaded = self.storage.files_uploaded + 1;
        self.storage.total_bytes_processed = self.storage.total_bytes_processed + file_size;
        self.storage.disk_operations = self.storage.disk_operations + 1;
    }

    /// Counts a downloaded file of `file_size` bytes.
    pub fn record_file_download(&mut self, file_size: u64)
        requires
            old(self)@.storage.files_downloaded < u64::MAX,
            old(self)@.storage.disk_operations < u64::MAX,
            old(self)@.storage.total_bytes_processed + file_size <= u64::MAX,
        ensures
            consistent(old(self)@) ==> consistent(final(self)@),
            final(self)@ == (MetricsView {
                storage: StorageMetrics {
                    files_downloaded: (old(self)@.storage.files_downloaded + 1) as u64,
                    total_bytes_processed: (old(self)@.storage.total_bytes_processed + file_size) as u64,
                    disk_operations: (old(self)@.storage.disk_operations + 1) as u64,
                    ..old(self)@.storage
                },
                ..old(self)@
            }),
    {
        self.storage.files_downloaded = self.storage.files_downloaded + 1;
        self.storage.total_bytes_processed = self.storage.total_bytes_processed + file_size;
        self.storage.disk_operations = self.storage.disk_operations + 1;
    }

    /// Counts a cache hit.
    pub fn record_cache_hit(&mut self)
        requires
            old(self)@.storage.cache_hits < u64::MAX,
        ensures
            consistent(old(self)@) ==> consistent(final(self)@),
            final(self)@ == (MetricsView {
                storage: StorageMetrics { cache_hits: (old(self)@.storage.cache_hits + 1) as u64, ..old(self)@.storage },
                ..old(self)@
            }),
    {
        self.storage.cache_hits = self.storage.cache_hits + 1;
    }

    /// Counts a cache miss.
    pub fn record_cache_miss(&mut self)
        requires
            old(self)@.storage.cache_misses < u64::MAX,
        ensures
            consistent(old(self)@) ==> consistent(final(self)@),
            final(self)@ == (MetricsView {
                storage: StorageMetrics { cache_misses: (old(self)@.storage.cache_misses + 1) as u64, ..old(self)@.storage },
                ..old(self)@
            }),
    {
        self.storage.cache_misses = self.storage.cache_misses + 1;
    }

    /// Sets the number of connected peers.
    pub fn update_peer_count(&mut self, peer_count: u32)
        ensures
            consistent(old(self)@) ==> consistent(final(self)@),
            final(self)@ == (MetricsView { peer_connections: peer_count, ..old(self)@ }),
    {
        self.network.peer_connections = peer_count;
    }

    /// Bytes moved in both directions and files moved in both directions.
    pub fn transfer_totals(&self) -> (r: (u64, u64))
        requires
            self@.bytes_uploaded + self@.bytes_downloaded <= u64::MAX,
            self@.storage.files_uploaded + self@.storage.files_downloaded <= u64::MAX,
        ensures
            r.0 == self@.bytes_uploaded + self@.bytes_downloaded,
            r.1 == self@.storage.files_uploaded + self@.storage.files_downloaded,
    {
        (
            self.network.bytes_uploaded + self.network.bytes_downloaded,
            self.storage.files_uploaded + self.storage.files_downloaded,
        )
    }

    /// Back to the counters of a fresh start.
    pub fn reset_metrics(&mut self)
        ensures
            final(self)@ == zero_metrics(),
            consistent(final(self)@),
    {
        *self = Metrics::new();
    }
}

impl Default for Metrics {
    /// The counters of a fresh start.
    fn default() -> (r: Metrics)
        ensures
            r@ == zero_metrics(),
    {
        Metrics::new()
    }
}

} // verus!
