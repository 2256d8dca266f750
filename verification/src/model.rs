//! Data model: the immutable configuration snapshot, the auxiliary-info
//! values held by the shared cache, the per-tick dynamic metrics, and the
//! outgoing record, together with the interface filter applied by the
//! network sampler.

use vstd::prelude::*;
use vstd::string::*;
use crate::text::{contains_seq, str_contains, str_eq};

verus! {

/// Immutable configuration snapshot, resolved once at startup and handed to
/// the core. Field meanings follow the command line of the agent.
pub struct Args {
    /// Destination address, e.g. `http://127.0.0.1:8080/report`.
    pub addr: String,
    /// Single-host user id; doubles as the default host name.
    pub user: String,
    /// Password of the static credential pair.
    pub pass: String,
    /// Extended throughput accounting toggle.
    pub vnstat: bool,
    /// Disable the auxiliary-info block in outgoing records.
    pub disable_extra: bool,
    /// Choose the human-readable text encoding instead of the binary one.
    pub json: bool,
    /// Resolve and report over IPv6 only.
    pub ipv6: bool,
    /// Group id; empty means single-host reporting.
    pub gid: String,
    /// Alias for the host; `unknown` is the default placeholder.
    pub alias: String,
    /// Reporting weight.
    pub weight: u64,
    /// Suppress notifications for this host.
    pub disable_notify: bool,
    /// Host type label.
    pub host_type: String,
    /// Location label.
    pub location: String,
    /// Interface include list; when non-empty, only exact matches are sampled.
    pub iface: Vec<String>,
    /// Interface exclude list, matched as substrings when the include list is
    /// empty.
    pub exclude_iface: Vec<String>,
}

/// Geolocation info for the host's public address, refreshed periodically.
pub struct IpInfo {
    pub query: String,
    pub country: String,
    pub isp: String,
}

/// Static descriptor of the reporting system, collected once at startup.
pub struct SysInfo {
    pub host_name: String,
    pub os_name: String,
    pub version: String,
}

/// Live metrics, recomputed fresh every tick; never persisted beyond it.
#[derive(Clone, Copy, PartialEq, Eq, Structural)]
pub struct DynamicMetrics {
    /// CPU load in percent.
    pub cpu_percent: u64,
    /// Receive rate in bytes per second over the sampled interfaces.
    pub network_rx: u64,
    /// Transmit rate in bytes per second over the sampled interfaces.
    pub network_tx: u64,
    /// Packet loss per probe, in percent.
    pub ping_ct: u64,
    pub ping_cm: u64,
    pub ping_cu: u64,
    /// Latency per probe, in milliseconds.
    pub time_ct: u64,
    pub time_cm: u64,
    pub time_cu: u64,
}

/// Metrics with every reading zero, the value a record starts from before
/// samplers report.
pub open spec fn zero_metrics() -> DynamicMetrics {
    DynamicMetrics {
        cpu_percent: 0,
        network_rx: 0,
        network_tx: 0,
        ping_ct: 0,
        ping_cm: 0,
        ping_cu: 0,
        time_ct: 0,
        time_cm: 0,
        time_cu: 0,
    }
}

impl Default for DynamicMetrics {
    fn default() -> (r: Self)
        ensures
            r == zero_metrics(),
    {
        DynamicMetrics {
            cpu_percent: 0,
            network_rx: 0,
            network_tx: 0,
            ping_ct: 0,
            ping_cm: 0,
            ping_cu: 0,
            time_ct: 0,
            time_cm: 0,
            time_cu: 0,
        }
    }
}

/// The per-tick status payload sent to the collector.
pub struct StatRequest {
    pub name: String,
    pub gid: String,
    pub alias: String,
    /// Frame marker distinguishing data frames on the wire.
    pub frame: String,
    pub online4: bool,
    pub online6: bool,
    pub vnstat: bool,
    pub weight: u64,
    pub notify: bool,
    pub version: String,
    /// Wall-clock epoch seconds at assembly time.
    pub latest_ts: u64,
    pub host_type: String,
    pub location: String,
    pub metrics: DynamicMetrics,
    pub ip_info: Option<IpInfo>,
    pub sys_info: Option<SysInfo>,
}

impl IpInfo {
    /// Independent copy with equal contents.
    pub fn dup(&self) -> (r: IpInfo)
        ensures
            r == *self,
    {
        IpInfo { query: self.query.clone(), country: self.country.clone(), isp: self.isp.clone() }
    }
}

impl SysInfo {
    /// Independent copy with equal contents.
    pub fn dup(&self) -> (r: SysInfo)
        ensures
            r == *self,
    {
        SysInfo {
            host_name: self.host_name.clone(),
            os_name: self.os_name.clone(),
            version: self.version.clone(),
        }
    }
}

/// Independent copy of an optional auxiliary value.
pub fn dup_opt_ip(o: &Option<IpInfo>) -> (r: Option<IpInfo>)
    ensures
        r == *o,
{
    match o {
        Some(i) => Some(i.dup()),
        None => None,
    }
}

/// Independent copy of an optional auxiliary value.
pub fn dup_opt_sys(o: &Option<SysInfo>) -> (r: Option<SysInfo>)
    ensures
        r == *o,
{
    match o {
        Some(i) => Some(i.dup()),
        None => None,
    }
}

/// `name` equals one of the list's entries.
pub open spec fn name_listed(name: Seq<char>, list: Seq<String>) -> bool {
    exists|i: int| 0 <= i < list.len() && #[trigger] list[i]@ == name
}

/// `name` has one of the list's entries as a substring.
pub open spec fn name_hits_exclude(name: Seq<char>, list: Seq<String>) -> bool {
    exists|i: int| 0 <= i < list.len() && contains_seq(name, #[trigger] list[i]@)
}

/// The sampling rule for one interface: with a non-empty include list, skip
/// everything but exact matches; with an empty include list, skip exactly the
/// interfaces whose name contains an excluded substring.
pub open spec fn spec_skip_iface(name: Seq<char>, only: Seq<String>, exclude: Seq<String>) -> bool {
    if only.len() > 0 {
        !name_listed(name, only)
    } else {
        name_hits_exclude(name, exclude)
    }
}

/// Whether the interface called `name` is left out of network sampling.
pub fn skip_iface(name: &str, args: &Args) -> (r: bool)
    ensures
        r == spec_skip_iface(name@, args.iface@, args.exclude_iface@),
{
    if args.iface.len() > 0 {
        let mut i: usize = 0;
        while i < args.iface.len()
            invariant
                i <= args.iface.len(),
                forall|j: int| 0 <= j < i ==> #[trigger] args.iface@[j]@ != name@,
            decreases args.iface.len() - i,
        {
            if str_eq(name, args.iface[i].as_str()) {
                return false;
            }
            i += 1;
        }
        return true;
    }
    let mut i: usize = 0;
    while i < args.exclude_iface.len()
        invariant
            args.iface@.len() == 0,
            i <= args.exclude_iface.len(),
            forall|j: int| 0 <= j < i ==> !contains_seq(name@, #[trigger] args.exclude_iface@[j]@),
        decreases args.exclude_iface.len() - i,
    {
        if str_contains(name, args.exclude_iface[i].as_str()) {
            proof {
                assert(contains_seq(name@, args.exclude_iface@[i as int]@));
            }
            return true;
        }
        i += 1;
    }
    false
}

} // verus!
