//! Startup construction of the host template: the static identity fields of
//! every later record, including the one substitution rule — under grouped
//! reporting a placeholder name is replaced by the generated system-identity
//! string, and an alias left at its placeholder mirrors that same string.

use vstd::prelude::*;
use vstd::string::*;
use crate::model::{zero_metrics, Args, DynamicMetrics, StatRequest};
use crate::text::str_eq;

verus! {

/// Build the host template once at startup. `sys_id` is the generated
/// system-identity string, `version` the agent's protocol version; the
/// connectivity flags come from the startup probe.
pub fn build_stat_base(
    args: &Args,
    sys_id: &str,
    online4: bool,
    online6: bool,
    version: &str,
) -> (r: StatRequest)
    ensures
        r.frame@ == "data"@,
        r.online4 == online4,
        r.online6 == online6,
        r.vnstat == args.vnstat,
        r.weight == args.weight,
        r.notify == !args.disable_notify,
        r.version@ == version@,
        r.latest_ts == 0,
        r.host_type@ == args.host_type@,
        r.location@ == args.location@,
        r.metrics == zero_metrics(),
        r.ip_info is None,
        r.sys_info is None,
        args.gid@.len() == 0 ==> r.gid@.len() == 0 && r.name@ == args.user@ && r.alias@.len()
            == 0,
        args.gid@.len() > 0 ==> r.gid@ == args.gid@ && (args.user@ == "h1"@ ==> r.name@ == sys_id@)
            && (args.user@ != "h1"@ ==> r.name@ == args.user@) && (args.alias@ == "unknown"@
            ==> r.alias@ == r.name@) && (args.alias@ != "unknown"@ ==> r.alias@ == args.alias@),
{
    let mut name = args.user.clone();
    let mut alias = String::new();
    let mut gid = String::new();
    if !args.gid.as_str().is_empty() {
        gid = args.gid.clone();
        if str_eq(name.as_str(), "h1") {
            name = String::from_str(sys_id);
        }
        if str_eq(args.alias.as_str(), "unknown") {
            alias = name.clone();
        } else {
            alias = args.alias.clone();
        }
    }
    StatRequest {
        name,
        gid,
        alias,
        frame: String::from_str("data"),
        online4,
        online6,
        vnstat: args.vnstat,
        weight: args.weight,
        notify: !args.disable_notify,
        version: String::from_str(version),
        latest_ts: 0,
        host_type: args.host_type.clone(),
        location: args.location.clone(),
        metrics: DynamicMetrics::default(),
        ip_info: None,
        sys_info: None,
    }
}

} // verus!
