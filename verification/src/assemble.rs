//! Record assembly: one outgoing record per tick, merged from the static
//! host template, the latest sampler readings and a cache snapshot, stamped
//! with the wall clock. Assembly always succeeds; absent optional inputs are
//! simply omitted.

use vstd::prelude::*;
use crate::cache::ClientConfig;
use crate::model::{dup_opt_ip, dup_opt_sys, Args, DynamicMetrics, IpInfo, StatRequest, SysInfo};

verus! {

/// Whether records carry the auxiliary-info block under this configuration.
pub open spec fn extra_enabled(args: Args) -> bool {
    !args.disable_extra
}

/// The record one tick produces: the template's static fields verbatim, the
/// fresh metrics, the clock reading, and the cache contents only when
/// auxiliary-info reporting is enabled.
pub open spec fn spec_assemble(
    base: StatRequest,
    m: DynamicMetrics,
    cache: ClientConfig,
    extra: bool,
    now: u64,
) -> StatRequest {
    StatRequest {
        latest_ts: now,
        metrics: m,
        ip_info: if extra {
            cache.ip_info
        } else {
            None
        },
        sys_info: if extra {
            cache.sys_info
        } else {
            None
        },
        ..base
    }
}

/// Merge template, metrics and cache snapshot into the record for one tick.
pub fn assemble(
    base: &StatRequest,
    metrics: &DynamicMetrics,
    cache: &ClientConfig,
    extra: bool,
    now: u64,
) -> (r: StatRequest)
    ensures
        r == spec_assemble(*base, *metrics, *cache, extra, now),
        !extra ==> r.ip_info is None && r.sys_info is None,
{
    StatRequest {
        name: base.name.clone(),
        gid: base.gid.clone(),
        alias: base.alias.clone(),
        frame: base.frame.clone(),
        online4: base.online4,
        online6: base.online6,
        vnstat: base.vnstat,
        weight: base.weight,
        notify: base.notify,
        version: base.version.clone(),
        latest_ts: now,
        host_type: base.host_type.clone(),
        location: base.location.clone(),
        metrics: *metrics,
        ip_info: if extra {
            dup_opt_ip(&cache.ip_info)
        } else {
            None
        },
        sys_info: if extra {
            dup_opt_sys(&cache.sys_info)
        } else {
            None
        },
    }
}

/// Relies on std::time::SystemTime::now for the wall clock, read as whole
/// seconds since the Unix epoch; a clock before the epoch reads as zero.
#[verifier::external_body]
fn epoch_secs_now() -> u64 {
    std::time::SystemTime::now()
        .duration_since(std::time::UNIX_EPOCH)
        .map(|d| d.as_secs())
        .unwrap_or(0)
}

/// One tick's sampling merge, stamped with the wall clock at call time. The
/// clock's value is outside the library; whatever it read, the record is the
/// assembly of the given inputs at that timestamp.
pub fn sample_all(
    args: &Args,
    base: &StatRequest,
    metrics: &DynamicMetrics,
    cache: &ClientConfig,
) -> (r: StatRequest)
    ensures
        r == spec_assemble(*base, *metrics, *cache, !args.disable_extra, r.latest_ts),
{
    let now = epoch_secs_now();
    assemble(base, metrics, cache, !args.disable_extra, now)
}

/// Law: across consecutive ticks whose clock readings do not decrease, the
/// assembled records carry non-decreasing timestamps, whatever else changed
/// between the ticks. (A wall clock stepped backwards between two ticks falls
/// outside this law's premise.)
pub proof fn lemma_timestamps_nondecreasing(
    b1: StatRequest,
    m1: DynamicMetrics,
    c1: ClientConfig,
    e1: bool,
    t1: u64,
    b2: StatRequest,
    m2: DynamicMetrics,
    c2: ClientConfig,
    e2: bool,
    t2: u64,
)
    requires
        t1 <= t2,
    ensures
        spec_assemble(b1, m1, c1, e1, t1).latest_ts <= spec_assemble(b2, m2, c2, e2, t2).latest_ts,
{
}

/// Law: with auxiliary-info reporting disabled, no assembled record carries
/// IP info or a system descriptor, regardless of the cache's state.
pub proof fn lemma_disabled_extra_omits_aux(
    base: StatRequest,
    m: DynamicMetrics,
    cache: ClientConfig,
    now: u64,
)
    ensures
        spec_assemble(base, m, cache, false, now).ip_info is None,
        spec_assemble(base, m, cache, false, now).sys_info is None,
{
}

} // verus!
