//! Shared cache of slowly-changing auxiliary data. Two independent writers
//! fill its fields (the system descriptor once at startup, the IP info
//! periodically); each tick reads a best-effort snapshot. Each field is
//! replaced wholesale, never merged, and a failed refresh leaves the previous
//! value untouched.

use vstd::prelude::*;
use crate::model::{dup_opt_ip, dup_opt_sys, IpInfo, SysInfo};

verus! {

/// Contents of the shared cache. The surrounding process guards one value of
/// this type with a lock; on contention a reader simply keeps the previous or
/// absent value.
pub struct ClientConfig {
    pub ip_info: Option<IpInfo>,
    pub sys_info: Option<SysInfo>,
}

impl Default for ClientConfig {
    /// Both fields start absent, until first successfully refreshed.
    fn default() -> (r: Self)
        ensures
            r.ip_info is None,
            r.sys_info is None,
    {
        ClientConfig { ip_info: None, sys_info: None }
    }
}

impl ClientConfig {
    /// Atomically replace the cached IP info, leaving the other field alone.
    pub fn set_ip_info(&mut self, info: IpInfo)
        ensures
            final(self).ip_info == Some(info),
            final(self).sys_info == old(self).sys_info,
    {
        self.ip_info = Some(info);
    }

    /// Atomically replace the cached system descriptor, leaving the other
    /// field alone.
    pub fn set_sys_info(&mut self, info: SysInfo)
        ensures
            final(self).sys_info == Some(info),
            final(self).ip_info == old(self).ip_info,
    {
        self.sys_info = Some(info);
    }

    /// Best-effort snapshot: independent copies of whichever fields are
    /// present.
    pub fn snapshot(&self) -> (r: ClientConfig)
        ensures
            r == *self,
    {
        ClientConfig { ip_info: dup_opt_ip(&self.ip_info), sys_info: dup_opt_sys(&self.sys_info) }
    }
}

/// Cache contents after one refresh cycle: a successful lookup replaces the
/// IP info wholesale, a failed one changes nothing.
pub open spec fn spec_after_refresh(c: ClientConfig, outcome: Option<IpInfo>) -> ClientConfig {
    match outcome {
        Some(info) => ClientConfig { ip_info: Some(info), sys_info: c.sys_info },
        None => c,
    }
}

/// Fold one refresh outcome into the cache. The lookup itself (a network
/// call) happens outside the library; this function is total over whatever
/// came back.
pub fn apply_refresh_outcome(cache: &mut ClientConfig, outcome: Option<IpInfo>)
    ensures
        *final(cache) == spec_after_refresh(*old(cache), outcome),
{
    match outcome {
        Some(info) => {
            cache.ip_info = Some(info);
        },
        None => {},
    }
}

/// Law: a refresh failure never clears a previously cached IP-info value —
/// IP info is replaced on success only, the system descriptor never changes
/// through refresh, and a present value stays present.
pub proof fn lemma_refresh_replace_on_success_only(c: ClientConfig, outcome: Option<IpInfo>)
    ensures
        outcome is None ==> spec_after_refresh(c, outcome) == c,
        spec_after_refresh(c, outcome).sys_info == c.sys_info,
        c.ip_info is Some || outcome is Some ==> spec_after_refresh(c, outcome).ip_info is Some,
{
}

} // verus!
