//! Scheduler decisions. The tick loop itself runs outside the library (it
//! sleeps and performs network I/O); each cycle it calls in here to assemble
//! the record and build the delivery, and the fixed sleep it is told to take
//! never depends on how any earlier delivery went — delivery is
//! fire-and-forget.

use vstd::prelude::*;
use crate::assemble::{extra_enabled, sample_all, spec_assemble};
use crate::cache::ClientConfig;
use crate::model::{Args, DynamicMetrics, StatRequest};
use crate::transport::{build_report_request, spec_report_request, ReportRequest};

verus! {

/// Fixed sleep between ticks, in milliseconds; not adjusted for time spent
/// assembling or dispatching.
pub const INTERVAL_MS: u64 = 1000;

/// Fixed wait between cache refresh cycles, in seconds.
pub const REFRESH_INTERVAL_SECS: u64 = 3600;

/// Why one delivery attempt failed; caught per attempt, logged and
/// discarded, never retried and never escalated.
#[derive(Clone, Copy, PartialEq, Eq, Structural, Debug)]
pub enum TransportError {
    Timeout,
    ConnectionRefused,
    NameResolution,
    Other,
}

/// Outcome of one fire-and-forget delivery attempt.
pub type DeliveryOutcome = Result<(), TransportError>;

/// One scheduler cycle: assemble the record for this tick (stamped with the
/// wall clock) and build its push delivery, plus the fixed sleep to take
/// afterwards. Nothing about earlier deliveries is an input.
pub fn plan_tick(
    args: &Args,
    base: &StatRequest,
    metrics: &DynamicMetrics,
    cache: &ClientConfig,
) -> (r: (ReportRequest, u64))
    ensures
        r.1 == INTERVAL_MS,
        exists|ts: u64|
            spec_report_request(
                r.0,
                *args,
                #[trigger] spec_assemble(*base, *metrics, *cache, extra_enabled(*args), ts),
            ),
{
    let rec = sample_all(args, base, metrics, cache);
    let req = build_report_request(args, &rec);
    proof {
        let ts = rec.latest_ts;
        assert(spec_report_request(
            req,
            *args,
            spec_assemble(*base, *metrics, *cache, extra_enabled(*args), ts),
        ));
    }
    (req, INTERVAL_MS)
}

/// The sleep the scheduler takes after handing a delivery off: the fixed
/// interval, whatever the outcome of that or any earlier delivery — a slow
/// or unreachable destination never changes the cadence.
pub fn schedule_after(outcome: &DeliveryOutcome) -> (sleep_ms: u64)
    ensures
        sleep_ms == INTERVAL_MS,
{
    let _unused: &DeliveryOutcome = outcome;
    INTERVAL_MS
}

} // verus!
