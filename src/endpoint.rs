//! How the preview endpoint gets its port, reclaiming it once from a stale
//! holder.
use vstd::prelude::*;

verus! {

/// How long to wait after reclaiming a port before binding again.
pub const RECLAIM_DELAY_MS: u64 = 300;

/// What one attempt to bind the listening socket gave.
#[derive(Clone, Copy, Debug, PartialEq, Eq, Structural)]
pub enum BindResult {
    /// Listening, on this port.
    Bound(u16),
    /// Another process holds the port.
    InUse,
    /// Any other failure.
    Failed,
}

/// What to do next.
#[derive(Clone, Copy, Debug, PartialEq, Eq, Structural)]
pub enum BindAction {
    /// Serve on this port.
    Serve(u16),
    /// Stop whatever holds `port`, wait `delay_ms`, then bind once more.
    Reclaim { port: u16, delay_ms: u64 },
    /// Startup failed for good.
    Abort,
}

/// The endpoint's progress in getting its port.
#[derive(Clone, Copy, Debug, PartialEq, Eq, Structural)]
pub struct PortClaim {
    pub port: u16,
    pub retried: bool,
}

/// The action that follows `r` for a claim on `port` that has or has not
/// already reclaimed it.
pub open spec fn bind_action(port: u16, retried: bool, r: BindResult) -> BindAction {
    match r {
        BindResult::Bound(p) => BindAction::Serve(p),
        BindResult::InUse => if retried {
            BindAction::Abort
        } else {
            BindAction::Reclaim { port, delay_ms: RECLAIM_DELAY_MS }
        },
        BindResult::Failed => BindAction::Abort,
    }
}

impl PortClaim {
    /// A claim on `port` that has not reclaimed it yet.
    pub fn new(port: u16) -> (r: PortClaim)
        ensures
            r == (PortClaim { port, retried: false }),
    {
        PortClaim { port, retried: false }
    }

    /// Decides what follows a bind attempt. A port in use is reclaimed once;
    /// a second refusal, or any other failure, aborts startup.
    pub fn on_bind(&mut self, r: BindResult) -> (a: BindAction)
        ensures
            a == bind_action(old(self).port, old(self).retried, r),
            final(self).port == old(self).port,
            final(self).retried == (old(self).retried || a is Reclaim),
    {
        match r {
            BindResult::Bound(p) => BindAction::Serve(p),
            BindResult::InUse => {
                if self.retried {
                    BindAction::Abort
                } else {
                    self.retried = true;
                    BindAction::Reclaim { port: self.port, delay_ms: RECLAIM_DELAY_MS }
                }
            },
            BindResult::Failed => BindAction::Abort,
        }
    }
}

/// At most one reclaim: after one, any further refusal aborts.
pub proof fn law_single_reclaim(port: u16, r1: BindResult, r2: BindResult)
    requires
        bind_action(port, false, r1) is Reclaim,
    ensures
        !(bind_action(port, true, r2) is Reclaim),
{
}

} // verus!
