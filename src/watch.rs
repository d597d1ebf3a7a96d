//! The watch loop's decisions: what each file event leads to, and what a
//! finished build does to the debouncer and to the viewers.
use vstd::prelude::*;
use crate::bus::{notify_clients, publish_step, NotificationBus};
use crate::debounce::{acquired, admits, released, DebounceGate};
use crate::filter::{is_relevant, relevant, texts, FsEvent, WatchConfig};

verus! {

/// How one build attempt ended.
pub enum BuildOutcome {
    /// The artifact was written.
    Success,
    /// The build failed, for the reason given.
    Failure(String),
}

/// The state of watching one directory.
pub struct WatchSession {
    pub config: WatchConfig,
    pub gate: DebounceGate,
    /// The artifact's path, as viewers are told of it.
    pub output_path: String,
    /// Whether viewers are told of new artifacts.
    pub live: bool,
}

/// Whether `event` starts a build in `s` at `now`.
pub open spec fn starts_build(s: &WatchSession, event: &FsEvent, now: u64) -> bool {
    relevant(event.kind, texts(event.paths@), texts(s.config.extensions@), s.config.output_name@)
        && admits(s.gate@, now)
}

impl WatchSession {
    /// A session with no build running and none started yet.
    pub fn new(config: WatchConfig, output_path: String, live: bool) -> (r: WatchSession)
        ensures
            r.config == config,
            r.output_path == output_path,
            r.live == live,
            !r.gate@.running,
            r.gate@.last_start is None,
    {
        WatchSession { config, gate: DebounceGate::new(), output_path, live }
    }

    /// Handles one file event at `now` (milliseconds on a monotonic clock):
    /// true when a build must start, in which case the debouncer is claimed.
    /// Irrelevant or debounced events change nothing.
    pub fn on_event(&mut self, event: &FsEvent, now: u64) -> (r: bool)
        ensures
            r == starts_build(old(self), event, now),
            r ==> final(self).gate@ == acquired(old(self).gate@, now),
            !r ==> final(self).gate@ == old(self).gate@,
            final(self).config == old(self).config,
            final(self).output_path == old(self).output_path,
            final(self).live == old(self).live,
    {
        if !is_relevant(event, &self.config) {
            return false;
        }
        self.gate.try_acquire(now)
    }

    /// Ends a build attempt: the debouncer is released whatever the outcome, and
    /// on success, while live, viewers are told that the artifact changed.
    /// Returns whether they were told.
    pub fn finish_build(&mut self, outcome: &BuildOutcome, bus: &mut NotificationBus) -> (r: bool)
        requires
            old(bus).wf(),
            old(bus)@.history.len() < u64::MAX,
        ensures
            r == (outcome is Success && old(self).live),
            final(bus).wf(),
            r ==> final(bus)@ == publish_step(old(bus)@, old(self).output_path@),
            !r ==> final(bus)@ == old(bus)@,
            final(self).gate@ == released(old(self).gate@),
            final(self).config == old(self).config,
            final(self).output_path == old(self).output_path,
            final(self).live == old(self).live,
    {
        self.gate.release();
        match outcome {
            BuildOutcome::Success => {
                if self.live {
                    notify_clients(bus, self.output_path.as_str());
                    true
                } else {
                    false
                }
            },
            BuildOutcome::Failure(_) => false,
        }
    }
}

} // verus!
