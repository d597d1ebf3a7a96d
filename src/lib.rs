//! Watch-mode coordination for a remote document build: which file events
//! matter, when a build may start, how "artifact changed" notices fan out to
//! viewers, and how the preview endpoint wins back its port.
use vstd::prelude::*;

pub mod text;
pub mod filter;
pub mod debounce;
pub mod bus;
pub mod watch;
pub mod endpoint;
pub mod bundle;
pub mod install;
pub mod report;

verus! {

} // verus!
