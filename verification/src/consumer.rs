//! Consumer lifecycle handler.

use vstd::prelude::*;

verus! {

/// Optional handler for consumer shutdown notification.
pub trait ShutdownHandler: Send + Sync + 'static {
    /// Called once when the consumer exits; `reason` is
    /// "graceful shutdown" or the engine's failure description.
    fn handle(&self, reason: &str);
}

} // verus!
