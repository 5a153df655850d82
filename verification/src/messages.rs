use vstd::prelude::*;

use crate::short_code::ShortCode;

verus! {

/// A command carried by the engine's channel, the only path into the worker.
pub enum ViewMsg {
    /// Persist the accumulated counts and clear the store.
    Commit,
    /// A batch of `u32` further views of one clip.
    View(ShortCode, u32),
}

/// What one bounded wait on the command channel came back with.
pub enum ChannelEvent {
    /// A message arrived within the wait window.
    Received(ViewMsg),
    /// The wait window passed with no message: the engine is idle.
    TimedOut,
    /// Every sender is gone; no message can ever arrive again.
    Disconnected,
}

} // verus!
