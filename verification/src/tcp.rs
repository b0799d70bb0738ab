//! Endpoints that hand their bytes on through channels: the states a
//! listener and a stream go through while the consumer of their connections
//! and bytes keeps up or falls behind.
//!
//! The channel halves themselves are of no concern here. A state holds a
//! half while nobody else needs it and gives it up when it is to be waited
//! on, so the types take the halves as parameters.

use vstd::prelude::*;

pub mod listener;
pub mod stream;

pub use listener::Listener;
pub use stream::Stream;

verus! {

/// What a look at a channel half that was waited on brought.
pub enum Polled<V> {
    /// The other side is ready, and this is what it gave.
    Ready(V),
    /// The other side is gone.
    Dropped,
    /// The other side is not ready yet. Whoever looked keeps the half and
    /// waits on it.
    Pending,
}

} // verus!
