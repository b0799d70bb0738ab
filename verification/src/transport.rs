//! What the loop handler asks of a connection's handle.

use vstd::prelude::*;

verus! {

/// A byte-oriented, non-blocking handle.
///
/// The handler owns every transport it is given and never duplicates one; it
/// hands a transport to the protocol for each callback and for good when the
/// stream is removed. The handler itself neither reads nor writes, so it asks
/// no method of a transport: a handle has to be registrable, readable and
/// writable where it meets the notifier and the protocol.
pub trait Transport {
}

impl<T> Transport for T {
}

} // verus!
