//! The way into the loop from other threads: the sending half of the
//! notifier's message channel.

use vstd::prelude::*;
use crate::internal::Message;

verus! {

/// `mio::Sender`, the sending half of the channel into an event loop. A
/// sender is carried through as it is and used by `post` alone.
#[verifier::external_type_specification]
#[verifier::external_body]
#[verifier::reject_recursive_types(M)]
pub struct ExSender<M: Send>(mio::Sender<M>);

/// `Clone::clone` of `mio::Sender`: another handle on the same channel.
/// Nothing is claimed of it.
pub assume_specification<M: Send>[ <mio::Sender<M> as Clone>::clone ](
    sender: &mio::Sender<M>,
) -> (other: mio::Sender<M>)
;

/// `mio::Sender::send`: puts `message` on the loop's queue and wakes the loop
/// if it sleeps. `true` says that the message was queued; the channel refuses
/// a message when its queue is full, when the loop is gone, or when the loop
/// could not be woken, and the message is then dropped. Which of these
/// happens depends on the other threads, so nothing is claimed of the result.
#[verifier::external_body]
pub(crate) fn post(sender: &mio::Sender<Message>, message: Message) -> (queued: bool) {
    sender.send(message).is_ok()
}

} // verus!
