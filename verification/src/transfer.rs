//! The handle by which code outside the loop wakes one stream.

use vstd::prelude::*;
use crate::channel::post;
use crate::internal::Message;
use crate::protocol::Interest;
use crate::Id;

verus! {

/// A wake-up handle bound to one stream.
///
/// It may be cloned, sent to other threads and kept after the stream is
/// gone: the loop drops a message for an `Id` that names no stream.
#[derive(Debug)]
pub struct Transfer {
    id: Id,
    notify: mio::Sender<Message>,
}

/// The handle of stream `id` on the channel `notify`.
#[inline]
pub fn new(id: Id, notify: mio::Sender<Message>) -> (transfer: Transfer)
    ensures
        transfer == Transfer::of(id, notify),
        transfer.id() == id,
        transfer.notify() == notify,
{
    Transfer { id, notify }
}

impl Clone for Transfer {
    /// Another handle for the same stream, on the same channel.
    fn clone(&self) -> (other: Transfer)
        ensures
            other.id() == self.id(),
    {
        Transfer { id: self.id, notify: self.notify.clone() }
    }
}

impl Transfer {
    /// The handle of stream `id` on the channel `notify`.
    pub closed spec fn of(id: Id, notify: mio::Sender<Message>) -> Transfer {
        Transfer { id, notify }
    }

    /// The stream this handle is bound to.
    pub closed spec fn id(&self) -> Id {
        self.id
    }

    /// The channel this handle posts to.
    pub closed spec fn notify(&self) -> mio::Sender<Message> {
        self.notify
    }

    /// The stream this handle is bound to.
    pub fn stream_id(&self) -> (id: Id)
        ensures
            id == self.id(),
    {
        self.id
    }

    /// The message that asks the loop to add `interest` to what the stream
    /// waits for.
    pub fn request(&self, interest: Interest) -> (message: Message)
        ensures
            message == Message::Interest(self.id(), interest),
    {
        Message::Interest(self.id, interest)
    }

    /// Posts `request(interest)` to the loop. `true` says that the message
    /// was queued.
    #[inline]
    pub fn interest(&self, interest: Interest) -> (queued: bool) {
        let message = self.request(interest);
        post(&self.notify, message)
    }
}

} // verus!
