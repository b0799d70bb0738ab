//! The loop's configuration, and the handle by which any thread reaches the
//! loop as a whole.

use vstd::prelude::*;
use crate::channel::post;
use crate::internal::Message;
use crate::internal::Thunk;

verus! {

/// The sizes a loop is built with.
#[derive(Clone, Copy, Debug, PartialEq, Eq, Structural)]
pub struct TickConfig {
    /// The number of slots for listeners and streams.
    pub transports_capacity: usize,
    /// The number of messages the channel into the loop can hold.
    pub notify_capacity: usize,
}

impl TickConfig {
    /// Room for 8192 endpoints and 8192 messages.
    pub fn new() -> (config: TickConfig)
        ensures
            config.transports_capacity == 8192,
            config.notify_capacity == 8192,
    {
        TickConfig { transports_capacity: 8_192, notify_capacity: 8_192 }
    }

    /// Whether a handler can be built with this many slots: the slots are
    /// allocated at once, 16 bytes each.
    pub fn fits(&self) -> (fits: bool)
        ensures
            fits == (self.transports_capacity * 16 <= isize::MAX),
    {
        self.transports_capacity <= (isize::MAX as usize) / 16
    }
}

/// `std::time::Duration::as_millis`: the whole milliseconds of `when`.
/// Nothing is claimed of the number.
#[verifier::external_body]
fn whole_millis(when: &std::time::Duration) -> (millis: u128) {
    when.as_millis()
}

/// The delay of a timer, in the milliseconds the notifier counts in: `millis`
/// if it fits in 64 bits, else the longest delay there is.
pub open spec fn delay(millis: u128) -> u64 {
    if millis <= u64::MAX {
        millis as u64
    } else {
        u64::MAX
    }
}

/// The delay of a timer of `millis` milliseconds.
pub fn delay_of(millis: u128) -> (delay: u64)
    ensures
        delay == self::delay(millis),
{
    if millis > u64::MAX as u128 {
        u64::MAX
    } else {
        millis as u64
    }
}

/// A handle on the loop as a whole, for any thread.
pub struct Notify {
    sender: mio::Sender<Message>,
}

impl Clone for Notify {
    /// Another handle on the same channel.
    fn clone(&self) -> (other: Notify) {
        Notify { sender: self.sender.clone() }
    }
}

impl Notify {
    /// The channel this handle posts to.
    pub closed spec fn sender(&self) -> mio::Sender<Message> {
        self.sender
    }

    /// A handle that posts to `sender`.
    pub fn new(sender: mio::Sender<Message>) -> (notify: Notify)
        ensures
            notify.sender() == sender,
    {
        Notify { sender }
    }

    /// The message that asks the loop to run `callback` once, after `millis`
    /// milliseconds.
    pub fn timer(callback: Thunk, millis: u128) -> (message: Message)
        ensures
            message == Message::Timeout(callback, delay(millis)),
    {
        Message::Timeout(callback, delay_of(millis))
    }

    /// The message that asks the loop to stop.
    pub fn stop() -> (message: Message)
        ensures
            message == Message::Shutdown,
    {
        Message::Shutdown
    }

    /// Posts `stop()`: the loop stops after the turn in which it takes the
    /// message. `true` says that the message was queued.
    pub fn shutdown(&self) -> (queued: bool) {
        let message = Notify::stop();
        post(&self.sender, message)
    }

    /// Posts `timer(callback, ..)` with the whole milliseconds of `when`: the
    /// loop runs `callback` once, `when` from the turn in which it takes the
    /// message. `true` says that the message was queued.
    pub fn timeout(&self, callback: Thunk, when: std::time::Duration) -> (queued: bool) {
        let message = Notify::timer(callback, whole_millis(&when));
        post(&self.sender, message)
    }
}

} // verus!
