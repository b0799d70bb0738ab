//! What passes between the loop handler and the loop that drives it.

use vstd::prelude::*;
use crate::event::EventSet;
use crate::event::PollOpt;
use crate::protocol::Interest;
use crate::Id;

verus! {

/// What is done about a stream's registration.
#[derive(Clone, Copy, PartialEq, Eq, Structural, Debug)]
pub enum Action {
    /// Register the stream again, for these edges.
    Register(EventSet),
    /// Leave the registration as it is.
    Wait,
    /// Deregister the stream and drop it.
    Remove,
}

/// A callback that a timer runs on the loop's thread.
pub trait Callback: Send {
    /// What one call of the callback brings about, as its author states it.
    /// An author who states nothing promises nothing.
    open spec fn promise(&self) -> bool {
        true
    }

    /// Runs the callback.
    fn call(&mut self)
        ensures
            old(self).promise(),
    ;
}

/// `FnMut::call_mut` of a closure that serves as a callback: calls `f` and
/// hands back what it returned, which is nothing. What is claimed of the call
/// is what the closure itself promises: where its own `requires` is met, its
/// own `ensures` holds of the call. Of a closure that states neither, nothing
/// is known.
#[verifier::external_body]
fn call_closure<F: FnMut() + Send>(f: &mut F) -> (done: ())
    ensures
        call_requires(*old(f), ()) ==> call_ensures(*old(f), (), done),
{
    f()
}

impl<F: FnMut() + Send> Callback for F {
    /// A closure promises what its own contract says: where its `requires`
    /// is met, a call ends as its `ensures` says.
    open spec fn promise(&self) -> bool {
        call_requires(*self, ()) ==> call_ensures(*self, (), ())
    }

    /// A call of the callback is a call of the closure.
    fn call(&mut self) {
        call_closure(self)
    }
}

/// A boxed callback.
pub struct Thunk(pub Box<dyn Callback>);

impl Thunk {
    /// Runs the callback once: what a call of the callback promises holds
    /// afterwards.
    pub fn run(&mut self)
        ensures
            old(self).0.promise(),
    {
        self.0.call();
    }
}

/// What another thread tells the loop.
pub enum Message {
    /// Add an interest to the one a stream has.
    Interest(Id, Interest),
    /// Run a callback after so many milliseconds.
    Timeout(Thunk, u64),
    /// Stop the loop after the current turn.
    Shutdown,
}

/// What the loop handler asks of the readiness notifier.
///
/// Every step of the handler returns one operation. Whoever drives the
/// handler performs it and reports back where the operation asks for it.
pub enum Op {
    /// Nothing to do.
    Idle,
    /// Accept on the listener `Id` and hand the outcome to
    /// `LoopHandler::accepted`.
    Accept(Id),
    /// Register the endpoint for the first time. If the notifier refuses,
    /// the endpoint is taken out again with `LoopHandler::remove`.
    Register(Id, EventSet, PollOpt),
    /// Register the stream again. A refusal is not reported.
    Reregister(Id, EventSet, PollOpt),
    /// Deregister the endpoint, then complete with `LoopHandler::remove`.
    Deregister(Id),
    /// Start a timer that runs the callback after so many milliseconds.
    Timeout(Thunk, u64),
    /// Stop after the current turn.
    Shutdown,
}

impl Op {
    /// How every stream is registered: an edge fires one notification, and
    /// none follows until the stream is registered again.
    pub open spec fn stream_opt() -> PollOpt {
        PollOpt::of(true, false, true)
    }

    /// How every listener is registered: it notifies for as long as a
    /// connection waits to be accepted.
    pub open spec fn listener_opt() -> PollOpt {
        PollOpt::of(false, true, false)
    }

    /// The operation that carries out `action` on the stream `id`.
    pub open spec fn of(id: Id, action: Action) -> Op {
        match action {
            Action::Register(events) => Op::Reregister(id, events, Op::stream_opt()),
            Action::Wait => Op::Idle,
            Action::Remove => Op::Deregister(id),
        }
    }

    /// The first operation for a new stream `id` whose factory asked for
    /// `interest`: its registration, or nothing for a stream that is to be
    /// removed at once.
    pub open spec fn first(id: Id, interest: Interest) -> Op {
        if interest == Interest::Remove {
            Op::Idle
        } else {
            Op::Register(id, interest.events(), Op::stream_opt())
        }
    }
}

} // verus!
