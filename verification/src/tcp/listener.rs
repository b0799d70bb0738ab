//! A listener whose connections go to a consumer one by one.

use vstd::pervasive::unreached;
use vstd::prelude::*;
use crate::event::EventSet;
use crate::internal::Action;
use crate::tcp::Polled;

verus! {

/// Where a listener stands with the consumer of its connections. `Tx` is the
/// half that sends a connection to the consumer.
pub enum State<Tx> {
    /// Not started; the sender has not been used.
    New(Tx),
    /// The sender is away: the consumer has not taken the last connection
    /// yet.
    Waiting,
    /// The consumer is ready for the next connection.
    Listening(Tx),
    /// The listener has ended.
    Closed,
}

impl<Tx> State<Tx> {
    /// The sender the state holds.
    pub open spec fn sender(self) -> Option<Tx> {
        match self {
            State::New(tx) => Some(tx),
            State::Listening(tx) => Some(tx),
            _ => None,
        }
    }

    pub fn is_closed(&self) -> (closed: bool)
        ensures
            closed == (*self is Closed),
    {
        match *self {
            State::Closed => true,
            _ => false,
        }
    }

    /// Takes the sender out, to send with it or to wait on it.
    pub fn wait(&mut self) -> (tx: Tx)
        requires
            *old(self) is New || *old(self) is Listening,
        ensures
            *final(self) is Waiting,
            Some(tx) == old(self).sender(),
    {
        let mut state = State::Waiting;
        core::mem::swap(self, &mut state);
        match state {
            State::New(tx) => tx,
            State::Listening(tx) => tx,
            _ => unreached(),
        }
    }

    /// Puts the sender back: the consumer is ready again.
    pub fn listen(&mut self, tx: Tx)
        requires
            *old(self) is Waiting,
        ensures
            *final(self) == State::Listening(tx),
    {
        *self = State::Listening(tx);
    }

    /// Ends the listener. The result is the sender the state held, which is
    /// to be failed with the error that ended the listener.
    pub fn fail(&mut self) -> (tx: Option<Tx>)
        ensures
            *final(self) is Closed,
            tx == old(self).sender(),
    {
        let mut state = State::Closed;
        core::mem::swap(self, &mut state);
        match state {
            State::New(tx) => Some(tx),
            State::Listening(tx) => Some(tx),
            _ => None,
        }
    }
}

/// What an attempt to accept, and to send on what was accepted, brought.
pub enum Accept<Tx> {
    /// A connection was accepted and sent to the consumer, and this is what
    /// a look at the sender brought afterwards.
    Sent(Polled<Tx>),
    /// There was nothing to accept.
    Nothing,
    /// Accepting failed.
    Failed,
}

/// A listening handle `raw` and its state.
pub struct Listener<R, Tx> {
    pub raw: R,
    pub state: State<Tx>,
}

impl<R, Tx> Listener<R, Tx> {
    pub fn new(raw: R, tx: Tx) -> (listener: Listener<R, Tx>)
        ensures
            listener.raw == raw,
            listener.state == State::New(tx),
    {
        Listener { raw, state: State::New(tx) }
    }

    /// Ends the listener after an error. The result is the sender that is to
    /// be failed with the error, if the listener held one.
    pub fn err(&mut self) -> (tx: Option<Tx>)
        ensures
            final(self).state is Closed,
            final(self).raw == old(self).raw,
            tx == old(self).state.sender(),
    {
        self.state.fail()
    }

    pub fn raw(&self) -> (raw: &R)
        ensures
            *raw == self.raw,
    {
        &self.raw
    }

    /// The consumer is ready for the next connection: the listener is to be
    /// watched for the readable edge.
    pub fn listening(&mut self, tx: Tx) -> (action: Action)
        requires
            old(self).state is Waiting,
        ensures
            final(self).state == State::Listening(tx),
            final(self).raw == old(self).raw,
            action == Action::Register(EventSet::of(true, false, false, false)),
    {
        self.state.listen(tx);
        Action::Register(EventSet::readable())
    }

    /// Starts or resumes listening, after the sender was taken out with
    /// `State::wait` and looked at. A consumer that is ready has the listener
    /// watched for the readable edge; one that is gone has it removed; one
    /// that is not ready yet leaves it waiting.
    pub fn listen(&mut self, tx: Polled<Tx>) -> (action: Action)
        requires
            old(self).state is Waiting,
        ensures
            final(self).raw == old(self).raw,
            match tx {
                Polled::Ready(tx) => final(self).state == State::Listening(tx) && action
                    == Action::Register(EventSet::of(true, false, false, false)),
                Polled::Dropped => final(self).state == old(self).state && action
                    == Action::Remove,
                Polled::Pending => final(self).state == old(self).state && action == Action::Wait,
            },
    {
        match tx {
            Polled::Ready(tx) => self.listening(tx),
            Polled::Dropped => Action::Remove,
            Polled::Pending => Action::Wait,
        }
    }

    /// Whether an accept is to be attempted at all: on a closed listener
    /// none is, and `accept` is told that there was nothing.
    pub fn may_accept(&self) -> (may: bool)
        ensures
            may == !(self.state is Closed),
    {
        !self.state.is_closed()
    }

    /// What `accept` makes of a listener that is not closed: whether the
    /// accepted connection is kept, what is done about the registration, the
    /// sender that is to be failed, and the state afterwards.
    pub open spec fn accepts(state: State<Tx>, outcome: Accept<Tx>) -> (
        bool,
        Action,
        Option<Tx>,
        State<Tx>,
    ) {
        let watch = Action::Register(EventSet::of(true, false, false, false));
        match outcome {
            Accept::Sent(Polled::Ready(tx)) => (true, watch, None, State::Listening(tx)),
            Accept::Sent(Polled::Dropped) => (false, Action::Remove, None, State::Closed),
            Accept::Sent(Polled::Pending) => (true, Action::Wait, None, state),
            Accept::Nothing => (false, watch, None, state),
            Accept::Failed => (false, Action::Remove, state.sender(), State::Closed),
        }
    }

    /// Accounts for one attempt to accept. The result says whether the
    /// accepted connection is kept, what is done about the listener's
    /// registration, and which sender is to be failed.
    ///
    /// A closed listener is removed, whatever the outcome. Else a connection
    /// that was sent is kept unless the consumer is gone, which closes the
    /// listener; the listener goes on listening if the consumer is ready for
    /// the next connection and waits if it is not. With nothing to accept the
    /// listener is watched again. A failure closes it, and the sender it held
    /// is to be failed.
    pub fn accept(&mut self, outcome: Accept<Tx>) -> (r: (bool, Action, Option<Tx>))
        requires
            outcome is Sent ==> old(self).state is Waiting,
        ensures
            final(self).raw == old(self).raw,
            old(self).state is Closed ==> final(self).state is Closed && r == (
                false,
                Action::Remove,
                None::<Tx>,
            ),
            !(old(self).state is Closed) ==> (r.0, r.1, r.2, final(self).state) == Self::accepts(
                old(self).state,
                outcome,
            ),
    {
        if self.state.is_closed() {
            return (false, Action::Remove, None);
        }
        match outcome {
            Accept::Sent(Polled::Ready(tx)) => (true, self.listening(tx), None),
            Accept::Sent(Polled::Dropped) => {
                self.state = State::Closed;
                (false, Action::Remove, None)
            },
            Accept::Sent(Polled::Pending) => (true, Action::Wait, None),
            Accept::Nothing => (false, Action::Register(EventSet::readable()), None),
            Accept::Failed => {
                let tx = self.state.fail();
                (false, Action::Remove, tx)
            },
        }
    }
}

} // verus!
