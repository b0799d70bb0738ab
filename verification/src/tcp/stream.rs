//! A stream whose bytes come from and go to channels.

use vstd::pervasive::unreached;
use vstd::prelude::*;
use vstd::slice::slice_subrange;
use crate::event::EventSet;
use crate::internal::Action;
use crate::tcp::Polled;

verus! {

/// The reading side. `Tx` is the half that sends what was read.
pub enum Reading<Tx> {
    /// Not started.
    New(Tx),
    /// The sender is away: the consumer has not taken the last bytes yet.
    Waiting,
    /// The consumer is ready for more bytes.
    Reading(Tx),
    /// Nothing more will be read.
    Closed,
}

impl<Tx> Reading<Tx> {
    pub fn new_to_waiting(&mut self) -> (tx: Tx)
        requires
            *old(self) is New,
        ensures
            *final(self) is Waiting,
            tx == old(self)->New_0,
    {
        let mut state = Reading::Waiting;
        core::mem::swap(self, &mut state);
        match state {
            Reading::New(tx) => tx,
            _ => unreached(),
        }
    }

    pub fn waiting_to_reading(&mut self, tx: Tx)
        requires
            *old(self) is Waiting,
        ensures
            *final(self) == Reading::Reading(tx),
    {
        *self = Reading::Reading(tx);
    }

    pub fn reading_to_waiting(&mut self) -> (tx: Tx)
        requires
            *old(self) is Reading,
        ensures
            *final(self) is Waiting,
            tx == old(self)->Reading_0,
    {
        let mut state = Reading::Waiting;
        core::mem::swap(self, &mut state);
        match state {
            Reading::Reading(tx) => tx,
            _ => unreached(),
        }
    }

    pub fn close(&mut self)
        ensures
            *final(self) is Closed,
    {
        *self = Reading::Closed;
    }
}

/// Bytes that are being written, and how many of them are written already.
pub struct Cursor {
    bytes: Vec<u8>,
    pos: usize,
}

/// What one non-blocking write of `Cursor::remaining` brought.
#[derive(Clone, Copy, Debug, PartialEq, Eq, Structural)]
pub enum Wrote {
    /// So many bytes were taken.
    Bytes(usize),
    /// The transport takes no bytes now.
    NotReady,
    /// The transport failed.
    Failed,
}

/// How the writing goes on after one write.
#[derive(Clone, Copy, Debug, PartialEq, Eq, Structural)]
pub enum Progress {
    /// There are bytes left: write again.
    Again,
    /// There are bytes left, but the transport takes none now: wait for the
    /// writable edge.
    Suspend,
    /// All bytes are written: wait for the next.
    Done,
    /// The transport is at its end: close the writing side.
    Close,
}

impl View for Cursor {
    type V = (Seq<u8>, nat);

    /// The bytes and the number of them that are written.
    closed spec fn view(&self) -> (Seq<u8>, nat) {
        (self.bytes@, self.pos as nat)
    }
}

impl Cursor {
    /// Never more is written than there is.
    #[verifier::type_invariant]
    spec fn inv(&self) -> bool {
        self.pos <= self.bytes@.len()
    }

    /// What a write leaves of a cursor at `pos` of `len` bytes: where the
    /// cursor stands then, and how the writing goes on. A transport that
    /// takes no byte is at its end; one that claims more bytes than it was
    /// given has taken them all.
    pub open spec fn step(len: nat, pos: nat, outcome: Wrote) -> (nat, Progress) {
        match outcome {
            Wrote::Bytes(n) => if n == 0 {
                (pos, Progress::Close)
            } else if pos + n < len {
                ((pos + n) as nat, Progress::Again)
            } else {
                (len, Progress::Done)
            },
            Wrote::NotReady => (pos, Progress::Suspend),
            Wrote::Failed => (pos, Progress::Close),
        }
    }

    /// As `step`, with `wrote` absent before the first write: with bytes
    /// left the writing starts, with none it is done at once.
    pub open spec fn next(len: nat, pos: nat, wrote: Option<Wrote>) -> (nat, Progress) {
        match wrote {
            Some(outcome) => Cursor::step(len, pos, outcome),
            None => if pos < len {
                (pos, Progress::Again)
            } else {
                (pos, Progress::Done)
            },
        }
    }

    /// A cursor at the start of `bytes`.
    pub fn new(bytes: Vec<u8>) -> (cursor: Cursor)
        ensures
            cursor@ == (bytes@, 0nat),
    {
        Cursor { bytes, pos: 0 }
    }

    pub fn position(&self) -> (pos: usize)
        ensures
            pos == self@.1,
            pos <= self@.0.len(),
    {
        proof {
            use_type_invariant(self);
        }
        self.pos
    }

    pub fn get_ref(&self) -> (bytes: &Vec<u8>)
        ensures
            bytes@ == self@.0,
    {
        &self.bytes
    }

    /// The bytes that are not written yet.
    pub fn remaining(&self) -> (rest: &[u8])
        ensures
            self@.1 <= self@.0.len(),
            rest@ == self@.0.subrange(self@.1 as int, self@.0.len() as int),
    {
        proof {
            use_type_invariant(self);
        }
        slice_subrange(self.bytes.as_slice(), self.pos, self.bytes.len())
    }

    /// Accounts for one write of `remaining`.
    pub fn wrote(&mut self, outcome: Wrote) -> (next: Progress)
        ensures
            final(self)@.0 == old(self)@.0,
            (final(self)@.1, next) == Cursor::step(old(self)@.0.len(), old(self)@.1, outcome),
    {
        proof {
            use_type_invariant(&*self);
        }
        match outcome {
            Wrote::Bytes(n) => {
                if n == 0 {
                    Progress::Close
                } else if n < self.bytes.len() - self.pos {
                    self.pos = self.pos + n;
                    Progress::Again
                } else {
                    self.pos = self.bytes.len();
                    Progress::Done
                }
            },
            Wrote::NotReady => Progress::Suspend,
            Wrote::Failed => Progress::Close,
        }
    }
}

/// The writing side. `Rx` is the half that receives what is to be written.
pub enum Writing<Rx> {
    /// Not started.
    New(Rx),
    /// The receiver is away: the producer has not sent the next bytes yet.
    Waiting,
    /// There are bytes to write.
    Writing(Cursor, Rx),
    /// Nothing more will be written.
    Closed,
}

impl<Rx> Writing<Rx> {
    pub fn new_to_waiting(&mut self) -> (rx: Rx)
        requires
            *old(self) is New,
        ensures
            *final(self) is Waiting,
            rx == old(self)->New_0,
    {
        let mut state = Writing::Waiting;
        core::mem::swap(self, &mut state);
        match state {
            Writing::New(rx) => rx,
            _ => unreached(),
        }
    }

    pub fn waiting_to_writing(&mut self, bytes: Cursor, rx: Rx)
        requires
            *old(self) is Waiting,
        ensures
            *final(self) == Writing::Writing(bytes, rx),
    {
        *self = Writing::Writing(bytes, rx);
    }

    pub fn writing_to_waiting(&mut self) -> (taken: (Cursor, Rx))
        requires
            *old(self) is Writing,
        ensures
            *final(self) is Waiting,
            taken == (old(self)->Writing_0, old(self)->Writing_1),
    {
        let mut state = Writing::Waiting;
        core::mem::swap(self, &mut state);
        match state {
            Writing::Writing(bytes, rx) => (bytes, rx),
            _ => unreached(),
        }
    }

    pub fn close(&mut self)
        ensures
            *final(self) is Closed,
    {
        *self = Writing::Closed;
    }
}

/// What one non-blocking read brought.
#[derive(Clone, Copy, Debug, PartialEq, Eq, Structural)]
pub enum Got {
    /// So many bytes were read; none means that the other end has closed.
    Bytes(usize),
    /// There is nothing to read now.
    NotReady,
    /// The transport failed.
    Failed,
}

/// What becomes of the sender after one read.
pub enum Deliver<Tx> {
    /// The sender stays with the stream, which goes on reading.
    Kept,
    /// So many bytes are to be sent with the sender, which is then waited
    /// on.
    Send(Tx, usize),
    /// The sender is to be dropped: the bytes have ended.
    End(Tx),
    /// The sender is to be failed with the transport's error.
    Fail(Tx),
}

/// A connected handle `raw` and the two sides of its traffic.
pub struct Stream<R, Tx, Rx> {
    pub raw: R,
    pub reading: Reading<Tx>,
    pub writing: Writing<Rx>,
}

impl<R, Tx, Rx> Stream<R, Tx, Rx> {
    /// What is done about the registration of a stream in these states: it
    /// is watched for the readable edge while the consumer is ready for
    /// bytes and for the writable edge while there are bytes to write; it is
    /// removed when both sides are closed; else it waits.
    pub open spec fn action_of(reading: Reading<Tx>, writing: Writing<Rx>) -> Action {
        if reading is Reading || writing is Writing {
            Action::Register(EventSet::of(reading is Reading, writing is Writing, false, false))
        } else if reading is Closed && writing is Closed {
            Action::Remove
        } else {
            Action::Wait
        }
    }

    /// A stream that has not started: `tx` sends what is read, `rx` receives
    /// what is to be written.
    pub fn new(raw: R, tx: Tx, rx: Rx) -> (stream: Stream<R, Tx, Rx>)
        ensures
            stream.raw == raw,
            stream.reading == Reading::New(tx),
            stream.writing == Writing::New(rx),
    {
        Stream { raw, reading: Reading::New(tx), writing: Writing::New(rx) }
    }

    pub fn raw(&self) -> (raw: &R)
        ensures
            *raw == self.raw,
    {
        &self.raw
    }

    /// The consumer is ready for more bytes.
    pub fn read_want(&mut self, tx: Tx) -> (action: Action)
        requires
            old(self).reading is Waiting,
        ensures
            final(self).raw == old(self).raw,
            final(self).reading == Reading::Reading(tx),
            final(self).writing == old(self).writing,
            action == Self::action_of(final(self).reading, final(self).writing),
    {
        self.reading.waiting_to_reading(tx);
        self.action()
    }

    /// The producer has sent `bytes`.
    pub fn write_want(&mut self, bytes: Vec<u8>, rx: Rx) -> (action: Action)
        requires
            old(self).writing is Waiting,
        ensures
            final(self).raw == old(self).raw,
            final(self).reading == old(self).reading,
            final(self).writing is Writing,
            final(self).writing->Writing_0@ == (bytes@, 0nat),
            final(self).writing->Writing_1 == rx,
            action == Self::action_of(final(self).reading, final(self).writing),
    {
        self.writing.waiting_to_writing(Cursor::new(bytes), rx);
        self.action()
    }

    pub fn read_close(&mut self) -> (action: Action)
        ensures
            final(self).raw == old(self).raw,
            final(self).reading is Closed,
            final(self).writing == old(self).writing,
            action == Self::action_of(final(self).reading, final(self).writing),
    {
        self.reading.close();
        self.action()
    }

    pub fn write_close(&mut self) -> (action: Action)
        ensures
            final(self).raw == old(self).raw,
            final(self).reading == old(self).reading,
            final(self).writing is Closed,
            action == Self::action_of(final(self).reading, final(self).writing),
    {
        self.writing.close();
        self.action()
    }

    pub fn action(&self) -> (action: Action)
        ensures
            action == Self::action_of(self.reading, self.writing),
    {
        match (&self.reading, &self.writing) {
            (Reading::Reading(..), Writing::Writing(..)) => Action::Register(
                EventSet::readable() | EventSet::writable(),
            ),
            (Reading::Reading(..), _) => Action::Register(EventSet::readable()),
            (_, Writing::Writing(..)) => Action::Register(EventSet::writable()),
            (Reading::Closed, Writing::Closed) => Action::Remove,
            _ => Action::Wait,
        }
    }

    /// Starts the stream, after both halves were taken out with
    /// `new_to_waiting` and looked at. A side whose other end is ready
    /// starts working, one whose other end is gone or has nothing more to
    /// send is closed, and one whose other end is not ready yet waits.
    pub fn init(&mut self, tx: Polled<Tx>, rx: Polled<Option<(Vec<u8>, Rx)>>) -> (action: Action)
        requires
            old(self).reading is Waiting,
            old(self).writing is Waiting,
            !(rx is Dropped),
        ensures
            final(self).raw == old(self).raw,
            match tx {
                Polled::Ready(tx) => final(self).reading == Reading::Reading(tx),
                Polled::Dropped => final(self).reading is Closed,
                Polled::Pending => final(self).reading is Waiting,
            },
            match rx {
                Polled::Ready(Some((bytes, rx))) => final(self).writing is Writing && final(
                    self
                ).writing->Writing_0@ == (bytes@, 0nat) && final(self).writing->Writing_1 == rx,
                Polled::Ready(None) => final(self).writing is Closed,
                _ => final(self).writing is Waiting,
            },
            action == Self::action_of(final(self).reading, final(self).writing),
    {
        match tx {
            Polled::Ready(tx) => {
                self.reading.waiting_to_reading(tx);
            },
            Polled::Dropped => {
                self.reading.close();
            },
            Polled::Pending => {},
        }
        match rx {
            Polled::Ready(Some((bytes, rx))) => {
                self.writing.waiting_to_writing(Cursor::new(bytes), rx);
            },
            Polled::Ready(None) => {
                self.writing.close();
            },
            _ => {},
        }
        self.action()
    }

    /// Accounts for one read, after the sender was taken out with
    /// `reading_to_waiting`. The end of the bytes and a failure close the
    /// reading side; bytes leave it waiting until they are sent; with nothing
    /// to read the stream goes on reading.
    pub fn read(&mut self, tx: Tx, got: Got) -> (deliver: Deliver<Tx>)
        requires
            old(self).reading is Waiting,
        ensures
            final(self).raw == old(self).raw,
            final(self).writing == old(self).writing,
            match got {
                Got::Bytes(n) => if n == 0 {
                    final(self).reading is Closed && deliver == Deliver::End(tx)
                } else {
                    final(self).reading is Waiting && deliver == Deliver::Send(tx, n)
                },
                Got::NotReady => final(self).reading == Reading::Reading(tx) && deliver
                    == Deliver::<Tx>::Kept,
                Got::Failed => final(self).reading is Closed && deliver == Deliver::Fail(tx),
            },
    {
        match got {
            Got::Bytes(n) => {
                if n == 0 {
                    self.reading.close();
                    Deliver::End(tx)
                } else {
                    Deliver::Send(tx, n)
                }
            },
            Got::NotReady => {
                self.reading.waiting_to_reading(tx);
                Deliver::Kept
            },
            Got::Failed => {
                self.reading.close();
                Deliver::Fail(tx)
            },
        }
    }

    /// Goes on with the writing, after cursor and receiver were taken out
    /// with `writing_to_waiting`: `wrote` is what the last write of the
    /// cursor's remaining bytes brought, and is absent before the first. The
    /// result says how the writing goes on and hands back what the stream
    /// does not keep: cursor and receiver to write with, the receiver alone
    /// to wait on when all is written.
    pub fn write(&mut self, bytes: Cursor, rx: Rx, wrote: Option<Wrote>) -> (r: (
        Progress,
        Option<Cursor>,
        Option<Rx>,
    ))
        requires
            old(self).writing is Waiting,
        ensures
            final(self).raw == old(self).raw,
            final(self).reading == old(self).reading,
            r.0 == Cursor::next(bytes@.0.len(), bytes@.1, wrote).1,
            match r.0 {
                Progress::Again => final(self).writing is Waiting && r.1 is Some && r.1->0@ == (
                    bytes@.0,
                    Cursor::next(bytes@.0.len(), bytes@.1, wrote).0,
                ) && r.2 == Some(rx),
                Progress::Suspend => final(self).writing is Writing && final(
                    self
                ).writing->Writing_0@ == bytes@ && final(self).writing->Writing_1 == rx && r.1
                    is None && r.2 is None,
                Progress::Done => final(self).writing is Waiting && r.1 is None && r.2 == Some(rx),
                Progress::Close => final(self).writing is Closed && r.1 is None && r.2 is None,
            },
    {
        let mut bytes = bytes;
        let next = match wrote {
            Some(outcome) => bytes.wrote(outcome),
            None => {
                if bytes.position() < bytes.get_ref().len() {
                    Progress::Again
                } else {
                    Progress::Done
                }
            },
        };
        match next {
            Progress::Again => (next, Some(bytes), Some(rx)),
            Progress::Suspend => {
                self.writing.waiting_to_writing(bytes, rx);
                (next, None, None)
            },
            Progress::Done => (next, None, Some(rx)),
            Progress::Close => {
                self.writing.close();
                (next, None, None)
            },
        }
    }
}

} // verus!
