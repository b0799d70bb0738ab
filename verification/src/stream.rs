//! One connection: its transport, its protocol, and what it waits for.

use vstd::prelude::*;
use crate::event::EventSet;
use crate::fault_of;
use crate::internal::Action;
use crate::internal::Op;
use crate::protocol::Interest;
use crate::protocol::Protocol;
use crate::transport::Transport;
use crate::Error;
use crate::Fault;
use crate::Id;

verus! {

/// How many times one callback is called within a turn at most. A callback
/// that was interrupted is called again; a direction whose callback was
/// interrupted this many times rests until the next turn, as if it would
/// block.
pub const MAX_ATTEMPTS: usize = 16;

/// One callback that a stream made on its protocol.
pub ghost enum Call {
    /// `on_readable`, with its result as the stream took it: the interest it
    /// gave, or the kind of its error.
    Readable(Result<Interest, Fault>),
    /// `on_writable`, with its result as the stream took it.
    Writable(Result<Interest, Fault>),
    /// `on_error`.
    Error,
}

impl Call {
    /// The call of one direction, `on_readable` if `readable` and
    /// `on_writable` if not.
    pub open spec fn of(readable: bool, outcome: Result<Interest, Fault>) -> Call {
        if readable {
            Call::Readable(outcome)
        } else {
            Call::Writable(outcome)
        }
    }

    /// The calls of one direction whose callback was interrupted `again`
    /// times and then returned `outcome`: the callback each time, and
    /// `on_error` after it where it failed for good.
    pub open spec fn run(readable: bool, again: nat, outcome: Result<Interest, Fault>) -> Seq<
        Call,
    > {
        let tried = Seq::new(again, |i: int| Call::of(readable, Err(Fault::Interrupted))).push(
            Call::of(readable, outcome),
        );
        if outcome == Err::<Interest, Fault>(Fault::Fatal) {
            tried.push(Call::Error)
        } else {
            tried
        }
    }

    /// Whether `made` are the calls of one direction that was interrupted
    /// `again` times and then returned `outcome`, and `end` is the interest
    /// this leaves of `start`. The callback is called `MAX_ATTEMPTS` times at
    /// most, and only after the last of them may the direction rest
    /// interrupted.
    pub open spec fn runs_as(
        readable: bool,
        start: Interest,
        made: Seq<Call>,
        end: Interest,
        again: nat,
        outcome: Result<Interest, Fault>,
    ) -> bool {
        &&& again < MAX_ATTEMPTS
        &&& outcome == Err::<Interest, Fault>(Fault::Interrupted) ==> again + 1 == MAX_ATTEMPTS
        &&& made == Call::run(readable, again, outcome)
        &&& end == start.after(outcome)
    }

    /// Whether `made` may be the calls of one direction, and `end` the
    /// interest they leave of `start`.
    pub open spec fn runs(readable: bool, start: Interest, made: Seq<Call>, end: Interest) -> bool {
        exists|again: nat, outcome: Result<Interest, Fault>| #[trigger]
            Call::runs_as(readable, start, made, end, again, outcome)
    }

    /// Whether the calls `made` end with `on_error`.
    pub open spec fn failed(made: Seq<Call>) -> bool {
        made.len() > 0 && made.last() == Call::Error
    }

    /// As `runs`, for a direction that runs only if it is `due`: one that is
    /// not makes no call and leaves the interest as it is.
    pub open spec fn leg(
        due: bool,
        readable: bool,
        start: Interest,
        made: Seq<Call>,
        end: Interest,
    ) -> bool {
        if due {
            Call::runs(readable, start, made, end)
        } else {
            made.len() == 0 && end == start
        }
    }
}

/// One callback as a stream made it: the protocol and the transport it was
/// made on, what it left of them, and what it was given or gave.
pub ghost enum Made<P, T> {
    /// `on_readable` if `readable`, else `on_writable`, and what it returned.
    Answer { readable: bool, start: (P, T), end: (P, T), answer: Result<Interest, std::io::Error> },
    /// `on_error`, and the error it was given.
    Error { start: (P, T), end: (P, T), error: Error },
}

impl<P: Protocol<T>, T: Transport> Made<P, T> {
    /// The call in short: which callback it was, and how the stream took
    /// what it returned.
    pub open spec fn call(self) -> Call {
        match self {
            Made::Answer { readable, answer, .. } => Call::of(readable, Fault::taken(answer)),
            Made::Error { .. } => Call::Error,
        }
    }

    /// The protocol and the transport the call was made on.
    pub open spec fn from(self) -> (P, T) {
        match self {
            Made::Answer { start, .. } => start,
            Made::Error { start, .. } => start,
        }
    }

    /// The protocol and the transport the call left.
    pub open spec fn to(self) -> (P, T) {
        match self {
            Made::Answer { end, .. } => end,
            Made::Error { end, .. } => end,
        }
    }

    /// Whether the call is one that the protocol's author allows: what it
    /// left and returned meets the promise of the callback. `on_error` is
    /// not handed the transport, which is as it was.
    pub open spec fn kept(self) -> bool {
        match self {
            Made::Answer { readable, start, end, answer } => if readable {
                start.0.reads(&start.1, &end.0, &end.1, &answer)
            } else {
                start.0.writes(&start.1, &end.0, &end.1, &answer)
            },
            Made::Error { start, end, error } => start.0.fails(&error, &end.0) && end.1 == start.1,
        }
    }
}

/// How a direction goes on after one call of its callback.
#[derive(Clone, Copy, Debug, PartialEq, Eq, Structural)]
pub enum Step {
    /// The direction has settled.
    Done,
    /// The callback was interrupted and is called again.
    Again,
    /// The callback failed for good: `on_error` is called, and the delivery
    /// ends.
    Fail,
}

impl Step {
    /// The step after the callback returned `outcome` on the call that made
    /// `tried` calls in all. An answer and an error that would block settle
    /// the direction. An interruption has the callback called again, unless
    /// it was the last of `MAX_ATTEMPTS` calls, after which the direction
    /// rests. Any other error fails.
    pub open spec fn after(outcome: Result<Interest, Fault>, tried: nat) -> Step {
        match outcome {
            Ok(_) => Step::Done,
            Err(Fault::WouldBlock) => Step::Done,
            Err(Fault::Interrupted) => if tried < MAX_ATTEMPTS {
                Step::Again
            } else {
                Step::Done
            },
            Err(Fault::Fatal) => Step::Fail,
        }
    }

    /// The step after the callback returned `outcome` on the call that made
    /// `tried` calls in all.
    pub fn of(outcome: Result<Interest, Fault>, tried: usize) -> (step: Step)
        ensures
            step == Step::after(outcome, tried as nat),
    {
        match outcome {
            Ok(_) => Step::Done,
            Err(Fault::WouldBlock) => Step::Done,
            Err(Fault::Interrupted) => {
                if tried < MAX_ATTEMPTS {
                    Step::Again
                } else {
                    Step::Done
                }
            },
            Err(Fault::Fatal) => Step::Fail,
        }
    }
}

/// A transport, the protocol that drives it, the interest the protocol last
/// declared, and the edges the notifier was last asked to watch.
///
/// `calls` and `made` exist for the contracts alone: they are written where
/// a callback is called, and so record every callback the stream makes.
pub struct Stream<P: Protocol<T>, T: Transport> {
    transport: T,
    protocol: P,
    interest: Interest,
    registered: EventSet,
    calls: Ghost<Seq<Call>>,
    made: Ghost<Seq<Made<P, T>>>,
}

/// What a `Stream` holds.
pub ghost struct StreamView<P, T> {
    pub transport: T,
    pub protocol: P,
    pub interest: Interest,
    pub registered: EventSet,
    /// Every callback the stream has made, the first one first.
    pub calls: Seq<Call>,
    /// The same callbacks in full: what each was made on and what it left.
    pub made: Seq<Made<P, T>>,
}

impl<P: Protocol<T>, T: Transport> StreamView<P, T> {
    /// What is done about the registration: the action of the interest,
    /// but `Wait` where the notifier already watches the edges the stream
    /// waits for.
    pub open spec fn action(self) -> Action {
        if self.interest.wants_events() && self.interest.events() == self.registered {
            Action::Wait
        } else {
            self.interest.action()
        }
    }

    /// Whether the notifier watches exactly what the stream waits for. Of a
    /// stream that waits for nothing, or is to be removed, nothing is asked.
    pub open spec fn settled(self) -> bool {
        self.interest.wants_events() ==> self.registered == self.interest.events()
    }

    /// Whether the stream has kept to the rule of `on_error`: if it has made
    /// that call at all, it was its last call, and the stream is marked for
    /// removal.
    pub open spec fn sound(self) -> bool {
        forall|i: int|
            0 <= i < self.calls.len() && #[trigger] self.calls[i] == Call::Error ==> i
                == self.calls.len() - 1 && self.interest == Interest::Remove
    }

    /// The stream after the notifier delivered what it watched: a
    /// registration fires once.
    pub open spec fn fired(self) -> StreamView<P, T> {
        StreamView { registered: EventSet::of(false, false, false, false), ..self }
    }

    /// The stream after a request for `interest` was added to what it waits
    /// for.
    pub open spec fn wanting(self, interest: Interest) -> StreamView<P, T> {
        StreamView { interest: self.interest.plus(interest), ..self }
    }

    /// The stream after `action` was carried out on it.
    pub open spec fn apply(self, action: Action) -> StreamView<P, T> {
        match action {
            Action::Register(events) => StreamView { registered: events, ..self },
            Action::Wait => self,
            Action::Remove => StreamView { interest: Interest::Remove, ..self },
        }
    }

    /// Whether a delivery of the readable and the writable edge to `self` may
    /// leave `after`, with `reads` the calls of the readable direction, which
    /// leave the interest `between`, and `writes` those of the writable
    /// direction. The readable direction runs first, and the writable one
    /// runs after it whatever interest it left; only `on_error` ends a
    /// delivery early.
    pub open spec fn delivers_as(
        self,
        events: EventSet,
        after: StreamView<P, T>,
        reads: Seq<Call>,
        between: Interest,
        writes: Seq<Call>,
    ) -> bool {
        &&& Call::leg(events.readable, true, self.interest, reads, between)
        &&& Call::leg(events.writable && !Call::failed(reads), false, between, writes, after.interest)
        &&& after.calls == self.calls + reads + writes
    }

    /// Whether the callback that `after` records at `i` was made in its
    /// turn: as its author's promise allows, on what `self` holds if it was
    /// the first since `self`, else on what the one before left. `made` tells
    /// of the callback in full what `calls` tells in short.
    pub open spec fn link(self, after: StreamView<P, T>, i: int) -> bool {
        let made = after.made[i];
        &&& made.kept()
        &&& made.call() == after.calls[self.calls.len() + (i - self.made.len())]
        &&& made.from() == (if i == self.made.len() {
            (self.protocol, self.transport)
        } else {
            after.made[i - 1].to()
        })
    }

    /// Whether the callbacks made between `self` and `after` were made in a
    /// row on the stream's own protocol and transport: each in its turn, as
    /// `link` says, and `after` holds what the last one left.
    pub open spec fn honest(self, after: StreamView<P, T>) -> bool {
        let base = self.made.len() as int;
        let count = after.calls.len() - self.calls.len();
        &&& count >= 0
        &&& after.made.len() == base + count
        &&& forall|i: int| 0 <= i < base ==> #[trigger] after.made[i] == self.made[i]
        &&& forall|i: int| base <= i < base + count ==> #[trigger] self.link(after, i)
        &&& (after.protocol, after.transport) == (if count == 0 {
            (self.protocol, self.transport)
        } else {
            after.made[base + count - 1].to()
        })
    }

    /// Whether `after` may be what a delivery of `events` leaves of the
    /// stream.
    ///
    /// With the error condition set, or of a stream that is marked for
    /// removal already, no callback is made and the stream is marked for
    /// removal. Else the callbacks are made as `delivers_as` says, and the
    /// interest is what their results leave of it. What the callbacks do to
    /// the protocol and the transport is theirs to decide, within what their
    /// author promises: `honest`. Where none was made, both are as they
    /// were.
    pub open spec fn delivers(self, events: EventSet, after: StreamView<P, T>) -> bool {
        &&& after.registered == self.registered
        &&& if events.error || self.interest == Interest::Remove {
            after == (StreamView { interest: Interest::Remove, ..self })
        } else {
            exists|reads: Seq<Call>, between: Interest, writes: Seq<Call>| #[trigger]
                self.delivers_as(events, after, reads, between, writes)
        }
        &&& self.honest(after)
        &&& after.calls == self.calls ==> after.transport == self.transport && after.protocol
            == self.protocol
    }

    /// Whether one turn of the loop may take the stream `id` from `self` to
    /// `after` and ask the notifier for `op`: `events` are delivered, then
    /// the action of the stream is carried out.
    pub open spec fn turns(self, events: EventSet, after: StreamView<P, T>, id: Id, op: Op) -> bool {
        let reached = StreamView { registered: self.registered, ..after };
        &&& self.delivers(events, reached)
        &&& after == reached.apply(reached.action())
        &&& op == Op::of(id, reached.action())
    }
}

impl<P: Protocol<T>, T: Transport> View for Stream<P, T> {
    type V = StreamView<P, T>;

    closed spec fn view(&self) -> StreamView<P, T> {
        StreamView {
            transport: self.transport,
            protocol: self.protocol,
            interest: self.interest,
            registered: self.registered,
            calls: self.calls@,
            made: self.made@,
        }
    }
}

impl<P: Protocol<T>, T: Transport> Stream<P, T> {
    /// A stream that is not registered yet.
    pub fn new(transport: T, protocol: P, interest: Interest) -> (stream: Stream<P, T>)
        ensures
            stream@.transport == transport,
            stream@.protocol == protocol,
            stream@.interest == interest,
            stream@.registered == EventSet::of(false, false, false, false),
            stream@.calls == Seq::<Call>::empty(),
            stream@.made.len() == 0,
    {
        Stream {
            transport,
            protocol,
            interest,
            registered: EventSet::none(),
            calls: Ghost(Seq::empty()),
            made: Ghost(Seq::empty()),
        }
    }

    /// Delivers `events` to the protocol.
    ///
    /// With the error condition set, the stream is marked for removal and no
    /// callback runs; a stream that is marked for removal already receives
    /// no callback either. Else `on_readable` runs if the readable edge is
    /// set, then `on_writable` if the writable edge is set, and the answer of
    /// the last callback is the stream's interest.
    ///
    /// In each direction, a result `Ok` becomes the stream's interest. A
    /// callback that would block leaves the interest as it is. A callback
    /// that was interrupted is called again, up to `MAX_ATTEMPTS` times in
    /// all. A callback that fails for good has its error delivered to
    /// `on_error`, the stream is marked for removal, and the delivery ends.
    pub fn ready(&mut self, events: EventSet)
        ensures
            old(self)@.delivers(events, final(self)@),
    {
        if events.is_error() || self.interest == Interest::Remove {
            self.interest = Interest::Remove;
            return ;
        }
        let mut failed = false;
        if events.is_readable() {
            failed = self.deliver(true);
        }
        let ghost reads = self@.calls.skip(old(self)@.calls.len() as int);
        let ghost between = self@.interest;
        let ghost halfway = self@;
        if events.is_writable() && !failed {
            self.deliver(false);
        }
        proof {
            let writes = self@.calls.skip(halfway.calls.len() as int);
            assert(halfway.calls =~= old(self)@.calls + reads);
            assert(failed == Call::failed(reads));
            assert(old(self)@.delivers_as(events, self@, reads, between, writes));
            lemma_honest_joins(old(self)@, halfway, self@);
        }
    }

    /// Calls one callback, `on_readable` if `readable` and `on_writable` if
    /// not, and records the call with what it returned.
    fn call(&mut self, readable: bool) -> (answer: Result<Interest, std::io::Error>)
        ensures
            readable ==> old(self)@.protocol.reads(
                &old(self)@.transport,
                &final(self)@.protocol,
                &final(self)@.transport,
                &answer,
            ),
            !readable ==> old(self)@.protocol.writes(
                &old(self)@.transport,
                &final(self)@.protocol,
                &final(self)@.transport,
                &answer,
            ),
            final(self)@.interest == old(self)@.interest,
            final(self)@.registered == old(self)@.registered,
            final(self)@.calls == old(self)@.calls.push(Call::of(readable, Fault::taken(answer))),
            final(self)@.made == old(self)@.made.push(
                Made::Answer {
                    readable,
                    start: (old(self)@.protocol, old(self)@.transport),
                    end: (final(self)@.protocol, final(self)@.transport),
                    answer,
                },
            ),
    {
        let answer = if readable {
            self.protocol.on_readable(&mut self.transport)
        } else {
            self.protocol.on_writable(&mut self.transport)
        };
        self.calls = Ghost(self.calls@.push(Call::of(readable, Fault::taken(answer))));
        self.made = Ghost(
            self.made@.push(
                Made::Answer {
                    readable,
                    start: (old(self).protocol, old(self).transport),
                    end: (self.protocol, self.transport),
                    answer,
                },
            ),
        );
        answer
    }

    /// Calls `on_error` with `error` and records the call.
    fn fail(&mut self, error: std::io::Error)
        ensures
            old(self)@.protocol.fails(&Error::Io(error), &final(self)@.protocol),
            final(self)@.interest == old(self)@.interest,
            final(self)@.registered == old(self)@.registered,
            final(self)@.transport == old(self)@.transport,
            final(self)@.calls == old(self)@.calls.push(Call::Error),
            final(self)@.made == old(self)@.made.push(
                Made::Error {
                    start: (old(self)@.protocol, old(self)@.transport),
                    end: (final(self)@.protocol, final(self)@.transport),
                    error: Error::Io(error),
                },
            ),
    {
        self.protocol.on_error(Error::Io(error));
        self.calls = Ghost(self.calls@.push(Call::Error));
        self.made = Ghost(
            self.made@.push(
                Made::Error {
                    start: (old(self).protocol, old(self).transport),
                    end: (self.protocol, self.transport),
                    error: Error::Io(error),
                },
            ),
        );
    }

    /// Runs one direction, `on_readable` if `readable` and `on_writable` if
    /// not, until it settles: after each call the interest is
    /// `Interest::after` of the answer, and the direction goes on as
    /// `Step::after` says. The result says whether `on_error` ran.
    fn deliver(&mut self, readable: bool) -> (failed: bool)
        ensures
            final(self)@.registered == old(self)@.registered,
            final(self)@.calls.len() > old(self)@.calls.len(),
            final(self)@.calls == old(self)@.calls + final(self)@.calls.skip(
                old(self)@.calls.len() as int,
            ),
            Call::runs(
                readable,
                old(self)@.interest,
                final(self)@.calls.skip(old(self)@.calls.len() as int),
                final(self)@.interest,
            ),
            failed == (final(self)@.calls.last() == Call::Error),
            failed ==> final(self)@.interest == Interest::Remove,
            old(self)@.honest(final(self)@),
    {
        let ghost start = self.interest;
        let ghost before = self.calls@;
        let ghost interrupted = Call::of(readable, Err(Fault::Interrupted));
        let mut tried: usize = 0;
        loop
            invariant
                tried < MAX_ATTEMPTS,
                self@.registered == old(self)@.registered,
                self@.interest == start,
                start == old(self)@.interest,
                before == old(self)@.calls,
                interrupted == Call::of(readable, Err(Fault::Interrupted)),
                self@.calls == before + Seq::new(tried as nat, |i: int| interrupted),
                old(self)@.honest(self@),
            decreases MAX_ATTEMPTS - tried,
        {
            let ghost reached = self@;
            let answer = self.call(readable);
            proof {
                lemma_honest_grows(old(self)@, reached, self@);
            }
            tried = tried + 1;
            let outcome: Result<Interest, Fault> = match &answer {
                Ok(next) => Ok(*next),
                Err(e) => Err(fault_of(e)),
            };
            assert(outcome == Fault::taken(answer));
            let ghost called = self@;
            self.interest = self.interest.settle(outcome);
            proof {
                lemma_honest_whatever_interest(old(self)@, called, self@);
            }
            match Step::of(outcome, tried) {
                Step::Done => {
                    proof {
                        lemma_run_made(
                            before,
                            self@.calls,
                            readable,
                            start,
                            (tried - 1) as nat,
                            outcome,
                        );
                    }
                    return false;
                },
                Step::Again => {
                    assert(self@.calls =~= before + Seq::new(tried as nat, |i: int| interrupted));
                },
                Step::Fail => {
                    let ghost reached = self@;
                    if let Err(e) = answer {
                        self.fail(e);
                    }
                    proof {
                        lemma_honest_grows(old(self)@, reached, self@);
                        lemma_run_made(
                            before,
                            self@.calls,
                            readable,
                            start,
                            (tried - 1) as nat,
                            outcome,
                        );
                    }
                    return true;
                },
            }
        }
    }

    pub fn transport(&self) -> (transport: &T)
        ensures
            *transport == self@.transport,
    {
        &self.transport
    }

    pub fn interest(&self) -> (interest: Interest)
        ensures
            interest == self@.interest,
    {
        self.interest
    }

    /// The edges the notifier was last asked to watch for this stream, as
    /// far as no notification has used them up.
    pub fn registered(&self) -> (events: EventSet)
        ensures
            events == self@.registered,
    {
        self.registered
    }

    /// Adds `interest` to what the stream waits for.
    pub fn want(&mut self, interest: Interest)
        ensures
            final(self)@ == (StreamView {
                interest: old(self)@.interest.plus(interest),
                ..old(self)@
            }),
    {
        self.interest = self.interest + interest;
    }

    /// Marks the stream for removal.
    pub fn close(&mut self)
        ensures
            final(self)@ == (StreamView { interest: Interest::Remove, ..old(self)@ }),
    {
        self.interest = Interest::Remove;
    }

    /// Records that the notifier has delivered the edges it watched: a
    /// registration fires once, so it watches nothing until the stream is
    /// registered again.
    pub fn fired(&mut self)
        ensures
            final(self)@ == (StreamView {
                registered: EventSet::of(false, false, false, false),
                ..old(self)@
            }),
    {
        self.registered = EventSet::none();
    }

    /// Records that the notifier was asked to watch `events`.
    pub fn armed(&mut self, events: EventSet)
        ensures
            final(self)@ == (StreamView { registered: events, ..old(self)@ }),
    {
        self.registered = events;
    }

    /// What is done about the registration now: the action of the stream's
    /// interest, but `Action::Wait` where the notifier already watches the
    /// edges the stream waits for.
    pub fn action(&self) -> (action: Action)
        ensures
            action == self@.action(),
    {
        let action: Action = self.interest.into();
        match action {
            Action::Register(events) => {
                if events == self.registered {
                    Action::Wait
                } else {
                    action
                }
            },
            _ => action,
        }
    }

    /// Hands the transport to the protocol's `on_remove`, which ends both.
    pub fn removed(self) {
        self.protocol.on_remove(self.transport);
    }
}

/// One more callback, made on what the stream held and kept as promised,
/// carries an honest row of callbacks on.
proof fn lemma_honest_grows<P: Protocol<T>, T: Transport>(
    before: StreamView<P, T>,
    reached: StreamView<P, T>,
    after: StreamView<P, T>,
)
    requires
        before.honest(reached),
        after.made == reached.made.push(after.made.last()),
        after.calls == reached.calls.push(after.made.last().call()),
        after.made.last().kept(),
        after.made.last().from() == (reached.protocol, reached.transport),
        after.made.last().to() == (after.protocol, after.transport),
    ensures
        before.honest(after),
{
    let base = before.made.len() as int;
    let last = reached.made.len() as int;
    assert forall|i: int| base <= i < last + 1 implies #[trigger] before.link(after, i) by {
        if i < last {
            assert(before.link(reached, i));
        }
    }
}

/// What a stream waits for has no part in whether its callbacks were made in
/// a row.
proof fn lemma_honest_whatever_interest<P: Protocol<T>, T: Transport>(
    before: StreamView<P, T>,
    reached: StreamView<P, T>,
    after: StreamView<P, T>,
)
    requires
        before.honest(reached),
        after.made == reached.made,
        after.calls == reached.calls,
        after.protocol == reached.protocol,
        after.transport == reached.transport,
    ensures
        before.honest(after),
{
    assert forall|i: int|
        before.made.len() <= i < after.made.len() implies #[trigger] before.link(after, i) by {
        assert(before.link(reached, i));
    }
}

/// Two honest rows of callbacks, one after the other, are one honest row.
proof fn lemma_honest_joins<P: Protocol<T>, T: Transport>(
    before: StreamView<P, T>,
    halfway: StreamView<P, T>,
    after: StreamView<P, T>,
)
    requires
        before.honest(halfway),
        halfway.honest(after),
        forall|i: int| 0 <= i < halfway.calls.len() ==> after.calls[i] == halfway.calls[i],
    ensures
        before.honest(after),
{
    let base = before.made.len() as int;
    let middle = halfway.made.len() as int;
    let end = after.made.len() as int;
    assert forall|i: int| base <= i < end implies #[trigger] before.link(after, i) by {
        if i < middle {
            assert(before.link(halfway, i));
            assert(after.made[i] == halfway.made[i]);
            if i > base {
                assert(after.made[i - 1] == halfway.made[i - 1]);
            }
        } else {
            assert(halfway.link(after, i));
            if i == middle && middle > base {
                assert(after.made[middle - 1] == halfway.made[middle - 1]);
            }
        }
    }
    assert forall|i: int| 0 <= i < base implies #[trigger] after.made[i] == before.made[i] by {
        assert(after.made[i] == halfway.made[i]);
    }
    if end == middle && middle > base {
        assert(after.made[middle - 1] == halfway.made[middle - 1]);
    }
}

/// The callback that a delivery records at `i` was made in its turn.
pub proof fn lemma_made_in_turn<P: Protocol<T>, T: Transport>(
    before: StreamView<P, T>,
    events: EventSet,
    after: StreamView<P, T>,
    i: int,
)
    requires
        before.delivers(events, after),
        before.made.len() <= i < after.made.len(),
    ensures
        before.link(after, i),
        after.made.len() - before.made.len() == after.calls.len() - before.calls.len(),
        (after.protocol, after.transport) == after.made.last().to(),
{
}

/// What was added to `before` to give `calls`, where that is one run of a
/// direction: the calls after the first `before.len()`.
proof fn lemma_run_made(
    before: Seq<Call>,
    calls: Seq<Call>,
    readable: bool,
    start: Interest,
    again: nat,
    outcome: Result<Interest, Fault>,
)
    requires
        calls =~= before + Call::run(readable, again, outcome),
        again < MAX_ATTEMPTS,
        outcome == Err::<Interest, Fault>(Fault::Interrupted) ==> again + 1 == MAX_ATTEMPTS,
    ensures
        Call::runs(readable, start, calls.skip(before.len() as int), start.after(outcome)),
        calls == before + calls.skip(before.len() as int),
        calls.len() > before.len(),
        (calls.last() == Call::Error) == (outcome == Err::<Interest, Fault>(Fault::Fatal)),
{
    let made = calls.skip(before.len() as int);
    assert(made =~= Call::run(readable, again, outcome));
    assert(Call::runs_as(readable, start, made, start.after(outcome), again, outcome));
}

/// A delivery of no edge makes no call and leaves the stream as it is.
pub proof fn lemma_no_edge_no_call<P: Protocol<T>, T: Transport>(before: StreamView<P, T>, events: EventSet)
    requires
        !events.readable,
        !events.writable,
        !events.error,
    ensures
        before.delivers(events, before),
{
    let none = Seq::<Call>::empty();
    assert(before.delivers_as(events, before, none, before.interest, none));
}

/// After a turn the notifier watches what the stream waits for, and the
/// operation of the turn is the one that brought this about: nothing, where
/// the stream waits for nothing or the notifier watches the edges already; a
/// new registration for the edges of the stream's interest; or the
/// deregistration of a stream that is to be removed, and of no other.
pub proof fn lemma_turn_settles<P: Protocol<T>, T: Transport>(
    before: StreamView<P, T>,
    events: EventSet,
    after: StreamView<P, T>,
    id: Id,
    op: Op,
)
    requires
        before.turns(events, after, id, op),
    ensures
        after.settled(),
        op is Idle || op is Reregister || op is Deregister,
        op == Op::Deregister(id) <==> after.interest == Interest::Remove,
        op is Reregister ==> op == Op::Reregister(id, after.interest.events(), Op::stream_opt())
            && after.interest.wants_events() && after.registered == after.interest.events()
            && before.registered != after.interest.events(),
        op is Idle ==> after.registered == before.registered,
{
}

/// A stream that is marked for removal receives no callback: a turn leaves
/// its protocol, its transport and its interest as they are, and asks for the
/// deregistration.
pub proof fn lemma_removed_stream_is_left_alone<P: Protocol<T>, T: Transport>(
    before: StreamView<P, T>,
    events: EventSet,
    after: StreamView<P, T>,
    id: Id,
    op: Op,
)
    requires
        before.interest == Interest::Remove,
        before.turns(events, after, id, op),
    ensures
        after == before,
        op == Op::Deregister(id),
{
}

/// A stream whose callbacks leave it with `Remove` is deregistered in the
/// same turn, whatever was delivered; and so is every stream to which the
/// error condition is delivered, without a callback.
pub proof fn lemma_remove_deregisters<P: Protocol<T>, T: Transport>(
    before: StreamView<P, T>,
    events: EventSet,
    after: StreamView<P, T>,
    id: Id,
    op: Op,
)
    requires
        before.turns(events, after, id, op),
    ensures
        after.interest == Interest::Remove ==> op == Op::Deregister(id),
        events.error ==> op == Op::Deregister(id) && after.protocol == before.protocol
            && after.transport == before.transport,
{
}

/// A stream whose callbacks leave it with `Wait` is not registered again:
/// the turn asks nothing of the notifier and records no registration.
pub proof fn lemma_waiting_stream_is_not_registered<P: Protocol<T>, T: Transport>(
    before: StreamView<P, T>,
    events: EventSet,
    after: StreamView<P, T>,
    id: Id,
    op: Op,
)
    requires
        before.turns(events, after, id, op),
        after.interest == Interest::Wait,
    ensures
        op == Op::Idle,
        after.registered == before.registered,
{
}

/// A registration fires once. So after the notifier has delivered events to
/// a stream, a stream that still waits for an edge is registered again, for
/// exactly the edges of its interest: a stream is not left waiting for an
/// edge that nothing watches.
pub proof fn lemma_fired_stream_is_registered_again<P: Protocol<T>, T: Transport>(
    before: StreamView<P, T>,
    events: EventSet,
    after: StreamView<P, T>,
    id: Id,
    op: Op,
)
    requires
        before.fired().turns(events, after, id, op),
        after.interest.wants_events(),
    ensures
        op == Op::Reregister(id, after.interest.events(), Op::stream_opt()),
        after.registered == after.interest.events(),
{
}

/// A request for an interest that the notifier already watches, made of a
/// stream whose callbacks do not change it, asks nothing of the notifier.
pub proof fn lemma_repeated_request_is_coalesced<P: Protocol<T>, T: Transport>(
    before: StreamView<P, T>,
    events: EventSet,
    after: StreamView<P, T>,
    id: Id,
    op: Op,
)
    requires
        before.turns(events, after, id, op),
        after.interest.wants_events(),
        before.registered == after.interest.events(),
    ensures
        op == Op::Idle,
        after.registered == before.registered,
{
}

/// The answer of the last callback of a delivery is the stream's interest
/// after it.
pub proof fn lemma_last_answer_counts<P: Protocol<T>, T: Transport>(
    before: StreamView<P, T>,
    events: EventSet,
    after: StreamView<P, T>,
    readable: bool,
    answer: Interest,
)
    requires
        before.delivers(events, after),
        after.calls.len() > before.calls.len(),
        after.calls.last() == Call::of(readable, Ok(answer)),
    ensures
        after.interest == answer,
{
    let (reads, between, writes) = choose|
        reads: Seq<Call>,
        between: Interest,
        writes: Seq<Call>,
    | #[trigger] before.delivers_as(events, after, reads, between, writes);
    if writes.len() > 0 {
        let (again, outcome) = choose|again: nat, outcome: Result<Interest, Fault>| #[trigger]
            Call::runs_as(false, between, writes, after.interest, again, outcome);
        assert(after.calls.last() == writes.last());
        assert(outcome == Ok::<Interest, Fault>(answer));
    } else {
        let (again, outcome) = choose|again: nat, outcome: Result<Interest, Fault>| #[trigger]
            Call::runs_as(true, before.interest, reads, between, again, outcome);
        assert(after.calls.last() == reads.last());
        assert(outcome == Ok::<Interest, Fault>(answer));
    }
}

/// With both edges delivered, `on_writable` is called after `on_readable`
/// has answered, whatever the answer was; and where both answer at once,
/// each is called once and the answer of `on_writable` is the stream's
/// interest.
pub proof fn lemma_both_directions_run<P: Protocol<T>, T: Transport>(
    before: StreamView<P, T>,
    events: EventSet,
    after: StreamView<P, T>,
    first: Interest,
)
    requires
        before.delivers(events, after),
        events.readable,
        events.writable,
        after.calls.len() > before.calls.len(),
        after.calls[before.calls.len() as int] == Call::Readable(Ok(first)),
    ensures
        after.calls.len() >= before.calls.len() + 2,
        after.calls[before.calls.len() as int + 1] is Writable,
        forall|second: Interest|
            after.calls[before.calls.len() as int + 1] == Call::Writable(Ok(second))
                ==> after.calls.len() == before.calls.len() + 2 && after.interest == second,
{
    let (reads, between, writes) = choose|
        reads: Seq<Call>,
        between: Interest,
        writes: Seq<Call>,
    | #[trigger] before.delivers_as(events, after, reads, between, writes);
    let (again, outcome) = choose|again: nat, outcome: Result<Interest, Fault>| #[trigger]
        Call::runs_as(true, before.interest, reads, between, again, outcome);
    assert(after.calls[before.calls.len() as int] == reads[0]);
    assert(again == 0 && outcome == Ok::<Interest, Fault>(first));
    assert(reads.len() == 1 && !Call::failed(reads));
    let (more, answer) = choose|more: nat, answer: Result<Interest, Fault>| #[trigger]
        Call::runs_as(false, between, writes, after.interest, more, answer);
    assert(after.calls[before.calls.len() as int + 1] == writes[0]);
    assert forall|second: Interest|
        after.calls[before.calls.len() as int + 1] == Call::Writable(Ok(second)) implies after.calls.len()
        == before.calls.len() + 2 && after.interest == second by {
        assert(more == 0 && answer == Ok::<Interest, Fault>(second));
    }
}

/// A protocol that answers `Remove` in the only direction of a delivery, or
/// in the writable direction, receives no further callback: the delivery
/// ends there, with the stream marked for removal.
pub proof fn lemma_remove_ends_delivery<P: Protocol<T>, T: Transport>(
    before: StreamView<P, T>,
    events: EventSet,
    after: StreamView<P, T>,
)
    requires
        before.delivers(events, after),
        after.calls.len() > before.calls.len(),
        after.calls[before.calls.len() as int] == Call::Writable(Ok(Interest::Remove)) || (
        after.calls[before.calls.len() as int] == Call::Readable(Ok(Interest::Remove))
            && !events.writable),
    ensures
        after.calls.len() == before.calls.len() + 1,
        after.interest == Interest::Remove,
{
    let (reads, between, writes) = choose|
        reads: Seq<Call>,
        between: Interest,
        writes: Seq<Call>,
    | #[trigger] before.delivers_as(events, after, reads, between, writes);
    if reads.len() > 0 {
        let (again, outcome) = choose|again: nat, outcome: Result<Interest, Fault>| #[trigger]
            Call::runs_as(true, before.interest, reads, between, again, outcome);
        assert(after.calls[before.calls.len() as int] == reads[0]);
        assert(again == 0 && outcome == Ok::<Interest, Fault>(Interest::Remove));
    } else {
        let (again, outcome) = choose|again: nat, outcome: Result<Interest, Fault>| #[trigger]
            Call::runs_as(false, between, writes, after.interest, again, outcome);
        assert(after.calls[before.calls.len() as int] == writes[0]);
        assert(again == 0 && outcome == Ok::<Interest, Fault>(Interest::Remove));
    }
}

/// `on_error` is the last callback of a delivery in which it runs, it runs
/// once, and it leaves the stream marked for removal. A stream that is
/// marked for removal receives no callback, so `on_error` runs once in the
/// life of a stream at most.
pub proof fn lemma_on_error_is_last<P: Protocol<T>, T: Transport>(
    before: StreamView<P, T>,
    events: EventSet,
    after: StreamView<P, T>,
    i: int,
)
    requires
        before.delivers(events, after),
        before.calls.len() <= i < after.calls.len(),
        after.calls[i] == Call::Error,
    ensures
        i == after.calls.len() - 1,
        after.interest == Interest::Remove,
{
    let (reads, between, writes) = choose|
        reads: Seq<Call>,
        between: Interest,
        writes: Seq<Call>,
    | #[trigger] before.delivers_as(events, after, reads, between, writes);
    let at = i - before.calls.len();
    if at < reads.len() {
        let (again, outcome) = choose|again: nat, outcome: Result<Interest, Fault>| #[trigger]
            Call::runs_as(true, before.interest, reads, between, again, outcome);
    } else {
        let (again, outcome) = choose|again: nat, outcome: Result<Interest, Fault>| #[trigger]
            Call::runs_as(false, between, writes, after.interest, again, outcome);
    }
}

/// `on_error` runs once in the life of a stream at most, and no callback
/// runs after it: a delivery to a stream that has kept to this so far keeps
/// to it.
pub proof fn lemma_on_error_is_final<P: Protocol<T>, T: Transport>(
    before: StreamView<P, T>,
    events: EventSet,
    after: StreamView<P, T>,
)
    requires
        before.sound(),
        before.delivers(events, after),
    ensures
        after.sound(),
{
    assert forall|i: int|
        0 <= i < after.calls.len() && #[trigger] after.calls[i] == Call::Error implies i
        == after.calls.len() - 1 && after.interest == Interest::Remove by {
        if events.error || before.interest == Interest::Remove {
            assert(before.calls[i] == Call::Error);
        } else if i < before.calls.len() {
            assert(before.calls[i] == Call::Error);
        } else {
            lemma_on_error_is_last(before, events, after, i);
        }
    }
}

/// A turn of the loop keeps a stream to the rule of `on_error`, too.
pub proof fn lemma_turn_keeps_sound<P: Protocol<T>, T: Transport>(
    before: StreamView<P, T>,
    events: EventSet,
    after: StreamView<P, T>,
    id: Id,
    op: Op,
)
    requires
        before.sound(),
        before.turns(events, after, id, op),
    ensures
        after.sound(),
{
    let reached = StreamView { registered: before.registered, ..after };
    lemma_on_error_is_final(before, events, reached);
    assert forall|i: int|
        0 <= i < after.calls.len() && #[trigger] after.calls[i] == Call::Error implies i
        == after.calls.len() - 1 && after.interest == Interest::Remove by {
        assert(reached.calls[i] == Call::Error);
    }
}

/// A delivery makes `2 * MAX_ATTEMPTS + 1` callbacks at most, and at least
/// one where an edge is delivered to a stream that is not marked for
/// removal.
pub proof fn lemma_delivery_is_bounded<P: Protocol<T>, T: Transport>(
    before: StreamView<P, T>,
    events: EventSet,
    after: StreamView<P, T>,
)
    requires
        before.delivers(events, after),
    ensures
        before.calls.len() <= after.calls.len() <= before.calls.len() + 2 * MAX_ATTEMPTS + 1,
        (events.readable || events.writable) && !events.error && before.interest
            != Interest::Remove ==> after.calls.len() > before.calls.len(),
{
    if !(events.error || before.interest == Interest::Remove) {
        let (reads, between, writes) = choose|
            reads: Seq<Call>,
            between: Interest,
            writes: Seq<Call>,
        | #[trigger] before.delivers_as(events, after, reads, between, writes);
        if events.readable {
            let (again, outcome) = choose|again: nat, outcome: Result<Interest, Fault>| #[trigger]
                Call::runs_as(true, before.interest, reads, between, again, outcome);
        }
        if events.writable && !Call::failed(reads) {
            let (again, outcome) = choose|again: nat, outcome: Result<Interest, Fault>| #[trigger]
                Call::runs_as(false, between, writes, after.interest, again, outcome);
        }
    }
}

/// A stream waiting for the readable edge whose `on_readable` would block at
/// once, after the notifier delivered that edge, is registered for the edges
/// of its interest again, the readable edge among them: it is not left
/// without a registration.
pub proof fn lemma_would_block_is_registered_again<P: Protocol<T>, T: Transport>(
    before: StreamView<P, T>,
    events: EventSet,
    after: StreamView<P, T>,
    id: Id,
    op: Op,
)
    requires
        before.fired().turns(events, after, id, op),
        events.readable,
        !events.writable,
        !events.error,
        before.interest.wants_read(),
        after.calls.len() > before.calls.len(),
        after.calls[before.calls.len() as int] == Call::Readable(Err(Fault::WouldBlock)),
    ensures
        after.calls.len() == before.calls.len() + 1,
        after.interest == before.interest,
        op == Op::Reregister(id, before.interest.events(), Op::stream_opt()),
        before.interest.events().readable,
{
    let reached = StreamView { registered: before.fired().registered, ..after };
    let (reads, between, writes) = choose|
        reads: Seq<Call>,
        between: Interest,
        writes: Seq<Call>,
    | #[trigger] before.fired().delivers_as(events, reached, reads, between, writes);
    let (again, outcome) = choose|again: nat, outcome: Result<Interest, Fault>| #[trigger]
        Call::runs_as(true, before.interest, reads, between, again, outcome);
    assert(again == 0 && outcome == Err::<Interest, Fault>(Fault::WouldBlock));
}

/// A protocol whose callbacks all return `Wait` leaves its stream waiting,
/// and the turn asks nothing of the notifier: such a stream is registered
/// again only after a request from outside has changed what it waits for.
pub proof fn lemma_wait_is_not_registered<P: Protocol<T>, T: Transport>(
    before: StreamView<P, T>,
    events: EventSet,
    after: StreamView<P, T>,
    id: Id,
    op: Op,
)
    requires
        before.turns(events, after, id, op),
        !events.error,
        before.interest != Interest::Remove,
        before.interest == Interest::Wait || after.calls.len() > before.calls.len(),
        forall|i: int|
            before.calls.len() <= i < after.calls.len() ==> (#[trigger] after.calls[i])
                == Call::Readable(Ok(Interest::Wait)) || after.calls[i] == Call::Writable(
                Ok(Interest::Wait),
            ),
    ensures
        after.interest == Interest::Wait,
        after.registered == before.registered,
        op == Op::Idle,
{
    let reached = StreamView { registered: before.registered, ..after };
    let (reads, between, writes) = choose|
        reads: Seq<Call>,
        between: Interest,
        writes: Seq<Call>,
    | #[trigger] before.delivers_as(events, reached, reads, between, writes);
    let base = before.calls.len() as int;
    if events.readable {
        let (again, outcome) = choose|again: nat, outcome: Result<Interest, Fault>| #[trigger]
            Call::runs_as(true, before.interest, reads, between, again, outcome);
        assert(after.calls[base + again] == reads[again as int]);
    }
    if events.writable && !Call::failed(reads) {
        let (again, outcome) = choose|again: nat, outcome: Result<Interest, Fault>| #[trigger]
            Call::runs_as(false, between, writes, after.interest, again, outcome);
        assert(after.calls[base + reads.len() + again] == writes[again as int]);
    }
}

} // verus!
