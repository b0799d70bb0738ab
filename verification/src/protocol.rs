//! Protocols, the interest they declare, and the factory that makes them.

use vstd::prelude::*;
use crate::event::EventSet;
use crate::internal::Action;
use crate::transfer::Transfer;
use crate::transport::Transport;
use crate::Error;
use crate::Fault;
use crate::Id;

verus! {

/// The state of one connection, driven by readiness.
///
/// Every method runs on the loop's thread and must return without blocking.
pub trait Protocol<T: Transport> {
    /// Whether `on_readable`, called on `self` with `transport`, may leave
    /// the protocol `after` and the transport `left` and return `answer`, as
    /// the protocol's author states it. An author who states nothing
    /// promises nothing.
    open spec fn reads(
        &self,
        transport: &T,
        after: &Self,
        left: &T,
        answer: &Result<Interest, std::io::Error>,
    ) -> bool {
        true
    }

    /// As `reads`, for `on_writable`.
    open spec fn writes(
        &self,
        transport: &T,
        after: &Self,
        left: &T,
        answer: &Result<Interest, std::io::Error>,
    ) -> bool {
        true
    }

    /// Whether `on_error`, called on `self` with `error`, may leave the
    /// protocol `after`, as the protocol's author states it.
    open spec fn fails(&self, error: &Error, after: &Self) -> bool {
        true
    }

    /// The transport can be read. `Ok` carries the stream's next interest.
    /// An error of the kind `WouldBlock` lets the direction rest until the
    /// next turn, one of the kind `Interrupted` has the callback called
    /// again, and any other is fatal: it goes to `on_error`.
    fn on_readable(&mut self, transport: &mut T) -> (answer: Result<Interest, std::io::Error>)
        ensures
            old(self).reads(old(transport), final(self), final(transport), &answer),
    ;

    /// The transport can be written. `Ok` and errors are taken as those of
    /// `on_readable`.
    fn on_writable(&mut self, transport: &mut T) -> (answer: Result<Interest, std::io::Error>)
        ensures
            old(self).writes(old(transport), final(self), final(transport), &answer),
    ;

    /// A callback failed for good. The stream is removed afterwards, and
    /// receives no callback but `on_remove` any more.
    fn on_error(&mut self, error: Error)
        ensures
            old(self).fails(&error, final(self)),
    ;

    /// The stream leaves the loop; the protocol receives its transport.
    fn on_remove(self, _transport: T) where Self: Sized {
    }
}

/// What a stream waits for.
#[derive(Debug, PartialEq, Eq, Structural, Clone, Copy)]
pub enum Interest {
    /// The stream is finished: it is to be deregistered and dropped.
    Remove,
    /// Nothing for now: only a message from outside the loop wakes the
    /// stream.
    Wait,
    Read,
    Write,
    ReadWrite,
}

impl Interest {
    /// Whether the stream waits for the readable edge.
    pub open spec fn wants_read(self) -> bool {
        self == Interest::Read || self == Interest::ReadWrite
    }

    /// Whether the stream waits for the writable edge.
    pub open spec fn wants_write(self) -> bool {
        self == Interest::Write || self == Interest::ReadWrite
    }

    /// Whether the stream waits for any edge.
    pub open spec fn wants_events(self) -> bool {
        self.wants_read() || self.wants_write()
    }

    /// The interest of a live stream that waits for exactly these edges.
    pub open spec fn wanting(read: bool, write: bool) -> Interest {
        if read && write {
            Interest::ReadWrite
        } else if read {
            Interest::Read
        } else if write {
            Interest::Write
        } else {
            Interest::Wait
        }
    }

    /// The order of the lattice: `Wait` lies below `Read` and `Write`, both
    /// lie below `ReadWrite`, and `Remove` lies above them all.
    pub open spec fn within(self, other: Interest) -> bool {
        other == Interest::Remove || (self != Interest::Remove && (self.wants_read()
            ==> other.wants_read()) && (self.wants_write() ==> other.wants_write()))
    }

    /// The edges a stream with this interest is registered for.
    pub open spec fn events(self) -> EventSet {
        EventSet::of(self.wants_read(), self.wants_write(), false, false)
    }

    /// The sum `self + other`: `Remove` if either side is `Remove`; else the
    /// interest in every edge that either side waits for.
    pub open spec fn plus(self, other: Interest) -> Interest {
        if self == Interest::Remove || other == Interest::Remove {
            Interest::Remove
        } else {
            Interest::wanting(
                self.wants_read() || other.wants_read(),
                self.wants_write() || other.wants_write(),
            )
        }
    }

    /// The difference `self - other`. Taking away `Wait` or `Remove` changes
    /// nothing. Taking one direction away from `ReadWrite` leaves the other.
    /// Every other difference is `Wait`.
    pub open spec fn minus(self, other: Interest) -> Interest {
        if other == Interest::Wait || other == Interest::Remove {
            self
        } else if self == Interest::ReadWrite && other == Interest::Read {
            Interest::Write
        } else if self == Interest::ReadWrite && other == Interest::Write {
            Interest::Read
        } else {
            Interest::Wait
        }
    }

    /// The interest of a stream after one callback returned `outcome`: the
    /// interest the callback gave; the interest the stream had where the
    /// callback would block or was interrupted; `Remove` where it failed for
    /// good.
    pub open spec fn after(self, outcome: Result<Interest, Fault>) -> Interest {
        match outcome {
            Ok(next) => next,
            Err(Fault::WouldBlock) => self,
            Err(Fault::Interrupted) => self,
            Err(Fault::Fatal) => Interest::Remove,
        }
    }

    /// What is done about the registration of a stream with this interest:
    /// `Remove` and `Wait` keep their names, every other interest registers
    /// its edges.
    pub open spec fn action(self) -> Action {
        if self == Interest::Remove {
            Action::Remove
        } else if self == Interest::Wait {
            Action::Wait
        } else {
            Action::Register(self.events())
        }
    }

    /// The interest of a stream after one callback returned `outcome`.
    pub fn settle(self, outcome: Result<Interest, Fault>) -> (next: Interest)
        ensures
            next == self.after(outcome),
    {
        match outcome {
            Ok(next) => next,
            Err(Fault::Fatal) => Interest::Remove,
            Err(_) => self,
        }
    }
}

impl std::ops::Add<Interest> for Interest {
    type Output = Interest;

    /// Merges a requested interest into the one a stream has.
    fn add(self, other: Interest) -> (r: Interest) {
        match (self, other) {
            (Interest::Read, Interest::Write) => Interest::ReadWrite,
            (Interest::Read, Interest::ReadWrite) => Interest::ReadWrite,
            (Interest::Write, Interest::Read) => Interest::ReadWrite,
            (Interest::Write, Interest::ReadWrite) => Interest::ReadWrite,
            (Interest::Wait, Interest::Read) => Interest::Read,
            (Interest::Wait, Interest::Write) => Interest::Write,
            (Interest::Wait, Interest::ReadWrite) => Interest::ReadWrite,
            (_, Interest::Remove) => Interest::Remove,
            _ => self,
        }
    }
}

impl vstd::std_specs::ops::AddSpecImpl<Interest> for Interest {
    open spec fn obeys_add_spec() -> bool {
        true
    }

    open spec fn add_req(self, other: Interest) -> bool {
        true
    }

    open spec fn add_spec(self, other: Interest) -> Interest {
        self.plus(other)
    }
}

impl std::ops::Sub<Interest> for Interest {
    type Output = Interest;

    /// Takes a direction away from the interest a stream has.
    fn sub(self, other: Interest) -> (r: Interest) {
        match (self, other) {
            (Interest::ReadWrite, Interest::Write) => Interest::Read,
            (Interest::ReadWrite, Interest::Read) => Interest::Write,
            (_, Interest::Remove) => self,
            (_, Interest::Wait) => self,
            _ => Interest::Wait,
        }
    }
}

impl vstd::std_specs::ops::SubSpecImpl<Interest> for Interest {
    open spec fn obeys_sub_spec() -> bool {
        true
    }

    open spec fn sub_req(self, other: Interest) -> bool {
        true
    }

    open spec fn sub_spec(self, other: Interest) -> Interest {
        self.minus(other)
    }
}

impl From<Interest> for Action {
    /// What is done about the registration of a stream with this interest.
    fn from(interest: Interest) -> (action: Action) {
        match interest {
            Interest::Read => Action::Register(EventSet::readable()),
            Interest::Write => Action::Register(EventSet::writable()),
            Interest::ReadWrite => Action::Register(EventSet::readable() | EventSet::writable()),
            Interest::Wait => Action::Wait,
            Interest::Remove => Action::Remove,
        }
    }
}

impl vstd::std_specs::convert::FromSpecImpl<Interest> for Action {
    open spec fn obeys_from_spec() -> bool {
        true
    }

    open spec fn from_spec(interest: Interest) -> Action {
        interest.action()
    }
}

/// Addition does not depend on the order of its operands.
pub proof fn lemma_add_commutative(a: Interest, b: Interest)
    ensures
        a.plus(b) == b.plus(a),
{
}

/// Adding `Wait` on either side changes nothing.
pub proof fn lemma_add_wait_is_identity(a: Interest)
    ensures
        a.plus(Interest::Wait) == a,
        Interest::Wait.plus(a) == a,
{
}

/// Adding `Remove` on either side gives `Remove`.
pub proof fn lemma_add_remove_absorbs(a: Interest)
    ensures
        a.plus(Interest::Remove) == Interest::Remove,
        Interest::Remove.plus(a) == Interest::Remove,
{
}

/// Addition may be grouped either way, and adding an interest to itself
/// changes nothing.
pub proof fn lemma_add_associative(a: Interest, b: Interest, c: Interest)
    ensures
        a.plus(b).plus(c) == a.plus(b.plus(c)),
        a.plus(a) == a,
{
}

/// The sum is the least interest that lies above both operands.
pub proof fn lemma_add_least_upper_bound(a: Interest, b: Interest, c: Interest)
    ensures
        a.within(a.plus(b)),
        b.within(a.plus(b)),
        a.within(c) && b.within(c) ==> a.plus(b).within(c),
{
}

/// `within` is a partial order.
pub proof fn lemma_within_is_order(a: Interest, b: Interest, c: Interest)
    ensures
        a.within(a),
        a.within(b) && b.within(a) ==> a == b,
        a.within(b) && b.within(c) ==> a.within(c),
{
}

/// Subtracting `Wait` changes nothing, and neither does subtracting
/// `Remove`.
pub proof fn lemma_sub_wait_is_identity(a: Interest)
    ensures
        a.minus(Interest::Wait) == a,
        a.minus(Interest::Remove) == a,
{
}

/// Taking one direction away from `ReadWrite` leaves the other, and an
/// interest that is added to `Wait` is taken away again by subtraction.
pub proof fn lemma_sub_removes_direction(a: Interest)
    ensures
        Interest::ReadWrite.minus(Interest::Read) == Interest::Write,
        Interest::ReadWrite.minus(Interest::Write) == Interest::Read,
        a != Interest::Remove ==> Interest::Wait.plus(a).minus(a) == Interest::Wait,
{
}

/// An interest leads to a registration exactly when it waits for
/// an edge, and then into the registration of its own edges.
pub proof fn lemma_action_registers_events(interest: Interest)
    ensures
        interest.wants_events() <==> interest.action() is Register,
        interest.wants_events() ==> interest.action() == Action::Register(
            interest.events(),
        ),
        interest.wants_events() ==> interest.events() != EventSet::of(false, false, false, false),
{
}

/// A callback that would block leaves the stream's interest as it was, so a
/// stream that waited for the readable edge still waits for it, and is
/// registered for it again.
pub proof fn lemma_would_block_keeps_interest(current: Interest)
    ensures
        current.after(Err(Fault::WouldBlock)) == current,
        current.wants_read() ==> current.after(Err(Fault::WouldBlock)).action() is Register,
        current.wants_read() ==> current.after(Err(Fault::WouldBlock)).events().readable,
{
}

/// Makes the protocol of each new stream.
pub trait Factory<T: Transport> {
    type Protocol: Protocol<T>;

    /// Whether `made` is a protocol and a first interest that the factory may
    /// make for the stream `id` when it is handed `transfer`, as the
    /// factory's author states it. An author who states nothing promises
    /// nothing.
    open spec fn makes(&self, transfer: Transfer, id: Id, made: (Self::Protocol, Interest)) -> bool {
        true
    }

    /// Called once for every stream that finds a free slot, before the stream
    /// is registered. The interest it returns is the stream's first
    /// registration.
    fn create(&mut self, transfer: Transfer, id: Id) -> (made: (Self::Protocol, Interest))
        ensures
            old(self).makes(transfer, id, made),
    ;
}

/// `FnMut::call_mut` of a closure that serves as a factory: calls `f` with
/// the two arguments of `Factory::create` and hands back what it returned.
/// What is claimed of the result is what the closure itself promises: where
/// the arguments meet the closure's own `requires`, the result meets its own
/// `ensures`. Of a closure that states neither, nothing is known.
#[verifier::external_body]
fn call_factory<F, P>(f: &mut F, transfer: Transfer, id: Id) -> (made: (P, Interest)) where
    F: FnMut(Transfer, Id) -> (P, Interest),

    ensures
        call_requires(*old(f), (transfer, id)) ==> call_ensures(*old(f), (transfer, id), made),
{
    f(transfer, id)
}

impl<F, P, T> Factory<T> for F where
    F: FnMut(Transfer, Id) -> (P, Interest),
    P: Protocol<T>,
    T: Transport,
 {
    type Protocol = P;

    /// A closure makes what its own contract says: where the arguments meet
    /// its `requires`, the result is one that its `ensures` allows.
    open spec fn makes(&self, transfer: Transfer, id: Id, made: (P, Interest)) -> bool {
        call_requires(*self, (transfer, id)) ==> call_ensures(*self, (transfer, id), made)
    }

    /// A closure is a factory: it is called with the transfer and the `Id`,
    /// and what it returns is the protocol and the first interest.
    fn create(&mut self, transfer: Transfer, id: Id) -> (made: (P, Interest)) {
        call_factory(self, transfer, id)
    }
}

} // verus!
