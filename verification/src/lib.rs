//! A reactor for non-blocking byte streams.
//!
//! One loop handler owns a bounded table of endpoints, listeners and streams,
//! and decides for every delivery of readiness and every message from another
//! thread which callback of a stream's protocol runs and what the readiness
//! notifier is asked to do next. The handler never touches the notifier
//! itself: each of its steps returns the operation to perform.

use vstd::prelude::*;

pub mod channel;
pub mod event;
pub mod handler;
pub mod internal;
pub mod protocol;
pub mod slots;
pub mod stream;
pub mod tcp;
pub mod tick;
pub mod transfer;
pub mod transport;

pub use event::EventSet;
pub use event::PollOpt;
pub use internal::Action;
pub use internal::Callback;
pub use internal::Message;
pub use internal::Op;
pub use internal::Thunk;
pub use protocol::Factory as ProtocolFactory;
pub use protocol::Interest;
pub use protocol::Protocol;
pub use tick::Notify;
pub use tick::TickConfig;
pub use transfer::Transfer;
pub use transport::Transport;

verus! {

/// `std::io::Error`. An error is carried through as it is; only its kind is
/// ever looked at, by `fault_of`.
#[verifier::external_type_specification]
#[verifier::external_body]
pub struct ExIoError(std::io::Error);

/// Why a registration or a run of the loop failed.
#[derive(Debug)]
pub enum Error {
    /// Every slot of the handler's table is taken.
    TooManySockets,
    /// A timer ran out.
    Timeout,
    /// The notifier or a transport reported an error.
    Io(std::io::Error),
}

impl From<std::io::Error> for Error {
    fn from(e: std::io::Error) -> (error: Error) {
        Error::Io(e)
    }
}

impl vstd::std_specs::convert::FromSpecImpl<std::io::Error> for Error {
    open spec fn obeys_from_spec() -> bool {
        true
    }

    open spec fn from_spec(e: std::io::Error) -> Error {
        Error::Io(e)
    }
}

/// How a callback or an accept that returned an error is treated.
#[derive(Clone, Copy, Debug, PartialEq, Eq, Structural)]
pub enum Fault {
    /// Nothing more can be done in this direction for now.
    WouldBlock,
    /// The call was interrupted and is made again.
    Interrupted,
    /// The endpoint cannot go on.
    Fatal,
}

/// The kind of fault that `error` is: `WouldBlock` and `Interrupted` for
/// the errors of these two kinds, `Fatal` for those of every other kind. The
/// kind of an error is settled when the error is made, and `kind` reads it
/// from the error and from nothing else, so this is a function of the error
/// alone.
pub uninterp spec fn fault_kind(error: std::io::Error) -> Fault;

/// `std::io::Error::kind`, with the kind told apart three ways: the kind
/// `WouldBlock`, the kind `Interrupted`, and every other kind, which is fatal.
/// The result is `fault_kind` of the error.
#[verifier::external_body]
pub(crate) fn fault_of(e: &std::io::Error) -> (fault: Fault)
    ensures
        fault == fault_kind(*e),
{
    match e.kind() {
        std::io::ErrorKind::WouldBlock => Fault::WouldBlock,
        std::io::ErrorKind::Interrupted => Fault::Interrupted,
        _ => Fault::Fatal,
    }
}

impl Fault {
    /// A callback's or an accept's result as the library takes it: what it
    /// gave, or the kind of fault that its error is.
    pub open spec fn taken<V>(result: Result<V, std::io::Error>) -> Result<V, Fault> {
        match result {
            Ok(value) => Ok(value),
            Err(error) => Err(fault_kind(error)),
        }
    }
}

/// Opaque handle returned when adding listeners and streams to the loop.
///
/// It names one slot of the handler's table, stays the same for as long as
/// the endpoint lives, and may name a later endpoint once this one is gone.
#[derive(Clone, Copy, PartialEq, Eq, Structural, PartialOrd, Ord, Hash, Debug)]
pub struct Id(usize);

impl View for Id {
    type V = usize;

    closed spec fn view(&self) -> usize {
        self.0
    }
}

impl Id {
    /// The handle of slot `i`.
    pub fn from_usize(i: usize) -> (id: Id)
        ensures
            id@ == i,
    {
        Id(i)
    }

    /// The slot this handle names.
    pub fn as_usize(&self) -> (i: usize)
        ensures
            i == self@,
    {
        self.0
    }
}

/// Two handles that name the same slot are the same handle.
pub proof fn lemma_id_by_slot(a: Id, b: Id)
    requires
        a@ == b@,
    ensures
        a == b,
{
}

} // verus!
