//! The readiness notifier's vocabulary: which edges an endpoint waits for or
//! has seen, and how a registration is triggered.

use vstd::prelude::*;

verus! {

/// A set of readiness edges.
///
/// A registration carries the edges an endpoint waits for; a delivery carries
/// the edges the notifier saw.
#[derive(Clone, Copy, Debug, PartialEq, Eq, Structural)]
pub struct EventSet {
    pub readable: bool,
    pub writable: bool,
    pub error: bool,
    pub hup: bool,
}

impl EventSet {
    /// The set with the given members.
    pub open spec fn of(readable: bool, writable: bool, error: bool, hup: bool) -> EventSet {
        EventSet { readable, writable, error, hup }
    }

    /// The set that holds every edge of `self` and of `other`.
    pub open spec fn union(self, other: EventSet) -> EventSet {
        EventSet {
            readable: self.readable || other.readable,
            writable: self.writable || other.writable,
            error: self.error || other.error,
            hup: self.hup || other.hup,
        }
    }

    /// The empty set.
    pub fn none() -> (r: EventSet)
        ensures
            r == EventSet::of(false, false, false, false),
    {
        EventSet { readable: false, writable: false, error: false, hup: false }
    }

    /// The set that holds only the readable edge.
    pub fn readable() -> (r: EventSet)
        ensures
            r == EventSet::of(true, false, false, false),
    {
        EventSet { readable: true, writable: false, error: false, hup: false }
    }

    /// The set that holds only the writable edge.
    pub fn writable() -> (r: EventSet)
        ensures
            r == EventSet::of(false, true, false, false),
    {
        EventSet { readable: false, writable: true, error: false, hup: false }
    }

    /// The set that holds only the error condition.
    pub fn error() -> (r: EventSet)
        ensures
            r == EventSet::of(false, false, true, false),
    {
        EventSet { readable: false, writable: false, error: true, hup: false }
    }

    /// The set that holds only the hang-up condition.
    pub fn hup() -> (r: EventSet)
        ensures
            r == EventSet::of(false, false, false, true),
    {
        EventSet { readable: false, writable: false, error: false, hup: true }
    }

    /// The set of all four members.
    pub fn all() -> (r: EventSet)
        ensures
            r == EventSet::of(true, true, true, true),
    {
        EventSet { readable: true, writable: true, error: true, hup: true }
    }

    pub fn is_readable(&self) -> (r: bool)
        ensures
            r == self.readable,
    {
        self.readable
    }

    pub fn is_writable(&self) -> (r: bool)
        ensures
            r == self.writable,
    {
        self.writable
    }

    pub fn is_error(&self) -> (r: bool)
        ensures
            r == self.error,
    {
        self.error
    }

    pub fn is_hup(&self) -> (r: bool)
        ensures
            r == self.hup,
    {
        self.hup
    }

    /// Whether no edge is in the set.
    pub fn is_none(&self) -> (r: bool)
        ensures
            r == (*self == EventSet::of(false, false, false, false)),
    {
        !self.readable && !self.writable && !self.error && !self.hup
    }
}

impl std::ops::BitOr<EventSet> for EventSet {
    type Output = EventSet;

    fn bitor(self, other: EventSet) -> (r: EventSet) {
        EventSet {
            readable: self.readable || other.readable,
            writable: self.writable || other.writable,
            error: self.error || other.error,
            hup: self.hup || other.hup,
        }
    }
}

impl vstd::std_specs::ops::BitOrSpecImpl<EventSet> for EventSet {
    open spec fn obeys_bitor_spec() -> bool {
        true
    }

    open spec fn bitor_req(self, other: EventSet) -> bool {
        true
    }

    open spec fn bitor_spec(self, other: EventSet) -> EventSet {
        self.union(other)
    }
}

/// How a registration is triggered.
#[derive(Clone, Copy, Debug, PartialEq, Eq, Structural)]
pub struct PollOpt {
    pub edge: bool,
    pub level: bool,
    pub oneshot: bool,
}

impl PollOpt {
    /// The options with the given members.
    pub open spec fn of(edge: bool, level: bool, oneshot: bool) -> PollOpt {
        PollOpt { edge, level, oneshot }
    }

    /// The options of `self` together with those of `other`.
    pub open spec fn union(self, other: PollOpt) -> PollOpt {
        PollOpt {
            edge: self.edge || other.edge,
            level: self.level || other.level,
            oneshot: self.oneshot || other.oneshot,
        }
    }

    /// No option.
    pub fn empty() -> (r: PollOpt)
        ensures
            r == PollOpt::of(false, false, false),
    {
        PollOpt { edge: false, level: false, oneshot: false }
    }

    /// Notify once per change of readiness.
    pub fn edge() -> (r: PollOpt)
        ensures
            r == PollOpt::of(true, false, false),
    {
        PollOpt { edge: true, level: false, oneshot: false }
    }

    /// Notify for as long as the endpoint is ready.
    pub fn level() -> (r: PollOpt)
        ensures
            r == PollOpt::of(false, true, false),
    {
        PollOpt { edge: false, level: true, oneshot: false }
    }

    /// Disarm the registration after one notification.
    pub fn oneshot() -> (r: PollOpt)
        ensures
            r == PollOpt::of(false, false, true),
    {
        PollOpt { edge: false, level: false, oneshot: true }
    }

    pub fn is_edge(&self) -> (r: bool)
        ensures
            r == self.edge,
    {
        self.edge
    }

    pub fn is_level(&self) -> (r: bool)
        ensures
            r == self.level,
    {
        self.level
    }

    pub fn is_oneshot(&self) -> (r: bool)
        ensures
            r == self.oneshot,
    {
        self.oneshot
    }
}

impl std::ops::BitOr<PollOpt> for PollOpt {
    type Output = PollOpt;

    fn bitor(self, other: PollOpt) -> (r: PollOpt) {
        PollOpt {
            edge: self.edge || other.edge,
            level: self.level || other.level,
            oneshot: self.oneshot || other.oneshot,
        }
    }
}

impl vstd::std_specs::ops::BitOrSpecImpl<PollOpt> for PollOpt {
    open spec fn obeys_bitor_spec() -> bool {
        true
    }

    open spec fn bitor_req(self, other: PollOpt) -> bool {
        true
    }

    open spec fn bitor_spec(self, other: PollOpt) -> PollOpt {
        self.union(other)
    }
}

} // verus!
