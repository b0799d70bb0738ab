//! The loop handler: the table of endpoints and every decision of the loop.

use vstd::prelude::*;
use crate::event::EventSet;
use crate::event::PollOpt;
use crate::fault_kind;
use crate::fault_of;
use crate::internal::Action;
use crate::internal::Message;
use crate::internal::Op;
use crate::protocol::Factory;
use crate::protocol::Interest;
use crate::protocol::Protocol;
use crate::stream::lemma_no_edge_no_call;
use crate::stream::lemma_on_error_is_final;
use crate::slots::lemma_emptied_slots;
use crate::slots::lemma_filled_slots;
use crate::slots::lemma_fresh_slots;
use crate::slots::slab_entries;
use crate::slots::slab_vacant;
use crate::slots::Kind;
use crate::slots::Slots;
use crate::stream::Stream;
use crate::stream::StreamView;
use crate::transfer;
use crate::transfer::Transfer;
use crate::transport::Transport;
use crate::Error;
use crate::Fault;
use crate::Id;

verus! {

/// What a slot of the table holds: a listener, which accepts transports, or a
/// stream.
pub enum Evented<P: Protocol<T>, L, T: Transport> {
    Listener(L),
    Stream(Stream<P, T>),
}

/// What an `Evented` holds.
pub ghost enum Endpoint<P, L, T> {
    Listener(L),
    Stream(StreamView<P, T>),
}

impl<P: Protocol<T>, L, T: Transport> Endpoint<P, L, T> {
    /// Which of the two it is.
    pub open spec fn kind(self) -> Kind {
        match self {
            Endpoint::Listener(_) => Kind::Listener,
            Endpoint::Stream(_) => Kind::Stream,
        }
    }

    /// Whether the notifier watches what the endpoint waits for. A listener
    /// is registered once and for good.
    pub open spec fn settled(self) -> bool {
        match self {
            Endpoint::Listener(_) => true,
            Endpoint::Stream(stream) => stream.settled(),
        }
    }

    /// Whether the endpoint has kept to the rule of `on_error`. A listener
    /// has no such callback.
    pub open spec fn sound(self) -> bool {
        match self {
            Endpoint::Listener(_) => true,
            Endpoint::Stream(stream) => stream.sound(),
        }
    }
}

impl<P: Protocol<T>, L, T: Transport> View for Evented<P, L, T> {
    type V = Endpoint<P, L, T>;

    open spec fn view(&self) -> Endpoint<P, L, T> {
        match *self {
            Evented::Listener(lis) => Endpoint::Listener(lis),
            Evented::Stream(stream) => Endpoint::Stream(stream@),
        }
    }
}

/// What an attempt to accept on a listener brought.
pub enum Accepted<T> {
    /// A new connection.
    Stream(T),
    /// Nothing: the listener was not ready after all.
    Nothing,
    /// An error of this kind.
    Failed(Fault),
}

impl<T> Accepted<T> {
    /// What the result of a non-blocking accept brought: a connection,
    /// nothing, or an error of the kind of fault that it is.
    pub open spec fn taken(result: Result<Option<T>, std::io::Error>) -> Accepted<T> {
        match result {
            Ok(Some(transport)) => Accepted::Stream(transport),
            Ok(None) => Accepted::Nothing,
            Err(error) => Accepted::Failed(fault_kind(error)),
        }
    }

    /// Sorts the result of a non-blocking accept.
    pub fn of(result: Result<Option<T>, std::io::Error>) -> (accepted: Accepted<T>)
        ensures
            accepted == Accepted::taken(result),
    {
        match result {
            Ok(Some(transport)) => Accepted::Stream(transport),
            Ok(None) => Accepted::Nothing,
            Err(e) => Accepted::Failed(fault_of(&e)),
        }
    }
}

/// The table of endpoints and the factory of their protocols.
///
/// A slab hands out the slots; the endpoints themselves stand in `transports`,
/// each at the index of its slot. `created` and `removed` exist for the
/// contracts alone: each is written where the factory or `on_remove` is
/// called, and so records every such call.
///
/// The handler decides and does not perform. Each step returns an `Op`, and
/// whoever drives the handler carries it out on the notifier: it calls
/// `accepted` after an `Op::Accept`, and `remove` after an `Op::Deregister`
/// and after an `Op::Register` that the notifier refused.
pub struct LoopHandler<F: Factory<T>, L, T: Transport> {
    slots: Slots,
    transports: Vec<Option<Evented<F::Protocol, L, T>>>,
    factory: F,
    created: Ghost<Seq<(Id, Interest)>>,
    removed: Ghost<Seq<(Id, StreamView<F::Protocol, T>)>>,
}

impl<F: Factory<T>, L, T: Transport> LoopHandler<F, L, T> {
    /// The number of slots.
    pub closed spec fn capacity(&self) -> nat {
        self.transports@.len()
    }

    /// The endpoints of the table, by slot.
    pub closed spec fn endpoints(&self) -> Map<usize, Endpoint<F::Protocol, L, T>> {
        Map::new(
            |key: usize| key < self.transports@.len() && self.transports@[key as int].is_some(),
            |key: usize| self.transports@[key as int].unwrap()@,
        )
    }

    /// The free slots, in the order in which the next endpoints will take
    /// them.
    pub closed spec fn vacant(&self) -> Seq<usize> {
        slab_vacant(self.slots)
    }

    /// The slots that the slab counts as taken.
    pub closed spec fn occupied(&self) -> Set<usize> {
        slab_entries(self.slots).dom()
    }

    /// The factory.
    pub closed spec fn factory(&self) -> F {
        self.factory
    }

    /// Every call of the factory so far, the first one first: the `Id` it
    /// was called with and the interest it returned.
    pub closed spec fn created(&self) -> Seq<(Id, Interest)> {
        self.created@
    }

    /// Every call of `on_remove` so far, the first one first: the `Id` of
    /// the stream and the stream as it was when its protocol received its
    /// transport.
    pub closed spec fn removed(&self) -> Seq<(Id, StreamView<F::Protocol, T>)> {
        self.removed@
    }

    /// The slab and the table agree: a slot is taken in the slab exactly if
    /// the table holds an endpoint there, and the slab knows its kind. And
    /// every stream of the table has kept to the rule of `on_error`.
    pub closed spec fn wf(&self) -> bool {
        &&& forall|key: usize| #[trigger]
            self.endpoints().dom().contains(key) ==> self.endpoints()[key].sound()
        &&& self.slots.wf()
        &&& self.slots.limit() == self.transports@.len()
        &&& forall|key: usize|
            key < self.transports@.len() ==> (#[trigger] self.transports@[key as int].is_some()
                <==> slab_entries(self.slots).dom().contains(key))
        &&& forall|key: usize|
            key < self.transports@.len() && (#[trigger] self.transports@[key as int]).is_some()
                ==> slab_entries(self.slots)[key] == self.transports@[key as int].unwrap()@.kind()
    }

    /// Whether `id` names a stream.
    pub open spec fn has_stream(&self, id: Id) -> bool {
        self.endpoints().dom().contains(id@) && self.endpoints()[id@] is Stream
    }

    /// Whether `id` names a listener.
    pub open spec fn has_listener(&self, id: Id) -> bool {
        self.endpoints().dom().contains(id@) && self.endpoints()[id@] is Listener
    }

    /// The stream that `id` names.
    pub open spec fn stream_at(&self, id: Id) -> StreamView<F::Protocol, T>
        recommends
            self.has_stream(id),
    {
        self.endpoints()[id@]->Stream_0
    }

    /// Whether the notifier watches, for every stream, what the stream waits
    /// for.
    pub open spec fn settled(&self) -> bool {
        forall|key: usize| #[trigger]
            self.endpoints().dom().contains(key) ==> self.endpoints()[key].settled()
    }

    /// Whether `self` is `before` but for the slot `id`, where it holds the
    /// stream `stream`.
    pub open spec fn differs_at(
        &self,
        before: &LoopHandler<F, L, T>,
        id: Id,
        stream: StreamView<F::Protocol, T>,
    ) -> bool {
        &&& self.capacity() == before.capacity()
        &&& self.vacant() == before.vacant()
        &&& self.factory() == before.factory()
        &&& self.created() == before.created()
        &&& self.removed() == before.removed()
        &&& self.endpoints() == before.endpoints().insert(id@, Endpoint::Stream(stream))
    }

    /// Whether `self` is `before` in every part.
    pub open spec fn same_as(&self, before: &LoopHandler<F, L, T>) -> bool {
        &&& self.capacity() == before.capacity()
        &&& self.vacant() == before.vacant()
        &&& self.factory() == before.factory()
        &&& self.created() == before.created()
        &&& self.removed() == before.removed()
        &&& self.endpoints() == before.endpoints()
    }

    /// A handler with `size` free slots.
    pub fn new(factory: F, size: usize) -> (handler: LoopHandler<F, L, T>)
        requires
            size * 16 <= isize::MAX,
        ensures
            handler.wf(),
            handler.settled(),
            handler.capacity() == size,
            handler.endpoints().dom() == Set::<usize>::empty(),
            handler.vacant() == Slots::fresh(size as nat),
            handler.factory() == factory,
            handler.created().len() == 0,
            handler.removed().len() == 0,
    {
        let slots = Slots::new(size);
        let mut transports: Vec<Option<Evented<F::Protocol, L, T>>> = Vec::new();
        let mut filled: usize = 0;
        while filled < size
            invariant
                filled <= size,
                transports@.len() == filled,
                forall|i: int| 0 <= i < filled ==> (#[trigger] transports@[i]).is_none(),
            decreases size - filled,
        {
            transports.push(None);
            filled = filled + 1;
        }
        proof {
            lemma_fresh_slots(slots, size as nat);
        }
        let handler = LoopHandler {
            slots,
            transports,
            factory,
            created: Ghost(Seq::empty()),
            removed: Ghost(Seq::empty()),
        };
        handler
    }

    /// Has the factory make the protocol of the stream `id`, with a
    /// `Transfer` for it on the channel `notify`, and records the call.
    fn make(&mut self, id: Id, notify: mio::Sender<Message>) -> (made: (F::Protocol, Interest))
        ensures
            old(self).factory().makes(Transfer::of(id, notify), id, made),
            final(self).created() == old(self).created().push((id, made.1)),
            final(self).removed() == old(self).removed(),
            final(self).slots == old(self).slots,
            final(self).transports == old(self).transports,
    {
        let made = self.factory.create(transfer::new(id, notify), id);
        self.created = Ghost(self.created@.push((id, made.1)));
        made
    }

    /// Hands the transport of `stream`, which has left the table, to its
    /// protocol's `on_remove`, and records the call.
    fn retire(&mut self, id: Id, stream: Stream<F::Protocol, T>)
        ensures
            final(self).removed() == old(self).removed().push((id, stream@)),
            final(self).created() == old(self).created(),
            final(self).factory() == old(self).factory(),
            final(self).slots == old(self).slots,
            final(self).transports == old(self).transports,
    {
        self.removed = Ghost(self.removed@.push((id, stream@)));
        stream.removed();
    }

    /// Whether `id` names an endpoint of the table.
    pub fn contains(&self, id: Id) -> (found: bool)
        requires
            self.wf(),
        ensures
            found == self.endpoints().dom().contains(id@),
    {
        let key = id.as_usize();
        key < self.transports.len() && self.transports[key].is_some()
    }

    /// The number of endpoints, as the slab counts them.
    pub fn count(&self) -> (count: usize)
        requires
            self.wf(),
        ensures
            count == self.endpoints().dom().len(),
            count == self.occupied().len(),
            count + self.vacant().len() == self.capacity(),
    {
        proof {
            self.lemma_slots_match_endpoints();
        }
        self.slots.count()
    }

    /// The slab and the table never part: the slots that the slab counts as
    /// taken are the slots that hold an endpoint, so there are as many of
    /// the one as of the other, and every slot is either taken or once in
    /// the chain of the free ones.
    pub proof fn lemma_slots_match_endpoints(&self)
        requires
            self.wf(),
        ensures
            self.occupied() == self.endpoints().dom(),
            self.endpoints().dom().finite(),
            self.occupied().len() == self.endpoints().dom().len(),
            self.endpoints().dom().len() + self.vacant().len() == self.capacity(),
            self.vacant().no_duplicates(),
            forall|key: usize| #[trigger]
                self.endpoints().dom().contains(key) ==> key < self.capacity()
                    && !self.vacant().contains(key),
            forall|i: int|
                0 <= i < self.vacant().len() ==> (#[trigger] self.vacant()[i]) < self.capacity()
                    && !self.endpoints().dom().contains(self.vacant()[i]),
    {
        assert forall|i: int| 0 <= i < self.vacant().len() implies (#[trigger] self.vacant()[i])
            < self.capacity() && !self.endpoints().dom().contains(self.vacant()[i]) by {
            assert(self.vacant().contains(self.vacant()[i]));
        }
    }

    /// A table that holds as many endpoints as it has slots has no room: the
    /// next listener or stream is refused with `TooManySockets`. A table
    /// that holds fewer has room.
    pub proof fn lemma_room(&self)
        requires
            self.wf(),
        ensures
            self.endpoints().dom().len() <= self.capacity(),
            self.vacant().len() == 0 <==> self.endpoints().dom().len() == self.capacity(),
    {
        self.lemma_slots_match_endpoints();
    }

    /// Every stream of the table has kept to the rule of `on_error`: the
    /// callback has run once at most, and the stream has received no
    /// callback after it.
    pub proof fn lemma_on_error_ran_once(&self, id: Id)
        requires
            self.wf(),
            self.has_stream(id),
        ensures
            self.stream_at(id).sound(),
    {
        assert(self.endpoints()[id@].sound());
    }

    /// The transport of the stream `id`.
    pub fn transport(&self, id: Id) -> (transport: Option<&T>)
        requires
            self.wf(),
        ensures
            self.has_stream(id) ==> transport == Some(&self.stream_at(id).transport),
            !self.has_stream(id) ==> transport.is_none(),
    {
        let key = id.as_usize();
        if key >= self.transports.len() {
            return None;
        }
        match &self.transports[key] {
            Some(Evented::Stream(stream)) => Some(stream.transport()),
            _ => None,
        }
    }

    /// The listener `id`.
    pub fn acceptor(&self, id: Id) -> (lis: Option<&L>)
        requires
            self.wf(),
        ensures
            self.has_listener(id) ==> lis == Some(&self.endpoints()[id@]->Listener_0),
            !self.has_listener(id) ==> lis.is_none(),
    {
        let key = id.as_usize();
        if key >= self.transports.len() {
            return None;
        }
        match &self.transports[key] {
            Some(Evented::Listener(lis)) => Some(lis),
            _ => None,
        }
    }

    /// What the stream `id` waits for.
    pub fn interest(&self, id: Id) -> (interest: Option<Interest>)
        requires
            self.wf(),
        ensures
            self.has_stream(id) ==> interest == Some(self.stream_at(id).interest),
            !self.has_stream(id) ==> interest.is_none(),
    {
        let key = id.as_usize();
        if key >= self.transports.len() {
            return None;
        }
        match &self.transports[key] {
            Some(Evented::Stream(stream)) => Some(stream.interest()),
            _ => None,
        }
    }

    /// Adds a listener.
    ///
    /// With no free slot the result is `TooManySockets` and the table stays as
    /// it is. Else the listener takes the first free slot, and the notifier is
    /// to watch it for the readable edge, level-triggered.
    pub fn listener(&mut self, lis: L) -> (r: Result<(Id, Op), Error>)
        requires
            old(self).wf(),
        ensures
            final(self).wf(),
            old(self).settled() ==> final(self).settled(),
            final(self).capacity() == old(self).capacity(),
            final(self).factory() == old(self).factory(),
            final(self).created() == old(self).created(),
            final(self).removed() == old(self).removed(),
            old(self).vacant().len() == 0 ==> r is Err && r->Err_0 is TooManySockets && final(
                self
            ).same_as(old(self)),
            old(self).vacant().len() > 0 ==> r is Ok && r->Ok_0.0@ == old(self).vacant()[0]
                && r->Ok_0.1 == Op::Register(
                r->Ok_0.0,
                EventSet::of(true, false, false, false),
                Op::listener_opt(),
            ) && final(self).endpoints() == old(self).endpoints().insert(
                r->Ok_0.0@,
                Endpoint::Listener(lis),
            ) && final(self).vacant() == old(self).vacant().drop_first(),
    {
        let ghost before = self.slots;
        let key = match self.slots.insert(Kind::Listener) {
            Some(key) => key,
            None => {
                return Err(Error::TooManySockets);
            },
        };
        proof {
            lemma_filled_slots(before, self.slots, Kind::Listener);
        }
        self.transports[key] = Some(Evented::Listener(lis));
        let id = Id::from_usize(key);
        assert(self.endpoints() =~= old(self).endpoints().insert(id@, Endpoint::Listener(lis)));
        Ok((id, Op::Register(id, EventSet::readable(), PollOpt::level())))
    }

    /// Carries out `action` on the endpoint `id`.
    ///
    /// `Register` on a stream records the edges and asks the notifier to
    /// watch them; on a listener it does nothing, since a listener is
    /// registered once. `Wait` does nothing. `Remove` marks a stream for
    /// removal and asks the notifier to let go of the endpoint. An `Id` that
    /// names no endpoint is passed over.
    pub fn action(&mut self, id: Id, action: Action) -> (op: Op)
        requires
            old(self).wf(),
        ensures
            final(self).wf(),
            old(self).settled() && (old(self).has_stream(id) ==> action == old(self).stream_at(
                id,
            ).action()) ==> final(self).settled(),
            old(self).has_stream(id) ==> final(self).differs_at(
                old(self),
                id,
                old(self).stream_at(id).apply(action),
            ) && op == Op::of(id, action),
            old(self).has_listener(id) ==> final(self).same_as(old(self)) && op == (
            if action is Remove {
                Op::Deregister(id)
            } else {
                Op::Idle
            }),
            !old(self).endpoints().dom().contains(id@) ==> final(self).same_as(old(self)) && op
                == Op::Idle,
    {
        let key = id.as_usize();
        if key >= self.transports.len() {
            return Op::Idle;
        }
        let op = match &mut self.transports[key] {
            None => Op::Idle,
            Some(Evented::Listener(_)) => {
                match action {
                    Action::Remove => Op::Deregister(id),
                    _ => Op::Idle,
                }
            },
            Some(Evented::Stream(stream)) => {
                match action {
                    Action::Register(events) => {
                        stream.armed(events);
                        Op::Reregister(id, events, PollOpt::edge() | PollOpt::oneshot())
                    },
                    Action::Wait => Op::Idle,
                    Action::Remove => {
                        stream.close();
                        Op::Deregister(id)
                    },
                }
            },
        };
        assert(self.endpoints() =~= if old(self).has_stream(id) {
            old(self).endpoints().insert(
                id@,
                Endpoint::Stream(old(self).stream_at(id).apply(action)),
            )
        } else {
            old(self).endpoints()
        });
        op
    }

    /// Whether `self` is what `before` becomes when a stream with `transport`
    /// is given its first free slot and `op` is the operation that follows.
    ///
    /// The factory is called once, with a `Transfer` for that slot on the
    /// channel `notify` and with the `Id` of the slot, and what it makes is
    /// the stream's protocol and first interest. A stream whose factory asks
    /// for `Remove` is gone again at once: its protocol receives `on_remove`,
    /// the table is `before`'s, and there is nothing to do. Every other
    /// stream stands in the slot, has made no call yet, and `op` registers it
    /// for the edges of the interest the factory returned.
    pub open spec fn admits(
        &self,
        before: &LoopHandler<F, L, T>,
        notify: mio::Sender<Message>,
        transport: T,
        op: Op,
    ) -> bool {
        let (id, interest) = self.created().last();
        let stream = if interest == Interest::Remove {
            self.removed().last().1
        } else {
            self.stream_at(id)
        };
        &&& self.capacity() == before.capacity()
        &&& self.created() == before.created().push((id, interest))
        &&& id@ == before.vacant()[0]
        &&& before.factory().makes(Transfer::of(id, notify), id, (stream.protocol, interest))
        &&& stream.transport == transport
        &&& stream.interest == interest
        &&& stream.calls.len() == 0
        &&& stream.made.len() == 0
        &&& op == Op::first(id, interest)
        &&& if interest == Interest::Remove {
            &&& self.endpoints() == before.endpoints()
            &&& self.vacant() == before.vacant()
            &&& self.removed() == before.removed().push((id, stream))
        } else {
            &&& self.removed() == before.removed()
            &&& self.has_stream(id)
            &&& stream.registered == interest.events()
            &&& self.endpoints() == before.endpoints().insert(id@, Endpoint::Stream(stream))
            &&& self.vacant() == before.vacant().drop_first()
        }
    }

    /// Adds a stream.
    ///
    /// With no free slot the result is `TooManySockets`, the factory is not
    /// called, and the table stays as it is. Else the factory makes the
    /// protocol, with a `Transfer` on `notify` and the `Id` of the first free
    /// slot, and the stream is admitted as `admits` says.
    pub fn stream(&mut self, notify: mio::Sender<Message>, transport: T) -> (r: Result<
        (Id, Op),
        Error,
    >)
        requires
            old(self).wf(),
        ensures
            final(self).wf(),
            old(self).settled() ==> final(self).settled(),
            old(self).vacant().len() == 0 ==> r is Err && r->Err_0 is TooManySockets && final(
                self
            ).same_as(old(self)),
            old(self).vacant().len() > 0 ==> r is Ok && r->Ok_0.0@ == old(self).vacant()[0]
                && final(self).admits(old(self), notify, transport, r->Ok_0.1),
    {
        let ghost before = self.slots;
        let key = match self.slots.insert(Kind::Stream) {
            Some(key) => key,
            None => {
                assert(self.endpoints() == old(self).endpoints());
                return Err(Error::TooManySockets);
            },
        };
        proof {
            lemma_filled_slots(before, self.slots, Kind::Stream);
        }
        let id = Id::from_usize(key);
        let (protocol, interest) = self.make(id, notify);
        let mut stream = Stream::new(transport, protocol, interest);
        match stream.action() {
            Action::Remove => {
                let ghost taken = self.slots;
                self.slots.remove(key);
                proof {
                    lemma_emptied_slots(taken, self.slots, key);
                    assert(slab_vacant(self.slots) =~= slab_vacant(before));
                }
                assert(self.endpoints() == old(self).endpoints());
                self.retire(id, stream);
                assert(self.endpoints() == old(self).endpoints());
                Ok((id, Op::Idle))
            },
            action => {
                let events = match action {
                    Action::Register(events) => events,
                    _ => EventSet::none(),
                };
                stream.armed(events);
                let ghost view = stream@;
                self.transports[key] = Some(Evented::Stream(stream));
                proof {
                    assert(self.endpoints() =~= old(self).endpoints().insert(
                        id@,
                        Endpoint::Stream(view),
                    ));
                    if old(self).settled() {
                        assert forall|k: usize| #[trigger]
                            self.endpoints().dom().contains(k) implies self.endpoints()[k].settled() by {
                            assert(k == id@ || old(self).endpoints().dom().contains(k));
                        }
                    }
                }
                Ok((id, Op::Register(id, events, PollOpt::edge() | PollOpt::oneshot())))
            },
        }
    }

    /// The notifier reports `events` on `id`.
    ///
    /// A listener is to be accepted on. A stream has the events delivered to
    /// its protocol, and the action of its interest carried out, as
    /// `StreamView::turns` says of a stream whose registration has fired. An
    /// `Id` that names no endpoint is passed over.
    pub fn ready(&mut self, id: Id, events: EventSet) -> (op: Op)
        requires
            old(self).wf(),
        ensures
            final(self).wf(),
            old(self).settled() ==> final(self).settled(),
            old(self).has_stream(id) ==> final(self).differs_at(
                old(self),
                id,
                final(self).stream_at(id),
            ) && old(self).stream_at(id).fired().turns(events, final(self).stream_at(id), id, op),
            old(self).has_listener(id) ==> final(self).same_as(old(self)) && op == Op::Accept(id),
            !old(self).endpoints().dom().contains(id@) ==> final(self).same_as(old(self)) && op
                == Op::Idle,
    {
        let key = id.as_usize();
        if key >= self.transports.len() {
            return Op::Idle;
        }
        match self.slots.get(key) {
            None => {
                return Op::Idle;
            },
            Some(Kind::Listener) => {
                return Op::Accept(id);
            },
            Some(Kind::Stream) => {},
        }
        let action = match &mut self.transports[key] {
            Some(Evented::Stream(stream)) => {
                stream.fired();
                stream.ready(events);
                stream.action()
            },
            _ => Action::Wait,
        };
        let ghost reached = self.endpoints()[id@]->Stream_0;
        proof {
            let dealt = old(self).stream_at(id).fired();
            assert(old(self).endpoints().dom().contains(id@));
            assert(dealt.sound());
            lemma_on_error_is_final(dealt, events, reached);
            assert forall|key: usize| #[trigger]
                self.endpoints().dom().contains(key) implies self.endpoints()[key].sound() by {
                assert(key == id@ || old(self).endpoints().dom().contains(key));
            }
        }
        let op = self.action(id, action);
        assert(final(self).endpoints() =~= old(self).endpoints().insert(
            id@,
            Endpoint::Stream(final(self).stream_at(id)),
        ));
        op
    }

    /// A message arrives from another thread.
    ///
    /// `Shutdown` and `Timeout` are handed on to the notifier. `Interest` adds
    /// the interest to what the stream waits for; the edges of the sum are
    /// then delivered as if the notifier had reported them, since the stream
    /// may not have used them up before, and the action of the stream's
    /// interest is carried out, as `StreamView::turns` says. A message for an
    /// `Id` that names no stream is dropped.
    pub fn notify(&mut self, msg: Message) -> (op: Op)
        requires
            old(self).wf(),
        ensures
            final(self).wf(),
            old(self).settled() ==> final(self).settled(),
            msg is Shutdown ==> final(self).same_as(old(self)) && op == Op::Shutdown,
            msg matches Message::Timeout(callback, delay) ==> final(self).same_as(old(self)) && op
                == Op::Timeout(callback, delay),
            msg matches Message::Interest(id, interest) ==> (!old(self).has_stream(id) ==> final(
                self
            ).same_as(old(self)) && op == Op::Idle) && (old(self).has_stream(id) ==> final(
                self
            ).differs_at(old(self), id, final(self).stream_at(id)) && old(self).stream_at(
                id,
            ).wanting(interest).turns(
                old(self).stream_at(id).interest.plus(interest).events(),
                final(self).stream_at(id),
                id,
                op,
            )),
    {
        match msg {
            Message::Interest(id, interest) => {
                let key = id.as_usize();
                if key >= self.transports.len() {
                    return Op::Idle;
                }
                match self.slots.get(key) {
                    Some(Kind::Stream) => {},
                    _ => {
                        return Op::Idle;
                    },
                }
                let action = match &mut self.transports[key] {
                    Some(Evented::Stream(stream)) => {
                        stream.want(interest);
                        let wanted: Action = stream.interest().into();
                        match wanted {
                            Action::Register(events) => {
                                stream.ready(events);
                                stream.action()
                            },
                            _ => wanted,
                        }
                    },
                    _ => Action::Wait,
                };
                let ghost reached = self.endpoints()[id@]->Stream_0;
                proof {
                    let wanting = old(self).stream_at(id).wanting(interest);
                    if !wanting.interest.wants_events() {
                        lemma_no_edge_no_call(wanting, wanting.interest.events());
                    }
                    assert(old(self).endpoints().dom().contains(id@));
                    assert(wanting.sound());
                    lemma_on_error_is_final(wanting, wanting.interest.events(), reached);
                    assert forall|key: usize| #[trigger]
                        self.endpoints().dom().contains(key) implies self.endpoints()[key].sound() by {
                        assert(key == id@ || old(self).endpoints().dom().contains(key));
                    }
                }
                let op = self.action(id, action);
                assert(final(self).endpoints() =~= old(self).endpoints().insert(
                    id@,
                    Endpoint::Stream(final(self).stream_at(id)),
                ));
                op
            },
            Message::Timeout(callback, delay) => Op::Timeout(callback, delay),
            Message::Shutdown => Op::Shutdown,
        }
    }

    /// An attempt to accept on the listener `id` has ended.
    ///
    /// A new connection is added as by `stream`; with no free slot it is
    /// dropped. Nothing, or an error that would block or interrupted the
    /// call, leaves all as it is. Any other error ends the listener: the
    /// notifier is to let go of it. The outcome of an `Id` that names no
    /// listener is dropped.
    pub fn accepted(&mut self, id: Id, accepted: Accepted<T>, notify: mio::Sender<Message>) -> (op:
        Op)
        requires
            old(self).wf(),
        ensures
            final(self).wf(),
            old(self).settled() ==> final(self).settled(),
            !old(self).has_listener(id) ==> final(self).same_as(old(self)) && op == Op::Idle,
            old(self).has_listener(id) ==> match accepted {
                Accepted::Stream(transport) => if old(self).vacant().len() == 0 {
                    final(self).same_as(old(self)) && op == Op::Idle
                } else {
                    final(self).admits(old(self), notify, transport, op)
                },
                Accepted::Nothing => final(self).same_as(old(self)) && op == Op::Idle,
                Accepted::Failed(fault) => final(self).same_as(old(self)) && op == (if fault
                    == Fault::Fatal {
                    Op::Deregister(id)
                } else {
                    Op::Idle
                }),
            },
    {
        let key = id.as_usize();
        if key >= self.transports.len() {
            return Op::Idle;
        }
        match self.slots.get(key) {
            Some(Kind::Listener) => {},
            _ => {
                return Op::Idle;
            },
        }
        match accepted {
            Accepted::Stream(transport) => {
                match self.stream(notify, transport) {
                    Ok((_, op)) => op,
                    Err(_) => Op::Idle,
                }
            },
            Accepted::Nothing => Op::Idle,
            Accepted::Failed(fault) => {
                match fault {
                    Fault::Fatal => Op::Deregister(id),
                    _ => Op::Idle,
                }
            },
        }
    }

    /// Takes the endpoint `id` out of the table and frees its slot, which is
    /// the first to be taken again. A stream's transport goes to its
    /// protocol's `on_remove`, once; a listener is dropped. The result says
    /// whether `id` named an endpoint.
    pub fn remove(&mut self, id: Id) -> (removed: bool)
        requires
            old(self).wf(),
        ensures
            final(self).wf(),
            old(self).settled() ==> final(self).settled(),
            final(self).capacity() == old(self).capacity(),
            final(self).factory() == old(self).factory(),
            final(self).created() == old(self).created(),
            removed == old(self).endpoints().dom().contains(id@),
            removed ==> final(self).endpoints() == old(self).endpoints().remove(id@) && final(
                self
            ).vacant() == seq![id@] + old(self).vacant(),
            old(self).has_stream(id) ==> final(self).removed() == old(self).removed().push(
                (id, old(self).stream_at(id)),
            ),
            !old(self).has_stream(id) ==> final(self).removed() == old(self).removed(),
            !removed ==> final(self).same_as(old(self)),
    {
        let key = id.as_usize();
        if key >= self.transports.len() {
            return false;
        }
        let slot = self.transports[key].take();
        match slot {
            None => {
                assert(self.transports@ =~= old(self).transports@);
                false
            },
            Some(endpoint) => {
                let ghost before = self.slots;
                self.slots.remove(key);
                proof {
                    lemma_emptied_slots(before, self.slots, key);
                }
                assert(self.endpoints() =~= old(self).endpoints().remove(id@));
                match endpoint {
                    Evented::Listener(_) => {},
                    Evented::Stream(stream) => {
                        self.retire(id, stream);
                    },
                }
                true
            },
        }
    }
}

} // verus!
