use std::cell::RefCell;
use std::collections::VecDeque;
use std::io;
use std::rc::Rc;

use tick::handler::{Accepted, LoopHandler};
use tick::{
    Error, EventSet, Fault, Id, Interest, Message, Op, PollOpt, Protocol, Thunk, Transfer,
};

#[derive(Debug, PartialEq, Clone)]
enum Call {
    Create(usize),
    Readable(usize),
    Writable(usize),
    Error(usize),
    Remove(usize, u32),
}

type Log = Rc<RefCell<Vec<Call>>>;

struct Wire(u32);

struct Script {
    id: usize,
    log: Log,
    readable: VecDeque<Result<Interest, io::ErrorKind>>,
    writable: VecDeque<Result<Interest, io::ErrorKind>>,
    rest: Result<Interest, io::ErrorKind>,
    transfer: Transfer,
}

fn answer(
    queue: &mut VecDeque<Result<Interest, io::ErrorKind>>,
    rest: &Result<Interest, io::ErrorKind>,
) -> io::Result<Interest> {
    match queue.pop_front().unwrap_or(rest.clone()) {
        Ok(interest) => Ok(interest),
        Err(kind) => Err(io::Error::new(kind, "scripted")),
    }
}

impl Protocol<Wire> for Script {
    fn on_readable(&mut self, _: &mut Wire) -> io::Result<Interest> {
        self.log.borrow_mut().push(Call::Readable(self.id));
        answer(&mut self.readable, &self.rest)
    }

    fn on_writable(&mut self, _: &mut Wire) -> io::Result<Interest> {
        self.log.borrow_mut().push(Call::Writable(self.id));
        answer(&mut self.writable, &self.rest)
    }

    fn on_error(&mut self, _: Error) {
        self.log.borrow_mut().push(Call::Error(self.id));
    }

    fn on_remove(self, transport: Wire) {
        assert_eq!(self.transfer.stream_id().as_usize(), self.id);
        self.log.borrow_mut().push(Call::Remove(self.id, transport.0));
    }
}

/// A loop that only lends its channel.
struct Sink;

impl mio::Handler for Sink {
    type Timeout = ();
    type Message = Message;
}

struct Bench {
    log: Log,
    event_loop: mio::EventLoop<Sink>,
}

fn bench() -> Bench {
    Bench { log: Rc::new(RefCell::new(Vec::new())), event_loop: mio::EventLoop::new().unwrap() }
}

/// A factory whose protocols start with `first` and answer `rest` to every
/// callback.
fn factory(
    log: &Log,
    first: Interest,
    rest: Result<Interest, io::ErrorKind>,
) -> impl FnMut(Transfer, Id) -> (Script, Interest) {
    let log = log.clone();
    move |transfer, id| {
        log.borrow_mut().push(Call::Create(id.as_usize()));
        let protocol = Script {
            id: id.as_usize(),
            log: log.clone(),
            readable: VecDeque::new(),
            writable: VecDeque::new(),
            rest: rest.clone(),
            transfer,
        };
        (protocol, first)
    }
}

fn show_events(events: &EventSet) -> String {
    let mut s = String::new();
    if events.readable {
        s.push('r');
    }
    if events.writable {
        s.push('w');
    }
    if events.error {
        s.push('e');
    }
    if events.hup {
        s.push('h');
    }
    if s.is_empty() {
        s.push('-');
    }
    s
}

fn show_opt(opt: &PollOpt) -> String {
    format!(
        "{}{}{}",
        if opt.edge { "edge" } else { "" },
        if opt.level { "level" } else { "" },
        if opt.oneshot { "+oneshot" } else { "" }
    )
}

fn show(op: &Op) -> String {
    match op {
        Op::Idle => format!("idle"),
        Op::Accept(id) => format!("accept {}", id.as_usize()),
        Op::Register(id, events, opt) => {
            format!("register {} {} {}", id.as_usize(), show_events(events), show_opt(opt))
        }
        Op::Reregister(id, events, opt) => {
            format!("reregister {} {} {}", id.as_usize(), show_events(events), show_opt(opt))
        }
        Op::Deregister(id) => format!("deregister {}", id.as_usize()),
        Op::Timeout(_, delay) => format!("timeout {}", delay),
        Op::Shutdown => format!("shutdown"),
    }
}

fn both() -> EventSet {
    EventSet::readable() | EventSet::writable()
}

fn live<F: tick::ProtocolFactory<Wire>>(handler: &LoopHandler<F, u8, Wire>, upto: usize) -> usize {
    (0..upto).filter(|i| handler.contains(Id::from_usize(*i))).count()
}

#[test]
fn new_handler_is_empty() {
    let b = bench();
    let handler: LoopHandler<_, u8, Wire> =
        LoopHandler::new(factory(&b.log, Interest::Read, Ok(Interest::Read)), 4);
    assert_eq!(handler.count(), 0);
    for i in 0..6 {
        assert!(!handler.contains(Id::from_usize(i)));
        assert!(handler.transport(Id::from_usize(i)).is_none());
        assert!(handler.acceptor(Id::from_usize(i)).is_none());
        assert!(handler.interest(Id::from_usize(i)).is_none());
    }
}

#[test]
fn listener_is_registered_readable_level() {
    let b = bench();
    let mut handler: LoopHandler<_, u8, Wire> =
        LoopHandler::new(factory(&b.log, Interest::Read, Ok(Interest::Read)), 4);
    let (id, op) = handler.listener(9).unwrap();
    assert_eq!(id, Id::from_usize(0));
    assert_eq!(show(&op), "register 0 r level");
    assert!(handler.contains(id));
    assert_eq!(handler.acceptor(id), Some(&9));
    assert!(handler.transport(id).is_none());
    assert!(handler.interest(id).is_none());
    assert_eq!(handler.count(), 1);
    assert!(b.log.borrow().is_empty());
}

#[test]
fn first_registration_is_the_factorys_interest() {
    for (first, expected) in [
        (Interest::Read, "register 0 r edge+oneshot"),
        (Interest::Write, "register 0 w edge+oneshot"),
        (Interest::ReadWrite, "register 0 rw edge+oneshot"),
        (Interest::Wait, "register 0 - edge+oneshot"),
    ] {
        let b = bench();
        let mut handler: LoopHandler<_, u8, Wire> =
            LoopHandler::new(factory(&b.log, first, Ok(Interest::Read)), 4);
        let (id, op) = handler.stream(b.event_loop.channel(), Wire(5)).unwrap();
        assert_eq!(id, Id::from_usize(0));
        assert_eq!(show(&op), expected);
        assert_eq!(handler.interest(id), Some(first));
        assert_eq!(handler.transport(id).map(|t| t.0), Some(5));
        assert_eq!(*b.log.borrow(), vec![Call::Create(0)]);
    }
}

#[test]
fn factory_that_asks_for_remove_gets_no_slot() {
    let b = bench();
    let mut handler: LoopHandler<_, u8, Wire> =
        LoopHandler::new(factory(&b.log, Interest::Remove, Ok(Interest::Read)), 2);
    let (id, op) = handler.stream(b.event_loop.channel(), Wire(5)).unwrap();
    assert_eq!(id, Id::from_usize(0));
    assert_eq!(show(&op), "idle");
    assert!(!handler.contains(id));
    assert_eq!(handler.count(), 0);
    assert_eq!(*b.log.borrow(), vec![Call::Create(0), Call::Remove(0, 5)]);
    let (id, _) = handler.listener(1).unwrap();
    assert_eq!(id, Id::from_usize(0));
}

#[test]
fn capacity_is_fixed_and_ids_are_reused() {
    let b = bench();
    let mut handler: LoopHandler<_, u8, Wire> =
        LoopHandler::new(factory(&b.log, Interest::Read, Ok(Interest::Read)), 2);
    let (first, _) = handler.stream(b.event_loop.channel(), Wire(1)).unwrap();
    let (second, _) = handler.stream(b.event_loop.channel(), Wire(2)).unwrap();
    assert_eq!(first, Id::from_usize(0));
    assert_eq!(second, Id::from_usize(1));
    b.log.borrow_mut().clear();

    match handler.stream(b.event_loop.channel(), Wire(3)) {
        Err(Error::TooManySockets) => {}
        _ => panic!("a third stream found a slot"),
    }
    assert!(b.log.borrow().is_empty());
    match handler.listener(7) {
        Err(Error::TooManySockets) => {}
        _ => panic!("a listener found a slot"),
    }
    assert_eq!(handler.count(), 2);
    assert_eq!(handler.transport(first).map(|t| t.0), Some(1));
    assert_eq!(handler.transport(second).map(|t| t.0), Some(2));
    assert_eq!(handler.interest(first), Some(Interest::Read));

    assert!(handler.remove(first));
    assert_eq!(*b.log.borrow(), vec![Call::Remove(0, 1)]);
    assert!(!handler.contains(first));
    assert_eq!(handler.count(), 1);
    let (third, op) = handler.stream(b.event_loop.channel(), Wire(3)).unwrap();
    assert_eq!(third, first);
    assert_eq!(show(&op), "register 0 r edge+oneshot");
    assert_eq!(handler.transport(third).map(|t| t.0), Some(3));
}

#[test]
fn freed_slots_are_taken_last_freed_first() {
    let b = bench();
    let mut handler: LoopHandler<_, u8, Wire> =
        LoopHandler::new(factory(&b.log, Interest::Read, Ok(Interest::Read)), 4);
    for i in 0..4 {
        let (id, _) = handler.listener(i).unwrap();
        assert_eq!(id.as_usize(), i as usize);
    }
    assert!(handler.remove(Id::from_usize(1)));
    assert!(handler.remove(Id::from_usize(3)));
    assert!(handler.remove(Id::from_usize(0)));
    assert!(!handler.remove(Id::from_usize(0)));
    assert!(!handler.remove(Id::from_usize(17)));
    assert_eq!(handler.listener(10).unwrap().0.as_usize(), 0);
    assert_eq!(handler.listener(11).unwrap().0.as_usize(), 3);
    assert_eq!(handler.listener(12).unwrap().0.as_usize(), 1);
    assert!(handler.listener(13).is_err());
    assert_eq!(handler.acceptor(Id::from_usize(3)), Some(&11));
    assert_eq!(handler.acceptor(Id::from_usize(2)), Some(&2));
}

#[test]
fn slab_and_table_count_the_same() {
    let b = bench();
    let mut handler: LoopHandler<_, u8, Wire> =
        LoopHandler::new(factory(&b.log, Interest::Read, Ok(Interest::Wait)), 5);
    assert_eq!(handler.count(), live(&handler, 8));
    let _ = handler.listener(1).unwrap();
    let (a, _) = handler.stream(b.event_loop.channel(), Wire(1)).unwrap();
    let (c, _) = handler.stream(b.event_loop.channel(), Wire(2)).unwrap();
    assert_eq!(handler.count(), 3);
    assert_eq!(handler.count(), live(&handler, 8));
    let _ = handler.ready(a, EventSet::readable());
    let _ = handler.notify(Message::Interest(c, Interest::Write));
    assert_eq!(handler.count(), live(&handler, 8));
    handler.remove(a);
    assert_eq!(handler.count(), 2);
    assert_eq!(handler.count(), live(&handler, 8));
    handler.remove(c);
    handler.remove(Id::from_usize(0));
    assert_eq!(handler.count(), 0);
    assert_eq!(handler.count(), live(&handler, 8));
}

#[test]
fn zero_capacity_takes_nothing() {
    let b = bench();
    let mut handler: LoopHandler<_, u8, Wire> =
        LoopHandler::new(factory(&b.log, Interest::Read, Ok(Interest::Read)), 0);
    assert!(handler.listener(1).is_err());
    assert!(handler.stream(b.event_loop.channel(), Wire(1)).is_err());
    assert_eq!(show(&handler.ready(Id::from_usize(0), both())), "idle");
    assert!(!handler.remove(Id::from_usize(0)));
    assert!(b.log.borrow().is_empty());
}

#[test]
fn ready_on_unknown_id_is_passed_over() {
    let b = bench();
    let mut handler: LoopHandler<_, u8, Wire> =
        LoopHandler::new(factory(&b.log, Interest::Read, Ok(Interest::Read)), 2);
    assert_eq!(show(&handler.ready(Id::from_usize(0), both())), "idle");
    assert_eq!(show(&handler.ready(Id::from_usize(1), both())), "idle");
    assert_eq!(show(&handler.ready(Id::from_usize(2), both())), "idle");
    assert_eq!(show(&handler.ready(Id::from_usize(usize::MAX), both())), "idle");
    assert!(b.log.borrow().is_empty());
}

#[test]
fn ready_on_listener_asks_to_accept() {
    let b = bench();
    let mut handler: LoopHandler<_, u8, Wire> =
        LoopHandler::new(factory(&b.log, Interest::Read, Ok(Interest::Read)), 2);
    let (id, _) = handler.listener(3).unwrap();
    assert_eq!(show(&handler.ready(id, EventSet::readable())), "accept 0");
    assert_eq!(handler.acceptor(id), Some(&3));
}

#[test]
fn accepted_stream_is_registered_with_the_factorys_interest() {
    let b = bench();
    let mut handler: LoopHandler<_, u8, Wire> =
        LoopHandler::new(factory(&b.log, Interest::ReadWrite, Ok(Interest::Read)), 2);
    let (lis, _) = handler.listener(3).unwrap();
    let op = handler.accepted(lis, Accepted::Stream(Wire(8)), b.event_loop.channel());
    assert_eq!(show(&op), "register 1 rw edge+oneshot");
    assert_eq!(handler.transport(Id::from_usize(1)).map(|t| t.0), Some(8));
    assert_eq!(*b.log.borrow(), vec![Call::Create(1)]);
    // the table is full now: the next connection is dropped
    let op = handler.accepted(lis, Accepted::Stream(Wire(9)), b.event_loop.channel());
    assert_eq!(show(&op), "idle");
    assert_eq!(handler.count(), 2);
    assert_eq!(*b.log.borrow(), vec![Call::Create(1)]);
}

#[test]
fn accepted_nothing_or_transient_error_changes_nothing() {
    let b = bench();
    let mut handler: LoopHandler<_, u8, Wire> =
        LoopHandler::new(factory(&b.log, Interest::Read, Ok(Interest::Read)), 2);
    let (lis, _) = handler.listener(3).unwrap();
    let channel = || b.event_loop.channel();
    assert_eq!(show(&handler.accepted(lis, Accepted::Nothing, channel())), "idle");
    assert_eq!(show(&handler.accepted(lis, Accepted::Failed(Fault::WouldBlock), channel())), "idle");
    assert_eq!(
        show(&handler.accepted(lis, Accepted::Failed(Fault::Interrupted), channel())),
        "idle"
    );
    assert_eq!(handler.count(), 1);
    assert!(b.log.borrow().is_empty());
}

#[test]
fn fatal_accept_error_ends_the_listener() {
    let b = bench();
    let mut handler: LoopHandler<_, u8, Wire> =
        LoopHandler::new(factory(&b.log, Interest::Read, Ok(Interest::Read)), 2);
    let (lis, _) = handler.listener(3).unwrap();
    let outcome: io::Result<Option<Wire>> = Err(io::Error::new(io::ErrorKind::Other, "test"));
    let op = handler.accepted(lis, Accepted::of(outcome), b.event_loop.channel());
    assert_eq!(show(&op), "deregister 0");
    assert!(handler.remove(lis));
    assert_eq!(handler.count(), 0);
}

#[test]
fn accepted_on_a_stream_or_unknown_id_is_dropped() {
    let b = bench();
    let mut handler: LoopHandler<_, u8, Wire> =
        LoopHandler::new(factory(&b.log, Interest::Read, Ok(Interest::Read)), 3);
    let (stream, _) = handler.stream(b.event_loop.channel(), Wire(1)).unwrap();
    b.log.borrow_mut().clear();
    let op = handler.accepted(stream, Accepted::Stream(Wire(2)), b.event_loop.channel());
    assert_eq!(show(&op), "idle");
    let op = handler.accepted(Id::from_usize(2), Accepted::Stream(Wire(2)), b.event_loop.channel());
    assert_eq!(show(&op), "idle");
    let op = handler.accepted(
        Id::from_usize(9),
        Accepted::Failed(Fault::Fatal),
        b.event_loop.channel(),
    );
    assert_eq!(show(&op), "idle");
    assert_eq!(handler.count(), 1);
    assert!(b.log.borrow().is_empty());
}

#[test]
fn accepted_sorts_results() {
    assert_eq!(format!("{:?}", Fault::Fatal), "Fatal");
    match Accepted::of(Ok(Some(Wire(4)))) {
        Accepted::Stream(Wire(4)) => {}
        _ => panic!("not a stream"),
    }
    match Accepted::<Wire>::of(Ok(None)) {
        Accepted::Nothing => {}
        _ => panic!("not nothing"),
    }
    for (kind, fault) in [
        (io::ErrorKind::WouldBlock, Fault::WouldBlock),
        (io::ErrorKind::Interrupted, Fault::Interrupted),
        (io::ErrorKind::ConnectionAborted, Fault::Fatal),
        (io::ErrorKind::Other, Fault::Fatal),
    ] {
        match Accepted::<Wire>::of(Err(io::Error::new(kind, "test"))) {
            Accepted::Failed(f) => assert_eq!(f, fault),
            _ => panic!("not a failure"),
        }
    }
}

#[test]
fn readiness_is_followed_by_one_registration() {
    let b = bench();
    let mut handler: LoopHandler<_, u8, Wire> =
        LoopHandler::new(factory(&b.log, Interest::Read, Ok(Interest::ReadWrite)), 2);
    let (id, _) = handler.stream(b.event_loop.channel(), Wire(1)).unwrap();
    b.log.borrow_mut().clear();
    let op = handler.ready(id, EventSet::readable());
    assert_eq!(show(&op), "reregister 0 rw edge+oneshot");
    assert_eq!(*b.log.borrow(), vec![Call::Readable(0)]);
    assert_eq!(handler.interest(id), Some(Interest::ReadWrite));
    // the same interest again: the registration has fired, so it is renewed
    let op = handler.ready(id, both());
    assert_eq!(show(&op), "reregister 0 rw edge+oneshot");
    assert_eq!(*b.log.borrow(), vec![Call::Readable(0), Call::Readable(0), Call::Writable(0)]);
}

#[test]
fn would_block_is_registered_for_readable_again() {
    let b = bench();
    let mut handler: LoopHandler<_, u8, Wire> =
        LoopHandler::new(factory(&b.log, Interest::Read, Err(io::ErrorKind::WouldBlock)), 2);
    let (id, _) = handler.stream(b.event_loop.channel(), Wire(1)).unwrap();
    b.log.borrow_mut().clear();
    let op = handler.ready(id, EventSet::readable());
    assert_eq!(show(&op), "reregister 0 r edge+oneshot");
    assert_eq!(*b.log.borrow(), vec![Call::Readable(0)]);
    assert_eq!(handler.interest(id), Some(Interest::Read));
}

#[test]
fn remove_from_first_callback_deregisters_and_removes_once() {
    let b = bench();
    let mut handler: LoopHandler<_, u8, Wire> =
        LoopHandler::new(factory(&b.log, Interest::ReadWrite, Ok(Interest::Remove)), 2);
    let (id, _) = handler.stream(b.event_loop.channel(), Wire(6)).unwrap();
    b.log.borrow_mut().clear();
    let op = handler.ready(id, EventSet::readable());
    assert_eq!(show(&op), "deregister 0");
    assert_eq!(*b.log.borrow(), vec![Call::Readable(0)]);
    assert_eq!(handler.interest(id), Some(Interest::Remove));
    assert!(handler.remove(id));
    assert_eq!(*b.log.borrow(), vec![Call::Readable(0), Call::Remove(0, 6)]);
    assert!(!handler.remove(id));
    assert_eq!(show(&handler.ready(id, both())), "idle");
    assert_eq!(show(&handler.notify(Message::Interest(id, Interest::Read))), "idle");
    assert_eq!(*b.log.borrow(), vec![Call::Readable(0), Call::Remove(0, 6)]);
}

#[test]
fn both_edges_run_both_callbacks_and_the_last_answer_is_applied() {
    let b = bench();
    let log = b.log.clone();
    let make = move |transfer: Transfer, id: Id| {
        let mut readable = VecDeque::new();
        readable.push_back(Ok(Interest::Remove));
        let protocol = Script {
            id: id.as_usize(),
            log: log.clone(),
            readable,
            writable: VecDeque::new(),
            rest: Ok(Interest::Write),
            transfer,
        };
        (protocol, Interest::ReadWrite)
    };
    let mut handler: LoopHandler<_, u8, Wire> = LoopHandler::new(make, 2);
    let (id, _) = handler.stream(b.event_loop.channel(), Wire(6)).unwrap();
    let op = handler.ready(id, both());
    assert_eq!(*b.log.borrow(), vec![Call::Readable(0), Call::Writable(0)]);
    assert_eq!(show(&op), "reregister 0 w edge+oneshot");
    assert_eq!(handler.interest(id), Some(Interest::Write));
}

#[test]
fn request_for_write_runs_both_callbacks_on_the_merged_edges() {
    let b = bench();
    let log = b.log.clone();
    let make = move |transfer: Transfer, id: Id| {
        let mut readable = VecDeque::new();
        readable.push_back(Ok(Interest::Remove));
        let protocol = Script {
            id: id.as_usize(),
            log: log.clone(),
            readable,
            writable: VecDeque::new(),
            rest: Ok(Interest::Write),
            transfer,
        };
        (protocol, Interest::Read)
    };
    let mut handler: LoopHandler<_, u8, Wire> = LoopHandler::new(make, 2);
    let (id, _) = handler.stream(b.event_loop.channel(), Wire(6)).unwrap();
    let op = handler.notify(Message::Interest(id, Interest::Write));
    assert_eq!(*b.log.borrow(), vec![Call::Readable(0), Call::Writable(0)]);
    assert_eq!(show(&op), "reregister 0 w edge+oneshot");
    assert_eq!(handler.interest(id), Some(Interest::Write));
}

#[test]
fn stream_marked_for_removal_receives_no_callback() {
    let b = bench();
    let mut handler: LoopHandler<_, u8, Wire> =
        LoopHandler::new(factory(&b.log, Interest::Read, Ok(Interest::Remove)), 2);
    let (id, _) = handler.stream(b.event_loop.channel(), Wire(6)).unwrap();
    assert_eq!(show(&handler.ready(id, EventSet::readable())), "deregister 0");
    b.log.borrow_mut().clear();
    assert_eq!(show(&handler.ready(id, both())), "deregister 0");
    assert_eq!(show(&handler.notify(Message::Interest(id, Interest::Write))), "deregister 0");
    assert!(b.log.borrow().is_empty());
}

#[test]
fn error_event_deregisters_without_a_callback() {
    let b = bench();
    let mut handler: LoopHandler<_, u8, Wire> =
        LoopHandler::new(factory(&b.log, Interest::Read, Ok(Interest::Read)), 2);
    let (id, _) = handler.stream(b.event_loop.channel(), Wire(6)).unwrap();
    b.log.borrow_mut().clear();
    let op = handler.ready(id, EventSet::error() | EventSet::readable());
    assert_eq!(show(&op), "deregister 0");
    assert!(b.log.borrow().is_empty());
}

#[test]
fn fatal_callback_error_is_delivered_once_and_deregisters() {
    let b = bench();
    let mut handler: LoopHandler<_, u8, Wire> =
        LoopHandler::new(factory(&b.log, Interest::ReadWrite, Err(io::ErrorKind::BrokenPipe)), 2);
    let (id, _) = handler.stream(b.event_loop.channel(), Wire(6)).unwrap();
    b.log.borrow_mut().clear();
    let op = handler.ready(id, both());
    assert_eq!(show(&op), "deregister 0");
    assert_eq!(*b.log.borrow(), vec![Call::Readable(0), Call::Error(0)]);
    assert!(handler.remove(id));
    assert_eq!(*b.log.borrow(), vec![Call::Readable(0), Call::Error(0), Call::Remove(0, 6)]);
}

#[test]
fn waiting_stream_is_not_registered_until_woken() {
    let b = bench();
    let mut handler: LoopHandler<_, u8, Wire> =
        LoopHandler::new(factory(&b.log, Interest::Read, Ok(Interest::Wait)), 2);
    let (id, op) = handler.stream(b.event_loop.channel(), Wire(6)).unwrap();
    assert_eq!(show(&op), "register 0 r edge+oneshot");
    for _ in 0..3 {
        assert_eq!(show(&handler.ready(id, EventSet::readable())), "idle");
        assert_eq!(handler.interest(id), Some(Interest::Wait));
    }
    assert_eq!(show(&handler.notify(Message::Interest(id, Interest::Wait))), "idle");
    b.log.borrow_mut().clear();
    // woken for write: on_writable runs, answers Wait again, nothing is registered
    assert_eq!(show(&handler.notify(Message::Interest(id, Interest::Write))), "idle");
    assert_eq!(*b.log.borrow(), vec![Call::Writable(0)]);
}

#[test]
fn external_wake_up_delivers_and_registers() {
    let b = bench();
    let mut handler: LoopHandler<_, u8, Wire> =
        LoopHandler::new(factory(&b.log, Interest::Wait, Ok(Interest::Write)), 2);
    let (id, op) = handler.stream(b.event_loop.channel(), Wire(6)).unwrap();
    assert_eq!(show(&op), "register 0 - edge+oneshot");
    b.log.borrow_mut().clear();
    let op = handler.notify(Message::Interest(id, Interest::Write));
    assert_eq!(*b.log.borrow(), vec![Call::Writable(0)]);
    assert_eq!(show(&op), "reregister 0 w edge+oneshot");
    assert_eq!(handler.interest(id), Some(Interest::Write));
}

#[test]
fn woken_stream_that_would_block_keeps_the_requested_interest() {
    let b = bench();
    let mut handler: LoopHandler<_, u8, Wire> =
        LoopHandler::new(factory(&b.log, Interest::Read, Err(io::ErrorKind::WouldBlock)), 2);
    let (id, _) = handler.stream(b.event_loop.channel(), Wire(6)).unwrap();
    b.log.borrow_mut().clear();
    let op = handler.notify(Message::Interest(id, Interest::Write));
    assert_eq!(*b.log.borrow(), vec![Call::Readable(0), Call::Writable(0)]);
    assert_eq!(show(&op), "reregister 0 rw edge+oneshot");
    assert_eq!(handler.interest(id), Some(Interest::ReadWrite));
}

#[test]
fn repeated_request_is_coalesced() {
    let b = bench();
    let mut handler: LoopHandler<_, u8, Wire> =
        LoopHandler::new(factory(&b.log, Interest::Read, Ok(Interest::Read)), 2);
    let (id, op) = handler.stream(b.event_loop.channel(), Wire(6)).unwrap();
    assert_eq!(show(&op), "register 0 r edge+oneshot");
    // the notifier watches the readable edge already
    assert_eq!(show(&handler.notify(Message::Interest(id, Interest::Read))), "idle");
    assert_eq!(show(&handler.notify(Message::Interest(id, Interest::Read))), "idle");
    // after a delivery it watches nothing, and the interest is registered again
    assert_eq!(show(&handler.ready(id, EventSet::readable())), "reregister 0 r edge+oneshot");
    assert_eq!(show(&handler.notify(Message::Interest(id, Interest::Wait))), "idle");
}

#[test]
fn remove_request_deregisters_without_a_callback() {
    let b = bench();
    let mut handler: LoopHandler<_, u8, Wire> =
        LoopHandler::new(factory(&b.log, Interest::Read, Ok(Interest::Read)), 2);
    let (id, _) = handler.stream(b.event_loop.channel(), Wire(6)).unwrap();
    b.log.borrow_mut().clear();
    assert_eq!(show(&handler.notify(Message::Interest(id, Interest::Remove))), "deregister 0");
    assert!(b.log.borrow().is_empty());
    assert_eq!(handler.interest(id), Some(Interest::Remove));
}

#[test]
fn stale_message_is_dropped() {
    let b = bench();
    let mut handler: LoopHandler<_, u8, Wire> =
        LoopHandler::new(factory(&b.log, Interest::Read, Ok(Interest::Read)), 2);
    let (lis, _) = handler.listener(1).unwrap();
    assert_eq!(show(&handler.notify(Message::Interest(lis, Interest::Read))), "idle");
    assert_eq!(show(&handler.notify(Message::Interest(Id::from_usize(1), Interest::Read))), "idle");
    assert_eq!(show(&handler.notify(Message::Interest(Id::from_usize(99), Interest::Remove))), "idle");
    assert!(b.log.borrow().is_empty());
    assert_eq!(handler.count(), 1);
}

#[test]
fn shutdown_and_timeout_are_handed_on() {
    let b = bench();
    let mut handler: LoopHandler<_, u8, Wire> =
        LoopHandler::new(factory(&b.log, Interest::Read, Ok(Interest::Read)), 2);
    assert_eq!(show(&handler.notify(Message::Shutdown)), "shutdown");
    let flag = std::sync::Arc::new(std::sync::Mutex::new(0));
    let count = flag.clone();
    let callback = Thunk(Box::new(move || {
        *count.lock().unwrap() += 1;
    }));
    match handler.notify(Message::Timeout(callback, 250)) {
        Op::Timeout(mut callback, delay) => {
            assert_eq!(delay, 250);
            assert_eq!(*flag.lock().unwrap(), 0);
            callback.run();
            assert_eq!(*flag.lock().unwrap(), 1);
        }
        _ => panic!("not a timeout"),
    }
    assert_eq!(handler.count(), 0);
}

#[test]
fn action_on_stream_listener_and_nothing() {
    let b = bench();
    let mut handler: LoopHandler<_, u8, Wire> =
        LoopHandler::new(factory(&b.log, Interest::Read, Ok(Interest::Read)), 3);
    let (lis, _) = handler.listener(1).unwrap();
    let (id, _) = handler.stream(b.event_loop.channel(), Wire(6)).unwrap();
    let gone = Id::from_usize(2);
    b.log.borrow_mut().clear();
    let register = tick::Action::Register(both());
    assert_eq!(show(&handler.action(id, register)), "reregister 1 rw edge+oneshot");
    assert_eq!(show(&handler.action(lis, register)), "idle");
    assert_eq!(show(&handler.action(gone, register)), "idle");
    assert_eq!(show(&handler.action(id, tick::Action::Wait)), "idle");
    assert_eq!(show(&handler.action(lis, tick::Action::Wait)), "idle");
    assert_eq!(show(&handler.action(gone, tick::Action::Remove)), "idle");
    assert_eq!(show(&handler.action(lis, tick::Action::Remove)), "deregister 0");
    assert_eq!(handler.interest(id), Some(Interest::Read));
    assert_eq!(show(&handler.action(id, tick::Action::Remove)), "deregister 1");
    assert_eq!(handler.interest(id), Some(Interest::Remove));
    assert!(b.log.borrow().is_empty());
    assert_eq!(handler.count(), 2);
}

#[test]
fn transfer_of_the_factory_reaches_the_loop() {
    struct Keeper {
        seen: Vec<(usize, Interest)>,
    }
    impl mio::Handler for Keeper {
        type Timeout = ();
        type Message = Message;
        fn notify(&mut self, _: &mut mio::EventLoop<Keeper>, msg: Message) {
            if let Message::Interest(id, interest) = msg {
                self.seen.push((id.as_usize(), interest));
            }
        }
    }
    let mut event_loop: mio::EventLoop<Keeper> = mio::EventLoop::new().unwrap();
    let kept: Rc<RefCell<Vec<Transfer>>> = Rc::new(RefCell::new(Vec::new()));
    let keep = kept.clone();
    let log: Log = Rc::new(RefCell::new(Vec::new()));
    let make = move |transfer: Transfer, id: Id| {
        keep.borrow_mut().push(transfer.clone());
        let protocol = Script {
            id: id.as_usize(),
            log: log.clone(),
            readable: VecDeque::new(),
            writable: VecDeque::new(),
            rest: Ok(Interest::Wait),
            transfer,
        };
        (protocol, Interest::Wait)
    };
    let mut handler: LoopHandler<_, u8, Wire> = LoopHandler::new(make, 4);
    let _ = handler.listener(0).unwrap();
    let (id, _) = handler.stream(event_loop.channel(), Wire(1)).unwrap();
    assert_eq!(id.as_usize(), 1);
    assert!(kept.borrow()[0].interest(Interest::Write));
    let mut keeper = Keeper { seen: Vec::new() };
    event_loop.run_once(&mut keeper, Some(0)).unwrap();
    assert_eq!(keeper.seen, vec![(1, Interest::Write)]);
}
