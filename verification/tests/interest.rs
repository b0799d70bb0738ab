use tick::Interest::{Read, ReadWrite, Remove, Wait, Write};
use tick::{Action, EventSet, Fault, Interest};

const ALL: [Interest; 5] =
    [Interest::Remove, Interest::Wait, Interest::Read, Interest::Write, Interest::ReadWrite];

fn rank(i: Interest) -> usize {
    match i {
        Interest::Remove => 0,
        Interest::Wait => 1,
        Interest::Read => 2,
        Interest::Write => 3,
        Interest::ReadWrite => 4,
    }
}

#[test]
fn add_matches_table() {
    // rows: left operand, columns: right operand, both in the order of ALL
    let table = [
        [Remove, Remove, Remove, Remove, Remove],
        [Remove, Wait, Read, Write, ReadWrite],
        [Remove, Read, Read, ReadWrite, ReadWrite],
        [Remove, Write, ReadWrite, Write, ReadWrite],
        [Remove, ReadWrite, ReadWrite, ReadWrite, ReadWrite],
    ];
    for a in ALL {
        for b in ALL {
            assert_eq!(a + b, table[rank(a)][rank(b)], "{:?} + {:?}", a, b);
        }
    }
}

#[test]
fn sub_matches_table() {
    let table = [
        [Remove, Remove, Wait, Wait, Wait],
        [Wait, Wait, Wait, Wait, Wait],
        [Read, Read, Wait, Wait, Wait],
        [Write, Write, Wait, Wait, Wait],
        [ReadWrite, ReadWrite, Write, Read, Wait],
    ];
    for a in ALL {
        for b in ALL {
            assert_eq!(a - b, table[rank(a)][rank(b)], "{:?} - {:?}", a, b);
        }
    }
}

#[test]
fn add_is_commutative() {
    for a in ALL {
        for b in ALL {
            assert_eq!(a + b, b + a);
        }
    }
}

#[test]
fn add_is_associative_and_idempotent() {
    for a in ALL {
        assert_eq!(a + a, a);
        for b in ALL {
            for c in ALL {
                assert_eq!((a + b) + c, a + (b + c));
            }
        }
    }
}

#[test]
fn wait_is_identity_of_add() {
    for a in ALL {
        assert_eq!(a + Interest::Wait, a);
        assert_eq!(Interest::Wait + a, a);
    }
}

#[test]
fn remove_absorbs_add() {
    for a in ALL {
        assert_eq!(a + Interest::Remove, Interest::Remove);
        assert_eq!(Interest::Remove + a, Interest::Remove);
    }
}

#[test]
fn sub_by_wait_or_remove_is_identity() {
    for a in ALL {
        assert_eq!(a - Interest::Wait, a);
        assert_eq!(a - Interest::Remove, a);
    }
}

#[test]
fn sub_takes_a_direction_from_read_write() {
    assert_eq!(Interest::ReadWrite - Interest::Read, Interest::Write);
    assert_eq!(Interest::ReadWrite - Interest::Write, Interest::Read);
    assert_eq!(Interest::ReadWrite - Interest::ReadWrite, Interest::Wait);
    assert_eq!(Interest::Read - Interest::Write, Interest::Wait);
}

#[test]
fn interest_into_action() {
    let read: Action = Interest::Read.into();
    assert_eq!(read, Action::Register(EventSet::readable()));
    let write: Action = Interest::Write.into();
    assert_eq!(write, Action::Register(EventSet::writable()));
    let both: Action = Interest::ReadWrite.into();
    assert_eq!(both, Action::Register(EventSet::readable() | EventSet::writable()));
    assert_eq!(
        both,
        Action::Register(EventSet { readable: true, writable: true, error: false, hup: false })
    );
    let wait: Action = Interest::Wait.into();
    assert_eq!(wait, Action::Wait);
    let remove: Action = Interest::Remove.into();
    assert_eq!(remove, Action::Remove);
    assert_eq!(Action::from(Interest::Read), read);
}

#[test]
fn settle_adopts_keeps_or_removes() {
    for current in ALL {
        for next in ALL {
            assert_eq!(current.settle(Ok(next)), next);
        }
        assert_eq!(current.settle(Err(Fault::WouldBlock)), current);
        assert_eq!(current.settle(Err(Fault::Interrupted)), current);
        assert_eq!(current.settle(Err(Fault::Fatal)), Interest::Remove);
    }
}
