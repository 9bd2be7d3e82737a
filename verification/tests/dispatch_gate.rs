use choir::modules::gate::{Admission, DispatchGate, Permit, PROVIDER_CAPACITY};

fn granted(admission: Admission) -> Permit {
    match admission {
        Admission::Granted(permit) => permit,
        Admission::Suspended(ticket) => panic!("caller {} was suspended", ticket),
    }
}

fn suspended(admission: Admission) -> u64 {
    match admission {
        Admission::Suspended(ticket) => ticket,
        Admission::Granted(permit) => panic!("caller {} was granted", permit.ticket()),
    }
}

#[test]
fn a_new_gate_is_idle() {
    let gate = DispatchGate::new(PROVIDER_CAPACITY);
    assert_eq!(PROVIDER_CAPACITY, 15);
    assert_eq!(gate.capacity(), 15);
    assert_eq!(gate.running(), 0);
    assert_eq!(gate.suspended(), 0);
    assert_eq!(gate.issued(), 0);
}

#[test]
fn one_caller_more_than_capacity_is_suspended() {
    for capacity in [1usize, 2, 3, 15] {
        let mut gate = DispatchGate::new(capacity);
        let mut permits = Vec::new();
        for k in 0..capacity {
            let permit = granted(gate.acquire());
            assert_eq!(permit.ticket(), k as u64);
            permits.push(permit);
            assert_eq!(gate.running(), k + 1);
            assert_eq!(gate.suspended(), 0);
        }
        let late = suspended(gate.acquire());
        assert_eq!(late, capacity as u64);
        assert_eq!(gate.running(), capacity);
        assert_eq!(gate.suspended(), 1);

        let resumed = gate.release(permits.remove(0)).expect("the suspended caller goes on");
        assert_eq!(resumed.ticket(), late);
        assert_eq!(gate.running(), capacity);
        assert_eq!(gate.suspended(), 0);
    }
}

#[test]
fn suspended_callers_go_on_in_the_order_of_arrival() {
    let mut gate = DispatchGate::new(2);
    let first = granted(gate.acquire());
    let second = granted(gate.acquire());
    let third = suspended(gate.acquire());
    let fourth = suspended(gate.acquire());
    let fifth = suspended(gate.acquire());
    assert_eq!((third, fourth, fifth), (2, 3, 4));
    assert_eq!(gate.suspended(), 3);

    let a = gate.release(second).unwrap();
    assert_eq!(a.ticket(), third);
    let b = gate.release(first).unwrap();
    assert_eq!(b.ticket(), fourth);
    let c = gate.release(a).unwrap();
    assert_eq!(c.ticket(), fifth);
    assert_eq!(gate.running(), 2);
    assert_eq!(gate.suspended(), 0);

    assert!(gate.release(b).is_none());
    assert_eq!(gate.running(), 1);
    assert!(gate.release(c).is_none());
    assert_eq!(gate.running(), 0);
    assert_eq!(gate.issued(), 5);
}

#[test]
fn a_freed_permit_is_granted_to_the_next_caller() {
    let mut gate = DispatchGate::new(1);
    let first = granted(gate.acquire());
    assert!(gate.release(first).is_none());
    let second = granted(gate.acquire());
    assert_eq!(second.ticket(), 1);
    assert_eq!(gate.running(), 1);
}

#[test]
fn a_permit_that_is_not_held_changes_nothing() {
    let mut other = DispatchGate::new(8);
    for _ in 0..5 {
        granted(other.acquire());
    }
    let foreign = granted(other.acquire());
    assert_eq!(foreign.ticket(), 5);

    let mut gate = DispatchGate::new(1);
    let held = granted(gate.acquire());
    let waiting = suspended(gate.acquire());
    assert!(gate.release(foreign).is_none());
    assert_eq!(gate.running(), 1);
    assert_eq!(gate.suspended(), 1);
    assert_eq!(gate.release(held).unwrap().ticket(), waiting);
}

#[test]
fn try_acquire_admits_like_acquire() {
    let mut gate = DispatchGate::new(1);
    match gate.try_acquire() {
        Some(Admission::Granted(permit)) => assert_eq!(permit.ticket(), 0),
        other => panic!("unexpected answer {:?}", other),
    }
    assert_eq!(gate.try_acquire(), Some(Admission::Suspended(1)));
    assert_eq!(gate.running(), 1);
    assert_eq!(gate.suspended(), 1);
    assert_eq!(gate.issued(), 2);
}

#[test]
fn a_gate_without_permits_suspends_everyone() {
    let mut gate = DispatchGate::new(0);
    assert_eq!(suspended(gate.acquire()), 0);
    assert_eq!(suspended(gate.acquire()), 1);
    assert_eq!(gate.running(), 0);
    assert_eq!(gate.suspended(), 2);
}
