use deepdrive::gate::{AdmissionGate, DEFAULT_GATE_CAPACITY};

#[test]
fn fourth_acquire_waits_for_a_release() {
    let mut gate = AdmissionGate::new(DEFAULT_GATE_CAPACITY);
    let p1 = gate.try_acquire().unwrap();
    let _p2 = gate.try_acquire().unwrap();
    let _p3 = gate.try_acquire().unwrap();
    assert!(gate.try_acquire().is_none());
    gate.release(p1);
    assert!(gate.try_acquire().is_some());
}

#[test]
fn released_slot_is_reusable_many_times() {
    let mut gate = AdmissionGate::new(1);
    for _ in 0..10 {
        let p = gate.try_acquire().unwrap();
        assert!(gate.try_acquire().is_none());
        gate.release(p);
    }
    assert!(gate.try_acquire().is_some());
}

#[test]
fn zero_capacity_gate_admits_nobody() {
    let mut gate = AdmissionGate::new(0);
    assert!(gate.try_acquire().is_none());
}
