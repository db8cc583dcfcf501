use subsim::{ThrusterOf, ThrusterTable};

#[test]
fn vehicle_lists_its_thrusters_in_attach_order() {
    let mut table = ThrusterTable::new();
    table.attach(10, ThrusterOf { sub: 1, id: 0 });
    table.attach(11, ThrusterOf { sub: 2, id: 0 });
    table.attach(12, ThrusterOf { sub: 1, id: 1 });
    assert_eq!(table.thrusters(1).0, vec![10, 12]);
    assert_eq!(table.thrusters(2).0, vec![11]);
    assert_eq!(table.thrusters(3).0, Vec::<u64>::new());
    assert_eq!(table.owner(12), Some(ThrusterOf { sub: 1, id: 1 }));
    assert_eq!(table.owner(99), None);
}

#[test]
fn reattaching_moves_a_thruster() {
    let mut table = ThrusterTable::new();
    table.attach(10, ThrusterOf { sub: 1, id: 0 });
    table.attach(12, ThrusterOf { sub: 1, id: 1 });
    table.attach(10, ThrusterOf { sub: 2, id: 5 });
    assert_eq!(table.thrusters(1).0, vec![12]);
    assert_eq!(table.thrusters(2).0, vec![10]);
    assert_eq!(table.owner(10), Some(ThrusterOf { sub: 2, id: 5 }));
    table.attach(12, ThrusterOf { sub: 1, id: 3 });
    assert_eq!(table.thrusters(1).0, vec![12]);
}

#[test]
fn detaching_removes_from_the_vehicle() {
    let mut table = ThrusterTable::new();
    table.attach(10, ThrusterOf { sub: 1, id: 0 });
    table.attach(12, ThrusterOf { sub: 1, id: 1 });
    table.detach(10);
    table.detach(77);
    assert_eq!(table.thrusters(1).0, vec![12]);
    assert_eq!(table.owner(10), None);
}
