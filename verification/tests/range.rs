use portscan::{end_port_guard, start_port_guard, Arguments, PortRange, Target, MAX};

#[test]
fn start_port_guard_refuses_zero() {
    assert!(!start_port_guard(&0));
}

#[test]
fn start_port_guard_accepts_one_and_above() {
    assert!(start_port_guard(&1));
    assert!(start_port_guard(&5000));
    assert!(start_port_guard(&65535));
}

#[test]
fn end_port_guard_accepts_every_port() {
    assert!(end_port_guard(&0));
    assert!(end_port_guard(&1));
    assert!(end_port_guard(&65534));
    assert!(end_port_guard(&65535));
}

#[test]
fn max_is_the_highest_port() {
    assert_eq!(MAX, 65535);
    assert_eq!(MAX, u16::MAX);
}

#[test]
fn range_refuses_start_zero() {
    assert_eq!(PortRange::new(0, 10), None);
    assert_eq!(PortRange::new(0, 0), None);
}

#[test]
fn range_keeps_its_bounds() {
    let range = PortRange::new(4999, 5002).unwrap();
    assert_eq!(range.start(), 4999);
    assert_eq!(range.end(), 5002);
    assert_eq!(range.count(), 3);
    assert!(!range.is_empty());
}

#[test]
fn range_is_half_open() {
    let range = PortRange::new(4999, 5002).unwrap();
    assert_eq!(range.to_vec(), vec![4999, 5000, 5001]);
    assert!(!range.covers(4998));
    assert!(range.covers(4999));
    assert!(range.covers(5001));
    assert!(!range.covers(5002));
}

#[test]
fn range_positions_count_from_zero() {
    let range = PortRange::new(4999, 5002).unwrap();
    assert_eq!(range.position(4999), Some(0));
    assert_eq!(range.position(5001), Some(2));
    assert_eq!(range.position(5002), None);
    assert_eq!(range.position(1), None);
}

#[test]
fn range_with_equal_bounds_is_empty() {
    let range = PortRange::new(7, 7).unwrap();
    assert_eq!(range.count(), 0);
    assert!(range.is_empty());
    assert_eq!(range.to_vec(), Vec::<u16>::new());
    assert!(!range.covers(7));
}

#[test]
fn range_with_end_below_start_is_empty() {
    let range = PortRange::new(9, 3).unwrap();
    assert_eq!(range.count(), 0);
    assert!(range.is_empty());
    assert_eq!(range.to_vec(), Vec::<u16>::new());
    assert!(!range.covers(5));
}

#[test]
fn range_up_to_the_highest_port_leaves_it_out() {
    let range = PortRange::new(65530, 65535).unwrap();
    assert_eq!(range.count(), 5);
    assert_eq!(range.to_vec(), vec![65530, 65531, 65532, 65533, 65534]);
    assert!(range.covers(65534));
    assert!(!range.covers(65535));
}

#[test]
fn full_range_has_all_ports_but_the_last() {
    let range = PortRange::new(1, 65535).unwrap();
    assert_eq!(range.count(), 65534);
    let ports = range.to_vec();
    assert_eq!(ports.len(), 65534);
    assert_eq!(ports[0], 1);
    assert_eq!(ports[65533], 65534);
}

#[test]
fn loopback_is_127_0_0_1() {
    assert_eq!(Target::loopback(), Target::V4(0x7f00_0001));
    assert_eq!(Target::loopback(), Target::V4((127 << 24) + 1));
}

#[test]
fn default_arguments_scan_loopback_from_port_one() {
    let args = Arguments::default();
    assert_eq!(args.address, Target::loopback());
    assert_eq!(args.start_port, 1);
    assert_eq!(args.end_port, 65535);
    assert!(args.is_valid());
    let range = args.range().unwrap();
    assert_eq!(range.start(), 1);
    assert_eq!(range.end(), 65535);
}

#[test]
fn arguments_with_start_zero_are_not_valid() {
    let args = Arguments { address: Target::loopback(), start_port: 0, end_port: 100 };
    assert!(!args.is_valid());
    assert_eq!(args.range(), None);
}

#[test]
fn arguments_give_their_range() {
    let args = Arguments { address: Target::V6(1), start_port: 20, end_port: 25 };
    assert!(args.is_valid());
    assert_eq!(args.range(), PortRange::new(20, 25));
    assert_eq!(args.range().unwrap().to_vec(), vec![20, 21, 22, 23, 24]);
}
