use portscan::{
    PortRange, ProbeEffects, ProbeState, Phase, Scan, ScanError, Step, Summary, Target,
};

fn new_scan(start: u16, end: u16) -> Scan {
    Scan::new(Target::loopback(), PortRange::new(start, end).unwrap())
}

/// Launches every task and releases the coordinator's handle; returns the
/// ports launched, in the order of launching.
fn launch_all(scan: &mut Scan) -> Vec<u16> {
    let mut launched = Vec::new();
    loop {
        match scan.advance() {
            Step::Started => {}
            Step::Launch(port) => launched.push(port),
            Step::Released => return launched,
            step => panic!("out of turn: {:?}", step),
        }
    }
}

/// Resolves the tasks for `order`, one after the other, open where the port
/// is among `listeners`.
fn resolve_in_order(scan: &mut Scan, order: &[u16], listeners: &[u16]) {
    for port in order {
        assert_eq!(scan.begin(*port), Ok(()));
        assert!(scan.resolve(*port, listeners.contains(port)).is_ok());
    }
}

/// Drains the channel until the run is done; returns the ports collected on
/// the way.
fn drain(scan: &mut Scan) -> Vec<u16> {
    let mut collected = Vec::new();
    loop {
        match scan.advance() {
            Step::Collected(port) => collected.push(port),
            Step::Done => return collected,
            step => panic!("out of turn: {:?}", step),
        }
    }
}

#[test]
fn a_new_scan_is_idle() {
    let scan = new_scan(4999, 5002);
    assert_eq!(scan.phase(), Phase::Idle);
    assert!(!scan.is_complete());
    assert_eq!(scan.launched(), 0);
    assert_eq!(scan.producers(), 1);
    assert_eq!(scan.pending(), 0);
    assert_eq!(scan.open_ports(), &Vec::<u16>::new());
    assert_eq!(scan.target(), Target::loopback());
    assert_eq!(scan.range(), PortRange::new(4999, 5002).unwrap());
    assert_eq!(scan.task_state(4999), None);
}

#[test]
fn the_coordinator_goes_through_its_phases_in_order() {
    let mut scan = new_scan(10, 12);
    assert_eq!(scan.advance(), Step::Started);
    assert_eq!(scan.phase(), Phase::Launching);
    assert_eq!(scan.advance(), Step::Launch(10));
    assert_eq!(scan.phase(), Phase::Launching);
    assert_eq!(scan.advance(), Step::Launch(11));
    assert_eq!(scan.phase(), Phase::Launching);
    assert_eq!(scan.advance(), Step::Released);
    assert_eq!(scan.phase(), Phase::Draining);
    resolve_in_order(&mut scan, &[10, 11], &[]);
    assert_eq!(scan.advance(), Step::Done);
    assert_eq!(scan.phase(), Phase::Complete);
    assert!(scan.is_complete());
}

#[test]
fn one_task_is_launched_for_each_port() {
    let mut scan = new_scan(100, 164);
    let launched = launch_all(&mut scan);
    assert_eq!(launched.len(), 64);
    assert_eq!(launched, (100..164).collect::<Vec<u16>>());
    assert_eq!(scan.launched(), 64);
    for port in 100..164 {
        assert_eq!(scan.task_state(port), Some(ProbeState::Spawned));
    }
    assert_eq!(scan.task_state(99), None);
    assert_eq!(scan.task_state(164), None);
}

#[test]
fn every_task_holds_a_producer_handle_until_it_resolves() {
    let mut scan = new_scan(10, 13);
    assert_eq!(scan.advance(), Step::Started);
    assert_eq!(scan.producers(), 1);
    assert_eq!(scan.advance(), Step::Launch(10));
    assert_eq!(scan.producers(), 2);
    assert_eq!(scan.advance(), Step::Launch(11));
    assert_eq!(scan.advance(), Step::Launch(12));
    assert_eq!(scan.producers(), 4);
    assert_eq!(scan.advance(), Step::Released);
    assert_eq!(scan.producers(), 3);
    assert_eq!(scan.begin(11), Ok(()));
    assert_eq!(scan.producers(), 3);
    assert!(scan.resolve(11, true).is_ok());
    assert_eq!(scan.producers(), 2);
    resolve_in_order(&mut scan, &[10, 12], &[]);
    assert_eq!(scan.producers(), 0);
}

#[test]
fn listener_on_5000_is_the_one_open_port() {
    let mut scan = new_scan(4999, 5002);
    assert_eq!(launch_all(&mut scan), vec![4999, 5000, 5001]);
    assert_eq!(scan.begin(4999), Ok(()));
    assert_eq!(scan.begin(5000), Ok(()));
    assert_eq!(scan.begin(5001), Ok(()));
    assert_eq!(scan.resolve(5001, false), Ok(ProbeEffects { pulse: false, forward: None }));
    assert_eq!(scan.resolve(5000, true), Ok(ProbeEffects { pulse: true, forward: Some(5000) }));
    assert_eq!(scan.resolve(4999, false), Ok(ProbeEffects { pulse: false, forward: None }));
    assert_eq!(drain(&mut scan), vec![5000]);
    assert_eq!(scan.open_ports(), &vec![5000]);
    assert_eq!(scan.task_state(4999), Some(ProbeState::Closed));
    assert_eq!(scan.task_state(5000), Some(ProbeState::Open));
    assert_eq!(scan.task_state(5001), Some(ProbeState::Closed));
    match scan.into_summary() {
        Summary::Open { target, ports } => {
            assert_eq!(target, Target::loopback());
            assert_eq!(ports.len(), 1);
            assert_eq!(ports, vec![5000]);
        }
        summary => panic!("no open port in {:?}", summary),
    }
}

#[test]
fn no_listener_means_no_open_port() {
    let mut scan = new_scan(6000, 6010);
    let launched = launch_all(&mut scan);
    assert_eq!(launched.len(), 10);
    resolve_in_order(&mut scan, &launched, &[]);
    assert_eq!(drain(&mut scan), Vec::<u16>::new());
    assert!(scan.is_complete());
    assert_eq!(scan.open_ports(), &Vec::<u16>::new());
    assert_eq!(scan.into_summary(), Summary::NoneOpen { target: Target::loopback() });
}

#[test]
fn unreachable_target_closes_all_four_probes() {
    let unreachable = Target::V4((10 << 24) + (255 << 16) + (255 << 8) + 1);
    let mut scan = Scan::new(unreachable, PortRange::new(1, 5).unwrap());
    assert_eq!(launch_all(&mut scan), vec![1, 2, 3, 4]);
    for port in 1..5 {
        assert_eq!(scan.begin(port), Ok(()));
        assert_eq!(scan.resolve(port, false), Ok(ProbeEffects { pulse: false, forward: None }));
    }
    for port in 1..5 {
        assert_eq!(scan.task_state(port), Some(ProbeState::Closed));
    }
    assert_eq!(scan.advance(), Step::Done);
    assert_eq!(scan.open_ports(), &Vec::<u16>::new());
    assert_eq!(scan.into_summary(), Summary::NoneOpen { target: unreachable });
}

#[test]
fn an_empty_range_runs_through_without_a_wait() {
    let mut scan = new_scan(5000, 5000);
    assert_eq!(scan.advance(), Step::Started);
    assert_eq!(scan.advance(), Step::Released);
    assert_eq!(scan.advance(), Step::Done);
    assert!(scan.is_complete());
    assert_eq!(scan.launched(), 0);
    assert_eq!(scan.producers(), 0);
    assert_eq!(scan.open_ports(), &Vec::<u16>::new());
}

#[test]
fn a_reversed_range_runs_through_without_a_wait() {
    let mut scan = new_scan(9, 3);
    assert_eq!(scan.advance(), Step::Started);
    assert_eq!(scan.advance(), Step::Released);
    assert_eq!(scan.advance(), Step::Done);
    assert_eq!(scan.launched(), 0);
}

#[test]
fn the_end_port_is_not_probed() {
    let mut scan = new_scan(65533, 65535);
    assert_eq!(launch_all(&mut scan), vec![65533, 65534]);
    assert_eq!(scan.task_state(65535), None);
    assert_eq!(scan.begin(65535), Err(ScanError::NotLaunched));
    assert_eq!(scan.resolve(65535, true), Err(ScanError::NotLaunched));
    resolve_in_order(&mut scan, &[65533, 65534], &[65533, 65534, 65535]);
    assert_eq!(drain(&mut scan), vec![65533, 65534]);
}

#[test]
fn open_ports_come_in_the_order_of_completion() {
    let mut scan = new_scan(20, 26);
    launch_all(&mut scan);
    resolve_in_order(&mut scan, &[25, 21, 23, 20, 24, 22], &[21, 22, 25]);
    assert_eq!(drain(&mut scan), vec![25, 21, 22]);
    assert_eq!(scan.open_ports(), &vec![25, 21, 22]);
}

#[test]
fn two_runs_against_the_same_listeners_find_the_same_ports() {
    let listeners = [31, 33, 38];
    let mut first = new_scan(30, 40);
    let mut order = launch_all(&mut first);
    resolve_in_order(&mut first, &order, &listeners);
    let mut found_first = drain(&mut first);

    let mut second = new_scan(30, 40);
    launch_all(&mut second);
    order.reverse();
    resolve_in_order(&mut second, &order, &listeners);
    let mut found_second = drain(&mut second);

    assert_eq!(found_first, vec![31, 33, 38]);
    assert_eq!(found_second, vec![38, 33, 31]);
    found_first.sort();
    found_second.sort();
    assert_eq!(found_first, found_second);
}

#[test]
fn the_coordinator_waits_while_a_task_is_unresolved() {
    let mut scan = new_scan(50, 52);
    launch_all(&mut scan);
    assert_eq!(scan.advance(), Step::Wait);
    assert_eq!(scan.advance(), Step::Wait);
    assert_eq!(scan.phase(), Phase::Draining);
    assert_eq!(scan.begin(50), Ok(()));
    assert_eq!(scan.advance(), Step::Wait);
    assert!(scan.resolve(50, true).is_ok());
    assert_eq!(scan.advance(), Step::Collected(50));
    assert_eq!(scan.advance(), Step::Wait);
    assert_eq!(scan.begin(51), Ok(()));
    assert!(scan.resolve(51, false).is_ok());
    assert_eq!(scan.advance(), Step::Done);
    assert_eq!(scan.open_ports(), &vec![50]);
}

#[test]
fn the_drain_ends_with_no_open_port_at_all() {
    let mut scan = new_scan(50, 53);
    launch_all(&mut scan);
    resolve_in_order(&mut scan, &[52, 50], &[]);
    assert_eq!(scan.advance(), Step::Wait);
    resolve_in_order(&mut scan, &[51], &[]);
    assert_eq!(scan.advance(), Step::Done);
    assert!(scan.is_complete());
}

#[test]
fn tasks_may_resolve_while_others_are_still_launched() {
    let mut scan = new_scan(70, 73);
    assert_eq!(scan.advance(), Step::Started);
    assert_eq!(scan.advance(), Step::Launch(70));
    assert_eq!(scan.begin(70), Ok(()));
    assert!(scan.resolve(70, true).is_ok());
    assert_eq!(scan.pending(), 1);
    assert_eq!(scan.producers(), 1);
    assert_eq!(scan.advance(), Step::Launch(71));
    assert_eq!(scan.advance(), Step::Launch(72));
    assert_eq!(scan.advance(), Step::Released);
    assert_eq!(scan.advance(), Step::Collected(70));
    assert_eq!(scan.pending(), 0);
    resolve_in_order(&mut scan, &[72, 71], &[72]);
    assert_eq!(drain(&mut scan), vec![72]);
    assert_eq!(scan.open_ports(), &vec![70, 72]);
}

#[test]
fn a_task_that_was_not_launched_is_refused() {
    let mut scan = new_scan(80, 90);
    assert_eq!(scan.begin(80), Err(ScanError::NotLaunched));
    assert_eq!(scan.advance(), Step::Started);
    assert_eq!(scan.advance(), Step::Launch(80));
    assert_eq!(scan.begin(81), Err(ScanError::NotLaunched));
    assert_eq!(scan.resolve(81, true), Err(ScanError::NotLaunched));
    assert_eq!(scan.begin(79), Err(ScanError::NotLaunched));
    assert_eq!(scan.begin(90), Err(ScanError::NotLaunched));
    assert_eq!(scan.resolve(1, false), Err(ScanError::NotLaunched));
    assert_eq!(scan.pending(), 0);
    assert_eq!(scan.producers(), 2);
}

#[test]
fn a_task_begins_its_attempt_only_once() {
    let mut scan = new_scan(80, 82);
    launch_all(&mut scan);
    assert_eq!(scan.begin(80), Ok(()));
    assert_eq!(scan.begin(80), Err(ScanError::NotSpawned));
    assert_eq!(scan.task_state(80), Some(ProbeState::Connecting));
    assert!(scan.resolve(80, false).is_ok());
    assert_eq!(scan.begin(80), Err(ScanError::NotSpawned));
    assert_eq!(scan.task_state(80), Some(ProbeState::Closed));
}

#[test]
fn a_task_resolves_only_from_its_attempt_and_only_once() {
    let mut scan = new_scan(80, 82);
    launch_all(&mut scan);
    assert_eq!(scan.resolve(80, true), Err(ScanError::NotConnecting));
    assert_eq!(scan.pending(), 0);
    assert_eq!(scan.begin(80), Ok(()));
    assert_eq!(scan.resolve(80, true), Ok(ProbeEffects { pulse: true, forward: Some(80) }));
    assert_eq!(scan.resolve(80, true), Err(ScanError::NotConnecting));
    assert_eq!(scan.resolve(80, false), Err(ScanError::NotConnecting));
    assert_eq!(scan.pending(), 1);
    assert_eq!(scan.producers(), 1);
    assert_eq!(scan.task_state(80), Some(ProbeState::Open));
}

#[test]
fn a_complete_run_stays_complete() {
    let mut scan = new_scan(80, 81);
    launch_all(&mut scan);
    resolve_in_order(&mut scan, &[80], &[80]);
    assert_eq!(drain(&mut scan), vec![80]);
    assert_eq!(scan.advance(), Step::Done);
    assert_eq!(scan.advance(), Step::Done);
    assert_eq!(scan.begin(80), Err(ScanError::NotSpawned));
    assert_eq!(scan.resolve(80, true), Err(ScanError::NotConnecting));
    assert!(scan.is_complete());
    assert_eq!(scan.open_ports(), &vec![80]);
    assert_eq!(scan.into_open_ports(), vec![80]);
}

#[test]
fn the_target_and_the_range_never_change() {
    let target = Target::V6(1);
    let range = PortRange::new(8, 11).unwrap();
    let mut scan = Scan::new(target, range);
    let launched = launch_all(&mut scan);
    assert_eq!(scan.target(), target);
    assert_eq!(scan.range(), range);
    resolve_in_order(&mut scan, &launched, &[9]);
    drain(&mut scan);
    assert_eq!(scan.target(), target);
    assert_eq!(scan.range(), range);
}
