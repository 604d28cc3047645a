use rusty_bicycle::bdaddr::BDAddr;
use rusty_bicycle::bleuuid::uuid_from_u16;
use rusty_bicycle::gatt::Characteristic;
use rusty_bicycle::gatt::Service;
use rusty_bicycle::inspector::keep_first_failure;
use rusty_bicycle::inspector::DeviceInspector;
use rusty_bicycle::inspector::InspectorPhase;
use rusty_bicycle::inspector::InspectorResponse;
use rusty_bicycle::session::Action;
use rusty_bicycle::session::RunError;
use rusty_bicycle::session::ScanFilter;

struct SimulatedDevice {
    id: u64,
    address: BDAddr,
    tree: Vec<Service>,
    accepts_connection: bool,
    discovery_works: bool,
    disconnect_works: bool,
}

struct SimulatedAdapter {
    devices: Vec<SimulatedDevice>,
    discoveries: Vec<u64>,
    stop_scan_works: bool,
    found: Option<usize>,
    log: Vec<&'static str>,
}

fn answer(adapter: &mut SimulatedAdapter, action: Action) -> InspectorResponse {
    match action {
        Action::Acquire => {
            adapter.log.push("acquire");
            InspectorResponse::Done
        }
        Action::StartScan(filter) => {
            assert_eq!(filter, ScanFilter::AcceptAll);
            adapter.log.push("start scan");
            InspectorResponse::Done
        }
        Action::NextEvent => {
            if adapter.discoveries.is_empty() {
                return InspectorResponse::StreamClosed;
            }
            let id = adapter.discoveries.remove(0);
            match adapter.devices.iter().position(|d| d.id == id) {
                Some(index) => {
                    adapter.found = Some(index);
                    InspectorResponse::Discovered(adapter.devices[index].address)
                }
                None => InspectorResponse::Ignored,
            }
        }
        Action::Connect => {
            adapter.log.push("connect");
            if adapter.devices[adapter.found.unwrap()].accepts_connection {
                InspectorResponse::Done
            } else {
                InspectorResponse::Failed
            }
        }
        Action::DiscoverServices => {
            adapter.log.push("discover");
            let device = &adapter.devices[adapter.found.unwrap()];
            if device.discovery_works {
                InspectorResponse::Services(device.tree.clone())
            } else {
                InspectorResponse::Failed
            }
        }
        Action::Disconnect => {
            adapter.log.push("disconnect");
            if adapter.devices[adapter.found.unwrap()].disconnect_works {
                InspectorResponse::Done
            } else {
                InspectorResponse::Failed
            }
        }
        Action::StopScan => {
            adapter.log.push("stop scan");
            if adapter.stop_scan_works {
                InspectorResponse::Done
            } else {
                InspectorResponse::Failed
            }
        }
        Action::Finish(_) => unreachable!(),
    }
}

fn inspect(
    adapter: &mut SimulatedAdapter,
    target: BDAddr,
) -> (Vec<String>, Result<(), RunError>) {
    let mut inspector = DeviceInspector::new(target);
    let mut output = Vec::new();
    for _ in 0..1000 {
        let action = inspector.action();
        if let Action::Finish(outcome) = action {
            return (output, outcome);
        }
        let response = answer(adapter, action);
        output.extend(inspector.advance(response));
    }
    panic!("the inspection did not end");
}

fn target() -> BDAddr {
    BDAddr::from([0xAA, 0xBB, 0xCC, 0xDD, 0xEE, 0xFF])
}

fn bike() -> SimulatedDevice {
    SimulatedDevice {
        id: 42,
        address: target(),
        tree: vec![Service {
            uuid: uuid_from_u16(0x1826),
            characteristics: vec![
                Characteristic {
                    uuid: uuid_from_u16(0x2AD2),
                    properties: String::from("NOTIFY"),
                },
                Characteristic {
                    uuid: uuid_from_u16(0x2AD9),
                    properties: String::from("WRITE | INDICATE"),
                },
            ],
        }],
        accepts_connection: true,
        discovery_works: true,
        disconnect_works: true,
    }
}

fn other_device() -> SimulatedDevice {
    SimulatedDevice {
        id: 7,
        address: BDAddr::from([1, 2, 3, 4, 5, 6]),
        tree: vec![],
        accepts_connection: true,
        discovery_works: true,
        disconnect_works: true,
    }
}

fn adapter_with(devices: Vec<SimulatedDevice>, discoveries: Vec<u64>) -> SimulatedAdapter {
    SimulatedAdapter { devices, discoveries, stop_scan_works: true, found: None, log: Vec::new() }
}

fn count(log: &[&'static str], entry: &str) -> usize {
    log.iter().filter(|e| **e == entry).count()
}

fn connected_inspector() -> DeviceInspector {
    let mut inspector = DeviceInspector::new(target());
    inspector.advance(InspectorResponse::Done);
    inspector.advance(InspectorResponse::Done);
    inspector.advance(InspectorResponse::Discovered(target()));
    inspector.advance(InspectorResponse::Done);
    assert_eq!(inspector.phase, InspectorPhase::Connected);
    inspector
}

#[test]
fn inspection_prints_the_tree_and_disconnects_once() {
    let mut adapter = adapter_with(vec![bike()], vec![42]);
    let (output, outcome) = inspect(&mut adapter, target());
    assert_eq!(
        output,
        vec![
            "",
            "Fitness Machine Service",
            "  - Indoor Bike Data",
            "    [NOTIFY]",
            "  - Fitness Machine Control Point",
            "    [WRITE | INDICATE]",
        ]
    );
    assert_eq!(outcome, Ok(()));
    assert_eq!(count(&adapter.log, "disconnect"), 1);
    assert_eq!(
        adapter.log,
        vec!["acquire", "start scan", "connect", "discover", "disconnect", "stop scan"]
    );
}

#[test]
fn failed_discovery_still_disconnects() {
    let mut device = bike();
    device.discovery_works = false;
    let mut adapter = adapter_with(vec![device], vec![42]);
    let (output, outcome) = inspect(&mut adapter, target());
    assert_eq!(output, Vec::<String>::new());
    assert_eq!(outcome, Err(RunError::DiscoveryFailure));
    assert_eq!(count(&adapter.log, "disconnect"), 1);
    assert_eq!(
        adapter.log,
        vec!["acquire", "start scan", "connect", "discover", "disconnect", "stop scan"]
    );
}

#[test]
fn failed_connection_is_fatal_and_leaves_nothing_to_disconnect() {
    let mut device = bike();
    device.accepts_connection = false;
    let mut adapter = adapter_with(vec![device], vec![42, 42]);
    let (output, outcome) = inspect(&mut adapter, target());
    assert_eq!(output, Vec::<String>::new());
    assert_eq!(outcome, Err(RunError::ConnectionFailure));
    assert_eq!(adapter.log, vec!["acquire", "start scan", "connect", "stop scan"]);
}

#[test]
fn other_devices_are_passed_over() {
    let mut adapter = adapter_with(vec![other_device(), bike()], vec![7, 99, 7, 42, 7]);
    let (output, outcome) = inspect(&mut adapter, target());
    assert_eq!(output.len(), 6);
    assert_eq!(output[1], "Fitness Machine Service");
    assert_eq!(outcome, Ok(()));
    assert_eq!(count(&adapter.log, "connect"), 1);
    assert_eq!(count(&adapter.log, "disconnect"), 1);
    assert_eq!(adapter.discoveries, vec![7]);
}

#[test]
fn stream_that_closes_before_the_device_shows_ends_the_run() {
    let mut adapter = adapter_with(vec![other_device(), bike()], vec![7]);
    let (output, outcome) = inspect(&mut adapter, target());
    assert_eq!(output, Vec::<String>::new());
    assert_eq!(outcome, Ok(()));
    assert_eq!(adapter.log, vec!["acquire", "start scan", "stop scan"]);
}

#[test]
fn failed_disconnect_is_reported_after_the_scan_is_stopped() {
    let mut device = bike();
    device.disconnect_works = false;
    let mut adapter = adapter_with(vec![device], vec![42]);
    let (output, outcome) = inspect(&mut adapter, target());
    assert_eq!(output.len(), 6);
    assert_eq!(outcome, Err(RunError::DisconnectFailure));
    assert_eq!(
        adapter.log,
        vec!["acquire", "start scan", "connect", "discover", "disconnect", "stop scan"]
    );
}

#[test]
fn first_failure_is_the_one_reported() {
    let mut device = bike();
    device.discovery_works = false;
    device.disconnect_works = false;
    let mut adapter = adapter_with(vec![device], vec![42]);
    adapter.stop_scan_works = false;
    let (_, outcome) = inspect(&mut adapter, target());
    assert_eq!(outcome, Err(RunError::DiscoveryFailure));
    assert_eq!(count(&adapter.log, "disconnect"), 1);
    assert_eq!(count(&adapter.log, "stop scan"), 1);
}

#[test]
fn failed_stop_scan_is_reported() {
    let mut adapter = adapter_with(vec![bike()], vec![42]);
    adapter.stop_scan_works = false;
    let (output, outcome) = inspect(&mut adapter, target());
    assert_eq!(output.len(), 6);
    assert_eq!(outcome, Err(RunError::ScanFailure));
}

#[test]
fn keep_first_failure_keeps_the_earlier_one() {
    assert_eq!(
        keep_first_failure(Ok(()), RunError::DisconnectFailure),
        Err(RunError::DisconnectFailure)
    );
    assert_eq!(
        keep_first_failure(Err(RunError::DiscoveryFailure), RunError::DisconnectFailure),
        Err(RunError::DiscoveryFailure)
    );
    assert_eq!(
        keep_first_failure(Err(RunError::ConnectionFailure), RunError::ScanFailure),
        Err(RunError::ConnectionFailure)
    );
}

#[test]
fn inspection_phases_in_order() {
    let mut inspector = DeviceInspector::new(target());
    assert_eq!(inspector.target, target());
    assert_eq!(inspector.phase, InspectorPhase::Acquiring);
    assert_eq!(inspector.action(), Action::Acquire);
    inspector.advance(InspectorResponse::Done);
    assert_eq!(inspector.phase, InspectorPhase::Starting);
    assert_eq!(inspector.action(), Action::StartScan(ScanFilter::AcceptAll));
    inspector.advance(InspectorResponse::Done);
    assert_eq!(inspector.phase, InspectorPhase::Scanning);
    assert_eq!(inspector.action(), Action::NextEvent);
    inspector.advance(InspectorResponse::Discovered(BDAddr::from([1, 2, 3, 4, 5, 6])));
    assert_eq!(inspector.phase, InspectorPhase::Scanning);
    inspector.advance(InspectorResponse::Ignored);
    assert_eq!(inspector.phase, InspectorPhase::Scanning);
    inspector.advance(InspectorResponse::Discovered(target()));
    assert_eq!(inspector.phase, InspectorPhase::Found);
    assert_eq!(inspector.action(), Action::Connect);
    inspector.advance(InspectorResponse::Done);
    assert_eq!(inspector.phase, InspectorPhase::Connected);
    assert_eq!(inspector.action(), Action::DiscoverServices);
    let lines = inspector.advance(InspectorResponse::Services(vec![]));
    assert_eq!(lines, Vec::<String>::new());
    assert_eq!(inspector.phase, InspectorPhase::Disconnecting(Ok(())));
    assert_eq!(inspector.action(), Action::Disconnect);
    inspector.advance(InspectorResponse::Done);
    assert_eq!(inspector.phase, InspectorPhase::Stopping(Ok(())));
    assert_eq!(inspector.action(), Action::StopScan);
    inspector.advance(InspectorResponse::Done);
    assert_eq!(inspector.phase, InspectorPhase::Disconnected(Ok(())));
    assert_eq!(inspector.action(), Action::Finish(Ok(())));
    inspector.advance(InspectorResponse::Failed);
    assert_eq!(inspector.phase, InspectorPhase::Disconnected(Ok(())));
    assert_eq!(inspector.target, target());
}

#[test]
fn inspection_without_adapter_fails_at_once() {
    let mut inspector = DeviceInspector::new(target());
    inspector.advance(InspectorResponse::Failed);
    assert_eq!(inspector.action(), Action::Finish(Err(RunError::NoAdapterFound)));
}

#[test]
fn inspection_that_cannot_start_the_scan_fails() {
    let mut inspector = DeviceInspector::new(target());
    inspector.advance(InspectorResponse::Done);
    inspector.advance(InspectorResponse::Failed);
    assert_eq!(inspector.action(), Action::Finish(Err(RunError::ScanFailure)));
}

#[test]
fn failing_event_stream_stops_the_scan() {
    let mut inspector = DeviceInspector::new(target());
    inspector.advance(InspectorResponse::Done);
    inspector.advance(InspectorResponse::Done);
    inspector.advance(InspectorResponse::Failed);
    assert_eq!(inspector.action(), Action::StopScan);
    inspector.advance(InspectorResponse::Done);
    assert_eq!(inspector.action(), Action::Finish(Err(RunError::ScanFailure)));
}

#[test]
fn answer_out_of_turn_counts_as_failure() {
    let mut inspector = connected_inspector();
    let lines = inspector.advance(InspectorResponse::Done);
    assert_eq!(lines, Vec::<String>::new());
    assert_eq!(inspector.phase, InspectorPhase::Disconnecting(Err(RunError::DiscoveryFailure)));
    let mut early = DeviceInspector::new(target());
    let lines = early.advance(InspectorResponse::Services(bike().tree));
    assert_eq!(lines, Vec::<String>::new());
    assert_eq!(early.phase, InspectorPhase::Disconnected(Err(RunError::NoAdapterFound)));
}

#[test]
fn connected_inspection_always_asks_to_disconnect() {
    let responses = || {
        vec![
            InspectorResponse::Done,
            InspectorResponse::Failed,
            InspectorResponse::Ignored,
            InspectorResponse::StreamClosed,
            InspectorResponse::Discovered(target()),
            InspectorResponse::Services(bike().tree),
        ]
    };
    for first in responses() {
        for second in responses() {
            for third in responses() {
                let mut inspector = connected_inspector();
                inspector.advance(first.clone());
                assert_eq!(inspector.action(), Action::Disconnect);
                inspector.advance(second.clone());
                assert_eq!(inspector.action(), Action::StopScan);
                inspector.advance(third);
                assert!(matches!(inspector.action(), Action::Finish(_)));
            }
        }
    }
}
