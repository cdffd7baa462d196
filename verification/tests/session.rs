use bluedot::bridge::{Reply, Step};
use bluedot::device::{BLEDevice, PeripheralProperties};
use bluedot::error::BleError;
use bluedot::session::{
    normalize_timeout, wrap_peripherals, BlueDot, GdBLE, Scan, ScanAction, ScanEvent, ScanPhase,
    SessionAction, DEFAULT_SCAN_MILLIS, FIRST_ADAPTER,
};

fn initialized() -> GdBLE {
    let mut session = GdBLE::new();
    assert_eq!(session.initialize(), Step::Perform(SessionAction::StartRuntime));
    assert_eq!(session.runtime_result(true), Step::Perform(SessionAction::OpenAdapter));
    assert_eq!(session.adapter_result(true), Reply::clean(true));
    session
}

fn advertised(name: Option<&str>, address: &str) -> Option<PeripheralProperties> {
    Some(PeripheralProperties {
        local_name: name.map(|n| n.to_string()),
        address: address.to_string(),
    })
}

fn devices(step: Step<ScanAction, Vec<BLEDevice>>) -> (Vec<BLEDevice>, Option<BleError>) {
    match step {
        Step::Done(reply) => (reply.value, reply.diagnostic),
        Step::Perform(action) => panic!("the scan asks for {:?}", action),
    }
}

fn action(step: Step<ScanAction, Vec<BLEDevice>>) -> ScanAction {
    match step {
        Step::Perform(action) => action,
        Step::Done(reply) => panic!("the scan ended with {:?}", reply.diagnostic),
    }
}

#[test]
fn new_session_is_not_initialized() {
    assert!(!GdBLE::new().is_initialized());
    assert!(!BlueDot::new().is_initialized());
}

#[test]
fn initialization_takes_the_runtime_then_the_adapter() {
    let mut session = GdBLE::new();
    assert_eq!(session.initialize(), Step::Perform(SessionAction::StartRuntime));
    assert!(!session.is_initialized());
    assert_eq!(session.runtime_result(true), Step::Perform(SessionAction::OpenAdapter));
    assert!(!session.is_initialized());
    assert_eq!(session.initialize(), Step::Perform(SessionAction::OpenAdapter));
    assert_eq!(session.adapter_result(true), Reply::clean(true));
    assert!(session.is_initialized());
}

#[test]
fn failed_runtime_leaves_the_session_uninitialized() {
    let mut session = GdBLE::new();
    session.initialize();
    assert_eq!(
        session.runtime_result(false),
        Step::Done(Reply { value: false, diagnostic: Some(BleError::RuntimeInitFailed) })
    );
    assert!(!session.is_initialized());
    assert_eq!(session.initialize(), Step::Perform(SessionAction::StartRuntime));
}

#[test]
fn failed_adapter_leaves_the_session_uninitialized() {
    let mut session = GdBLE::new();
    session.initialize();
    session.runtime_result(true);
    assert_eq!(
        session.adapter_result(false),
        Reply { value: false, diagnostic: Some(BleError::AdapterInitFailed) }
    );
    assert!(!session.is_initialized());
    assert_eq!(session.initialize(), Step::Perform(SessionAction::StartRuntime));
}

#[test]
fn adapter_without_runtime_is_refused() {
    let mut session = GdBLE::new();
    assert_eq!(
        session.adapter_result(true),
        Reply { value: false, diagnostic: Some(BleError::AdapterInitFailed) }
    );
    assert!(!session.is_initialized());
}

#[test]
fn initializing_twice_changes_nothing() {
    let mut session = initialized();
    assert_eq!(session.initialize(), Step::Done(Reply::clean(true)));
    assert_eq!(session.runtime_result(false), Step::Done(Reply::clean(true)));
    assert_eq!(session.runtime_result(true), Step::Done(Reply::clean(true)));
    assert_eq!(session.adapter_result(false), Reply::clean(true));
    assert!(session.is_initialized());
}

#[test]
fn scan_before_initialize_gives_nothing() {
    let session = GdBLE::new();
    let (scan, step) = session.scan(1000);
    assert_eq!(scan.phase, ScanPhase::Finished);
    let (found, diagnostic) = devices(step);
    assert!(found.is_empty());
    assert_eq!(diagnostic, Some(BleError::NotInitialized));
}

#[test]
fn scan_with_only_a_runtime_gives_nothing() {
    let mut session = GdBLE::new();
    session.initialize();
    session.runtime_result(true);
    let (_, step) = session.scan(1000);
    let (found, diagnostic) = devices(step);
    assert!(found.is_empty());
    assert_eq!(diagnostic, Some(BleError::NotInitialized));
}

#[test]
fn timeout_is_normalized() {
    assert_eq!(DEFAULT_SCAN_MILLIS, 5000);
    assert_eq!(normalize_timeout(0), 5000);
    assert_eq!(normalize_timeout(-5000), 5000);
    assert_eq!(normalize_timeout(-1), 5000);
    assert_eq!(normalize_timeout(i64::MIN), 5000);
    assert_eq!(normalize_timeout(5000), 5000);
    assert_eq!(normalize_timeout(1), 1);
    assert_eq!(normalize_timeout(1000), 1000);
    assert_eq!(normalize_timeout(i64::MAX), i64::MAX as u64);
}

#[test]
fn scans_of_zero_and_below_are_scans_of_the_default() {
    let session = initialized();
    let (by_default, first) = session.scan(5000);
    assert_eq!(action(first), ScanAction::ListAdapters);
    for timeout in [0, -5000, -1] {
        let (scan, step) = session.scan(timeout);
        assert_eq!(scan, by_default);
        assert_eq!(action(step), ScanAction::ListAdapters);
    }
    let (other, _) = session.scan(1000);
    assert_ne!(other, by_default);
}

#[test]
fn scan_follows_its_script() {
    let session = initialized();
    let (mut scan, step) = session.scan(1000);
    assert_eq!(scan, Scan { phase: ScanPhase::ListingAdapters, millis: 1000 });
    assert_eq!(action(step), ScanAction::ListAdapters);
    assert_eq!(
        action(scan.advance(ScanEvent::Adapters(2))),
        ScanAction::StartScan { adapter: FIRST_ADAPTER }
    );
    assert_eq!(scan.phase, ScanPhase::Starting);
    assert_eq!(action(scan.advance(ScanEvent::Started)), ScanAction::Wait { millis: 1000 });
    assert_eq!(scan.phase, ScanPhase::Waiting);
    assert_eq!(action(scan.advance(ScanEvent::Elapsed)), ScanAction::StopScan { adapter: 0 });
    assert_eq!(scan.phase, ScanPhase::Stopping);
    assert_eq!(
        action(scan.advance(ScanEvent::Stopped)),
        ScanAction::ListPeripherals { adapter: 0 }
    );
    assert_eq!(scan.phase, ScanPhase::Enumerating);
    let report = vec![advertised(Some("Sensor"), "AA:BB:CC:DD:EE:FF"), None, advertised(None, "11:22:33:44:55:66")];
    let (found, diagnostic) = devices(scan.advance(ScanEvent::Peripherals(report)));
    assert_eq!(scan.phase, ScanPhase::Finished);
    assert_eq!(diagnostic, None);
    let names: Vec<String> = found.iter().map(|d| d.get_name()).collect();
    let addresses: Vec<String> = found.iter().map(|d| d.get_address()).collect();
    assert_eq!(names, vec!["Sensor", "Unknown", "Unknown"]);
    assert_eq!(addresses, vec!["AA:BB:CC:DD:EE:FF", "", "11:22:33:44:55:66"]);
    assert!(found.iter().all(|d| !d.is_connected()));
}

#[test]
fn scan_waits_for_the_default_duration() {
    let session = initialized();
    let (mut scan, _) = session.scan(-3);
    scan.advance(ScanEvent::Adapters(1));
    assert_eq!(action(scan.advance(ScanEvent::Started)), ScanAction::Wait { millis: 5000 });
}

#[test]
fn scan_without_adapter_gives_nothing() {
    let session = initialized();
    let (mut scan, _) = session.scan(1000);
    let (found, diagnostic) = devices(scan.advance(ScanEvent::Adapters(0)));
    assert!(found.is_empty());
    assert_eq!(diagnostic, Some(BleError::NoAdapterFound));
    assert_eq!(scan.phase, ScanPhase::Finished);
}

#[test]
fn scan_ends_at_the_first_failure() {
    let session = initialized();
    for steps in 0..5 {
        let (mut scan, _) = session.scan(1000);
        let script = [
            ScanEvent::Adapters(1),
            ScanEvent::Started,
            ScanEvent::Elapsed,
            ScanEvent::Stopped,
        ];
        for event in script.into_iter().take(steps) {
            action(scan.advance(event));
        }
        let (found, diagnostic) = devices(scan.advance(ScanEvent::Failed));
        assert!(found.is_empty());
        assert_eq!(diagnostic, Some(BleError::TransportError));
        assert_eq!(scan.phase, ScanPhase::Finished);
    }
}

#[test]
fn scan_ends_at_a_report_out_of_turn() {
    let session = initialized();
    let (mut scan, _) = session.scan(1000);
    let (found, diagnostic) = devices(scan.advance(ScanEvent::Started));
    assert!(found.is_empty());
    assert_eq!(diagnostic, Some(BleError::TransportError));
    let (mut scan, _) = session.scan(1000);
    scan.advance(ScanEvent::Adapters(1));
    let (found, diagnostic) = devices(scan.advance(ScanEvent::Peripherals(vec![None])));
    assert!(found.is_empty());
    assert_eq!(diagnostic, Some(BleError::TransportError));
}

#[test]
fn finished_scan_stays_finished() {
    let session = initialized();
    let (mut scan, _) = session.scan(1000);
    scan.advance(ScanEvent::Adapters(0));
    let (found, diagnostic) = devices(scan.advance(ScanEvent::Adapters(1)));
    assert!(found.is_empty());
    assert_eq!(diagnostic, Some(BleError::TransportError));
    assert_eq!(scan.phase, ScanPhase::Finished);
}

#[test]
fn scan_of_nothing_observed_gives_no_devices() {
    let session = initialized();
    let (mut scan, _) = session.scan(1);
    scan.advance(ScanEvent::Adapters(1));
    scan.advance(ScanEvent::Started);
    scan.advance(ScanEvent::Elapsed);
    scan.advance(ScanEvent::Stopped);
    let (found, diagnostic) = devices(scan.advance(ScanEvent::Peripherals(Vec::new())));
    assert!(found.is_empty());
    assert_eq!(diagnostic, None);
}

#[test]
fn each_scan_gives_fresh_handles() {
    let report = vec![advertised(Some("Sensor"), "AA:BB:CC:DD:EE:FF")];
    let mut first = wrap_peripherals(&report);
    let second = wrap_peripherals(&report);
    first[0].connect();
    first[0].connect_result(true);
    assert!(first[0].is_connected());
    assert!(!second[0].is_connected());
    assert_eq!(second[0].get_name(), "Sensor");
}
