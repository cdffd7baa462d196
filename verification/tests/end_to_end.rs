use bluedot::bridge::{Reply, Step};
use bluedot::device::{BLEDevice, ConnectionState, DeviceAction, PeripheralProperties, WriteMode};
use bluedot::directory::CharacteristicEntry;
use bluedot::error::BleError;
use bluedot::resolver::Uuid;
use bluedot::session::{GdBLE, ScanAction, ScanEvent, SessionAction};

const BATTERY_SERVICE: &str = "0000180f-0000-1000-8000-00805f9b34fb";
const BATTERY_LEVEL: &str = "00002a19-0000-1000-8000-00805f9b34fb";
const DEVICE_INFORMATION: &str = "0000180a-0000-1000-8000-00805f9b34fb";
const MANUFACTURER_NAME: &str = "00002a29-0000-1000-8000-00805f9b34fb";
const UNKNOWN_CHARACTERISTIC: &str = "00002a00-0000-1000-8000-00805f9b34fb";

/// One peripheral of the fake adapter capability.
struct FakePeripheral {
    name: Option<String>,
    address: String,
    characteristics: Vec<(CharacteristicEntry, Vec<u8>)>,
    accepts_connection: bool,
    discovers: bool,
    linked: bool,
}

/// A stand-in for the radio: it performs the actions that the core names and
/// records them.
struct FakeCapability {
    adapters: usize,
    peripherals: Vec<FakePeripheral>,
    log: Vec<String>,
}

fn entry(service: &str, characteristic: &str) -> CharacteristicEntry {
    CharacteristicEntry {
        service: Uuid::parse(service).unwrap(),
        characteristic: Uuid::parse(characteristic).unwrap(),
    }
}

fn thermometer() -> FakePeripheral {
    FakePeripheral {
        name: Some("Thermometer".to_string()),
        address: "AA:BB:CC:DD:EE:FF".to_string(),
        characteristics: vec![
            (entry(BATTERY_SERVICE, BATTERY_LEVEL), vec![87]),
            (entry(DEVICE_INFORMATION, MANUFACTURER_NAME), b"Acme".to_vec()),
        ],
        accepts_connection: true,
        discovers: true,
        linked: false,
    }
}

impl FakeCapability {
    fn with(adapters: usize, peripherals: Vec<FakePeripheral>) -> FakeCapability {
        FakeCapability { adapters, peripherals, log: Vec::new() }
    }

    fn initialize(&mut self, session: &mut GdBLE) -> bool {
        let mut step = session.initialize();
        loop {
            step = match step {
                Step::Done(reply) => return reply.value,
                Step::Perform(SessionAction::StartRuntime) => {
                    self.log.push("runtime".to_string());
                    session.runtime_result(true)
                }
                Step::Perform(SessionAction::OpenAdapter) => {
                    self.log.push("adapter".to_string());
                    Step::Done(session.adapter_result(true))
                }
            };
        }
    }

    fn scan(&mut self, session: &GdBLE, timeout_ms: i64) -> (Vec<BLEDevice>, Option<BleError>) {
        let (mut scan, mut step) = session.scan(timeout_ms);
        loop {
            let event = match step {
                Step::Done(reply) => return (reply.value, reply.diagnostic),
                Step::Perform(ScanAction::ListAdapters) => ScanEvent::Adapters(self.adapters),
                Step::Perform(ScanAction::StartScan { adapter }) => {
                    self.log.push(format!("start {}", adapter));
                    ScanEvent::Started
                }
                Step::Perform(ScanAction::Wait { millis }) => {
                    self.log.push(format!("wait {}", millis));
                    ScanEvent::Elapsed
                }
                Step::Perform(ScanAction::StopScan { adapter }) => {
                    self.log.push(format!("stop {}", adapter));
                    ScanEvent::Stopped
                }
                Step::Perform(ScanAction::ListPeripherals { adapter }) => {
                    self.log.push(format!("list {}", adapter));
                    ScanEvent::Peripherals(
                        self.peripherals
                            .iter()
                            .map(|p| {
                                Some(PeripheralProperties {
                                    local_name: p.name.clone(),
                                    address: p.address.clone(),
                                })
                            })
                            .collect(),
                    )
                }
            };
            step = scan.advance(event);
        }
    }

    fn connect(&mut self, index: usize, device: &mut BLEDevice) -> bool {
        let mut step = device.connect();
        loop {
            step = match step {
                Step::Done(reply) => return reply.value,
                Step::Perform(DeviceAction::Connect) => {
                    let peripheral = &mut self.peripherals[index];
                    peripheral.linked = peripheral.accepts_connection;
                    device.connect_result(peripheral.linked)
                }
                Step::Perform(DeviceAction::DiscoverServices) => {
                    let peripheral = &self.peripherals[index];
                    let found = if peripheral.discovers {
                        Some(peripheral.characteristics.iter().map(|c| c.0).collect())
                    } else {
                        None
                    };
                    Step::Done(device.discovery_result(found))
                }
                Step::Perform(other) => panic!("connect asks for {:?}", other),
            };
        }
    }

    fn disconnect(&mut self, index: usize, device: &mut BLEDevice) -> bool {
        match device.disconnect() {
            Step::Done(reply) => reply.value,
            Step::Perform(DeviceAction::Disconnect) => {
                self.peripherals[index].linked = false;
                device.disconnect_result(true).value
            }
            Step::Perform(other) => panic!("disconnect asks for {:?}", other),
        }
    }

    fn read(&mut self, index: usize, device: &BLEDevice, service: &str, characteristic: &str) -> Vec<u8> {
        match device.read(service, characteristic) {
            Step::Done(reply) => reply.value,
            Step::Perform(DeviceAction::Read { handle }) => {
                let value = self.peripherals[index].characteristics[handle].1.clone();
                BLEDevice::read_result(Some(value)).value
            }
            Step::Perform(other) => panic!("read asks for {:?}", other),
        }
    }

    fn write(
        &mut self,
        index: usize,
        device: &BLEDevice,
        service: &str,
        characteristic: &str,
        data: Vec<u8>,
    ) -> bool {
        match device.write(service, characteristic, data) {
            Step::Done(reply) => reply.value,
            Step::Perform(DeviceAction::Write { handle, payload, mode }) => {
                assert_eq!(mode, WriteMode::WithoutResponse);
                self.peripherals[index].characteristics[handle].1 = payload;
                BLEDevice::write_result(true).value
            }
            Step::Perform(other) => panic!("write asks for {:?}", other),
        }
    }
}

#[test]
fn session_scan_connect_and_write() {
    let mut radio = FakeCapability::with(1, vec![thermometer()]);
    let mut session = GdBLE::new();
    assert!(radio.initialize(&mut session));
    assert!(session.is_initialized());
    assert_eq!(radio.log, vec!["runtime", "adapter"]);

    let (mut devices, diagnostic) = radio.scan(&session, 1000);
    assert_eq!(diagnostic, None);
    assert_eq!(devices.len(), 1);
    assert_eq!(radio.log[2..], ["start 0", "wait 1000", "stop 0", "list 0"]);
    let device = &mut devices[0];
    assert_eq!(device.get_name(), "Thermometer");
    assert_eq!(device.get_address(), "AA:BB:CC:DD:EE:FF");
    assert!(!device.is_connected());

    assert!(radio.connect(0, device));
    assert_eq!(device.connection_state(), ConnectionState::Connected);
    assert_eq!(
        device.get_services(),
        Reply::clean(vec![BATTERY_SERVICE.to_string(), DEVICE_INFORMATION.to_string()])
    );

    assert!(!radio.write(0, device, BATTERY_SERVICE, UNKNOWN_CHARACTERISTIC, vec![1]));
    assert_eq!(device.connection_state(), ConnectionState::Connected);
    assert_eq!(radio.peripherals[0].characteristics[0].1, vec![87]);
}

#[test]
fn read_and_write_reach_the_addressed_characteristic() {
    let mut radio = FakeCapability::with(1, vec![thermometer()]);
    let mut session = GdBLE::new();
    radio.initialize(&mut session);
    let (mut devices, _) = radio.scan(&session, 1);
    let device = &mut devices[0];
    radio.connect(0, device);
    assert_eq!(radio.read(0, device, BATTERY_SERVICE, BATTERY_LEVEL), vec![87]);
    assert_eq!(radio.read(0, device, DEVICE_INFORMATION, MANUFACTURER_NAME), b"Acme".to_vec());
    assert!(radio.write(0, device, BATTERY_SERVICE, BATTERY_LEVEL, vec![12]));
    assert_eq!(radio.read(0, device, BATTERY_SERVICE, BATTERY_LEVEL), vec![12]);
    assert_eq!(radio.read(0, device, BATTERY_SERVICE, MANUFACTURER_NAME), Vec::<u8>::new());
    assert_eq!(radio.read(0, device, "battery", BATTERY_LEVEL), Vec::<u8>::new());
}

#[test]
fn scan_before_initialize_asks_nothing_of_the_radio() {
    let mut radio = FakeCapability::with(1, vec![thermometer()]);
    let session = GdBLE::new();
    let (devices, diagnostic) = radio.scan(&session, 1000);
    assert!(devices.is_empty());
    assert_eq!(diagnostic, Some(BleError::NotInitialized));
    assert!(radio.log.is_empty());
}

#[test]
fn initializing_twice_acquires_once() {
    let mut radio = FakeCapability::with(1, Vec::new());
    let mut session = GdBLE::new();
    assert!(radio.initialize(&mut session));
    assert!(radio.initialize(&mut session));
    assert_eq!(radio.log, vec!["runtime", "adapter"]);
    assert!(session.is_initialized());
}

#[test]
fn scan_without_adapter_starts_no_discovery() {
    let mut radio = FakeCapability::with(0, vec![thermometer()]);
    let mut session = GdBLE::new();
    radio.initialize(&mut session);
    radio.log.clear();
    let (devices, diagnostic) = radio.scan(&session, 1000);
    assert!(devices.is_empty());
    assert_eq!(diagnostic, Some(BleError::NoAdapterFound));
    assert!(radio.log.is_empty());
}

#[test]
fn scans_report_what_the_adapter_has_observed() {
    let mut second = thermometer();
    second.name = None;
    second.address = "11:22:33:44:55:66".to_string();
    let mut radio = FakeCapability::with(2, vec![thermometer()]);
    let mut session = GdBLE::new();
    radio.initialize(&mut session);
    let (first_scan, _) = radio.scan(&session, 0);
    assert_eq!(first_scan.len(), 1);
    assert!(radio.log.contains(&"wait 5000".to_string()));
    radio.peripherals.push(second);
    let (second_scan, _) = radio.scan(&session, -5000);
    let names: Vec<String> = second_scan.iter().map(|d| d.get_name()).collect();
    assert_eq!(names, vec!["Thermometer", "Unknown"]);
    assert_eq!(radio.log.iter().filter(|l| *l == "wait 5000").count(), 2);
}

#[test]
fn refused_connection_leaves_the_handle_disconnected() {
    let mut stubborn = thermometer();
    stubborn.accepts_connection = false;
    let mut radio = FakeCapability::with(1, vec![stubborn]);
    let mut session = GdBLE::new();
    radio.initialize(&mut session);
    let (mut devices, _) = radio.scan(&session, 1);
    let device = &mut devices[0];
    assert!(!radio.connect(0, device));
    assert_eq!(device.connection_state(), ConnectionState::Disconnected);
    assert_eq!(device.get_services().value, Vec::<String>::new());
    assert_eq!(radio.read(0, device, BATTERY_SERVICE, BATTERY_LEVEL), Vec::<u8>::new());
}

#[test]
fn failed_discovery_still_connects() {
    let mut opaque = thermometer();
    opaque.discovers = false;
    let mut radio = FakeCapability::with(1, vec![opaque]);
    let mut session = GdBLE::new();
    radio.initialize(&mut session);
    let (mut devices, _) = radio.scan(&session, 1);
    let device = &mut devices[0];
    assert!(radio.connect(0, device));
    assert!(device.is_connected());
    assert_eq!(device.get_services(), Reply::clean(Vec::new()));
    assert!(!radio.write(0, device, BATTERY_SERVICE, BATTERY_LEVEL, vec![1]));
}

#[test]
fn disconnect_forgets_the_services() {
    let mut radio = FakeCapability::with(1, vec![thermometer()]);
    let mut session = GdBLE::new();
    radio.initialize(&mut session);
    let (mut devices, _) = radio.scan(&session, 1);
    let device = &mut devices[0];
    radio.connect(0, device);
    assert!(radio.disconnect(0, device));
    assert!(!device.is_connected());
    assert!(!radio.peripherals[0].linked);
    assert_eq!(device.get_services().value, Vec::<String>::new());
    assert_eq!(device.get_services().diagnostic, Some(BleError::NotConnected));
    assert!(!radio.disconnect(0, device));
    assert!(radio.connect(0, device));
    assert_eq!(device.get_services().value.len(), 2);
}

#[test]
fn handle_made_before_any_scan_does_nothing() {
    let mut radio = FakeCapability::with(1, vec![thermometer()]);
    let mut device = BLEDevice::new();
    assert!(!radio.connect(0, &mut device));
    assert!(!radio.disconnect(0, &mut device));
    assert!(!radio.peripherals[0].linked);
    assert_eq!(device.get_name(), "Unknown");
}
