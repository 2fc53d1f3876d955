use svs_link::command::{command_request, locate_characteristic, request_with, write_outcome, WriteRequest};
use svs_link::discovery::{is_target, Action, Discovery, Event};
use svs_link::error::{CommandError, DiscoveryError};
use svs_link::ids::{target_characteristic_id, target_service_id, DEVICE_NAME, SCAN_SECONDS};
use svs_link::slot::BluetoothState;

const CHAR_ID: u128 = 0x6409d79d_cd28_479c_a639_92f9e1948b43;

/// Feeds `events` to a fresh attempt and returns the final stage and every action.
fn drive(events: Vec<Event>) -> (Discovery, Vec<Action>) {
    let (mut stage, first) = Discovery::start();
    let mut actions = vec![first];
    for e in events {
        let (next, action) = stage.step(e);
        stage = next;
        actions.push(action);
    }
    (stage, actions)
}

fn named(name: &str) -> Event {
    Event::Properties(Ok(Some(name.to_string())))
}

fn up_to_listing(count: usize) -> Vec<Event> {
    vec![
        Event::Adapters(Ok(1)),
        Event::ScanStarted(Ok(())),
        Event::WindowElapsed,
        Event::Peripherals(Ok(count)),
    ]
}

fn successful_attempt() -> Vec<Event> {
    let mut events = up_to_listing(2);
    events.push(Event::Properties(Ok(None)));
    events.push(named("3KMC3144"));
    events.push(Event::Connected(Ok(())));
    events.push(Event::Resolved(Ok(())));
    events
}

#[test]
fn discovery_connects_to_target() {
    let (stage, actions) = drive(successful_attempt());
    assert_eq!(stage, Discovery::Finished(Ok(1)));
    assert_eq!(
        actions,
        vec![
            Action::ListAdapters,
            Action::StartScan { adapter: 0 },
            Action::Sleep { seconds: 4 },
            Action::ListPeripherals,
            Action::ReadProperties { index: 0 },
            Action::ReadProperties { index: 1 },
            Action::StopScanAndConnect { index: 1 },
            Action::ResolveAttributes { index: 1 },
            Action::Install { index: 1 },
        ]
    );
}

#[test]
fn reconnect_twice_replaces_handle() {
    let mut state: BluetoothState<&str> = BluetoothState::new();
    for handle in ["first", "second"] {
        let (stage, actions) = drive(successful_attempt());
        assert_eq!(stage, Discovery::Finished(Ok(1)));
        assert_eq!(actions.last(), Some(&Action::Install { index: 1 }));
        state.install(handle);
    }
    assert!(state.is_connected());
    assert_eq!(state.connected(), Ok(&"second"));
}

#[test]
fn command_before_connect_is_not_connected() {
    let state: BluetoothState<u32> = BluetoothState::new();
    assert!(!state.is_connected());
    assert_eq!(state.connected(), Err(CommandError::NotConnected));
    assert_eq!(CommandError::NotConnected.message(), "Not connected");
}

#[test]
fn near_miss_name_is_passed_over() {
    let mut events = up_to_listing(2);
    events.push(named("3KMC3144-clone"));
    events.push(named("3KMC3144"));
    let (stage, actions) = drive(events);
    assert_eq!(stage, Discovery::AwaitConnect { index: 1 });
    assert_eq!(actions[5], Action::ReadProperties { index: 1 });
    assert_eq!(actions[6], Action::StopScanAndConnect { index: 1 });
    let connects = actions.iter().filter(|a| matches!(a, Action::StopScanAndConnect { .. })).count();
    assert_eq!(connects, 1);
}

#[test]
fn only_near_misses_is_device_not_found() {
    let mut events = up_to_listing(3);
    events.push(named("3KMC3144-clone"));
    events.push(named("3kmc3144"));
    events.push(named("3KMC314"));
    let (stage, actions) = drive(events);
    assert_eq!(stage, Discovery::Finished(Err(DiscoveryError::DeviceNotFound)));
    assert!(!actions.iter().any(|a| matches!(a, Action::StopScanAndConnect { .. })));
    assert_eq!(actions.last(), Some(&Action::Fail(DiscoveryError::DeviceNotFound)));
}

#[test]
fn name_check_is_exact() {
    assert!(is_target(&Some(DEVICE_NAME.to_string())));
    assert!(!is_target(&Some("3KMC3144-clone".to_string())));
    assert!(!is_target(&Some(String::new())));
    assert!(!is_target(&None));
}

#[test]
fn not_found_only_after_scan_window() {
    let (stage, actions) = drive(up_to_listing(0));
    assert_eq!(stage, Discovery::Finished(Err(DiscoveryError::DeviceNotFound)));
    assert_eq!(actions[2], Action::Sleep { seconds: SCAN_SECONDS });
    assert_eq!(SCAN_SECONDS, 4);
    assert_eq!(DiscoveryError::DeviceNotFound.message(), "Device not found");
}

#[test]
fn listing_waits_for_window() {
    let (stage, actions) = drive(vec![
        Event::Adapters(Ok(1)),
        Event::ScanStarted(Ok(())),
        Event::Peripherals(Ok(0)),
    ]);
    assert_eq!(stage, Discovery::AwaitScanWindow);
    assert_eq!(actions[3], Action::Ignore);
}

#[test]
fn no_adapter_fails() {
    let (stage, actions) = drive(vec![Event::Adapters(Ok(0))]);
    assert_eq!(stage, Discovery::Finished(Err(DiscoveryError::NoAdapter)));
    assert_eq!(actions[1], Action::Fail(DiscoveryError::NoAdapter));
    assert_eq!(DiscoveryError::NoAdapter.message(), "No Bluetooth adapter found");
}

#[test]
fn radio_error_fails() {
    let (stage, _) = drive(vec![Event::Adapters(Err("no stack".to_string()))]);
    assert_eq!(stage, Discovery::Finished(Err(DiscoveryError::Radio("no stack".to_string()))));
}

#[test]
fn scan_start_error_fails() {
    let (stage, _) = drive(vec![Event::Adapters(Ok(2)), Event::ScanStarted(Err("busy".to_string()))]);
    assert_eq!(stage, Discovery::Finished(Err(DiscoveryError::ScanFailed("busy".to_string()))));
    assert_eq!(DiscoveryError::ScanFailed("busy".to_string()).message(), "busy");
}

#[test]
fn properties_error_fails() {
    let mut events = up_to_listing(2);
    events.push(Event::Properties(Err("gone".to_string())));
    let (stage, _) = drive(events);
    assert_eq!(stage, Discovery::Finished(Err(DiscoveryError::ScanFailed("gone".to_string()))));
}

#[test]
fn connect_error_fails() {
    let mut events = up_to_listing(1);
    events.push(named("3KMC3144"));
    events.push(Event::Connected(Err("refused".to_string())));
    let (stage, actions) = drive(events);
    assert_eq!(stage, Discovery::Finished(Err(DiscoveryError::ConnectFailed("refused".to_string()))));
    assert!(!actions.iter().any(|a| matches!(a, Action::Install { .. })));
}

#[test]
fn resolve_error_fails() {
    let mut events = up_to_listing(1);
    events.push(named("3KMC3144"));
    events.push(Event::Connected(Ok(())));
    events.push(Event::Resolved(Err("timeout".to_string())));
    let (stage, actions) = drive(events);
    assert_eq!(stage, Discovery::Finished(Err(DiscoveryError::ResolveFailed("timeout".to_string()))));
    assert_eq!(DiscoveryError::ResolveFailed("timeout".to_string()).message(), "timeout");
    assert!(!actions.iter().any(|a| matches!(a, Action::Install { .. })));
}

#[test]
fn finished_attempt_ignores_events() {
    let mut events = successful_attempt();
    events.push(Event::WindowElapsed);
    let (stage, actions) = drive(events);
    assert_eq!(stage, Discovery::Finished(Ok(1)));
    assert_eq!(actions.last(), Some(&Action::Ignore));
}

#[test]
fn target_ids_parse_to_their_values() {
    assert_eq!(target_characteristic_id(), Some(CHAR_ID));
    assert_eq!(target_service_id(), Some(0x1fee6acf_a826_4e37_9635_4d8a01642c5d));
}

#[test]
fn missing_characteristic_writes_nothing() {
    let ids = vec![1u128, 0x1fee6acf_a826_4e37_9635_4d8a01642c5d];
    assert_eq!(command_request(&ids, vec![1, 2, 3]), Err(CommandError::CharacteristicNotFound));
    assert_eq!(command_request(&Vec::new(), Vec::new()), Err(CommandError::CharacteristicNotFound));
    assert_eq!(CommandError::CharacteristicNotFound.message(), "Characteristic not found");
}

#[test]
fn payload_reaches_characteristic_unchanged() {
    let ids = vec![7u128, CHAR_ID, CHAR_ID];
    let payload = vec![0x00, 0xff, 0x10, 0x7f];
    assert_eq!(
        command_request(&ids, payload.clone()),
        Ok(WriteRequest { index: 1, payload })
    );
    assert_eq!(
        command_request(&ids, Vec::new()),
        Ok(WriteRequest { index: 1, payload: Vec::new() })
    );
}

#[test]
fn request_without_target_id_fails() {
    assert_eq!(request_with(&vec![3, 4], None, vec![9]), Err(CommandError::CharacteristicNotFound));
    assert_eq!(request_with(&vec![3, 4], Some(4), vec![9]), Ok(WriteRequest { index: 1, payload: vec![9] }));
}

#[test]
fn locate_picks_first_match() {
    assert_eq!(locate_characteristic(&vec![9, 8, 8], 8), Some(1));
    assert_eq!(locate_characteristic(&vec![9, 8, 8], 6), None);
    assert_eq!(locate_characteristic(&Vec::new(), 6), None);
}

#[test]
fn write_outcome_maps_transport_error() {
    assert_eq!(write_outcome(Ok(())), Ok(()));
    assert_eq!(write_outcome(Err("nack".to_string())), Err(CommandError::WriteFailed("nack".to_string())));
    assert_eq!(CommandError::WriteFailed("nack".to_string()).message(), "nack");
}
