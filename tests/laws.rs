use std::collections::HashMap;
use transport_bluetooth::adapter_manager::{is_adapter_powered, AdapterManager, CentralEvent, CentralState, PumpStep};
use transport_bluetooth::device::{get_timestamp, PeripheralInfo};
use transport_bluetooth::handshake::{Handshake, HandshakeCommand, HandshakeInput};
use transport_bluetooth::methods::{close_device, forget_device, start_scan, stop_scan, ForgetPlan, PairingKind};
use transport_bluetooth::scan::{scan, scan_task_step, ScanCommand, ScanFilter, ScanTaskAction};
use transport_bluetooth::session::{reader_step, Session};
use transport_bluetooth::types::{AbortProcess, ChannelMessage, ErrorKind, NotificationEvent, WsResponsePayload};

fn props(name: &str, data: Option<Vec<u8>>) -> PeripheralInfo {
    let mut manufacturer_data = HashMap::new();
    if let Some(d) = data {
        manufacturer_data.insert(0xFFFFu16, d);
    }
    PeripheralInfo { local_name: Some(name.to_string()), manufacturer_data, rssi: Some(-70) }
}

#[test]
fn discovered_snapshot_is_sorted_and_lists_new_device() {
    let mut mgr = AdapterManager::new();
    mgr.on_device_discovered("b".to_string(), &props("Trezor B", None), false, false, 5);
    mgr.on_device_discovered("c".to_string(), &props("Trezor C", None), false, false, 3);
    let n = mgr.on_device_discovered("a".to_string(), &props("Trezor A", None), false, false, 3);
    match n {
        Some(NotificationEvent::DeviceDiscovered { uuid, devices, .. }) => {
            assert_eq!(uuid, "a");
            let ids: Vec<&str> = devices.iter().map(|d| d.uuid.as_str()).collect();
            assert_eq!(ids, vec!["a", "c", "b"]);
        }
        other => panic!("unexpected {:?}", other),
    }
    let ids: Vec<String> = mgr.enumerate().into_iter().map(|d| d.uuid).collect();
    assert_eq!(ids, vec!["a", "c", "b"]);
}

#[test]
fn update_notifies_only_on_length_change() {
    let mut mgr = AdapterManager::new();
    mgr.on_device_discovered("X".to_string(), &props("Trezor", Some(vec![0, 1, 2])), false, false, 1);
    assert_eq!(mgr.on_device_updated("X", &props("Trezor", Some(vec![1, 7, 8])), 2), None);
    let d = mgr.get_device("X").unwrap();
    assert_eq!(d.data, vec![0, 1, 2]);
    assert_eq!(d.timestamp, 2);
    match mgr.on_device_updated("X", &props("Trezor", Some(vec![1, 4])), 3) {
        Some(NotificationEvent::DeviceUpdated { uuid, devices }) => {
            assert_eq!(uuid, "X");
            assert_eq!(devices[0].data, vec![1, 4]);
            assert!(devices[0].pairing_mode);
            assert_eq!(devices[0].model_variant, 4);
            assert_eq!(devices[0].internal_model, 0);
        }
        other => panic!("unexpected {:?}", other),
    }
    assert_eq!(mgr.on_device_updated("X", &props("Trezor", None), 4), None);
    assert_eq!(mgr.on_device_updated("unknown", &props("Trezor", Some(vec![1])), 4), None);
}

#[test]
fn pump_ignores_untracked_and_connected_events() {
    let mut mgr = AdapterManager::new();
    mgr.on_device_discovered("X".to_string(), &props("Trezor", None), true, false, 1);
    assert_eq!(mgr.pump_step(CentralEvent::DeviceUpdated("Q".to_string())), PumpStep::Ignore);
    assert_eq!(mgr.pump_step(CentralEvent::DeviceUpdated("X".to_string())), PumpStep::ReadUpdated("X".to_string()));
    assert_eq!(mgr.pump_step(CentralEvent::DeviceConnected("X".to_string())), PumpStep::Ignore);
    assert_eq!(
        mgr.pump_step(CentralEvent::DeviceDisconnected("X".to_string())),
        PumpStep::ReadDisconnected("X".to_string())
    );
    assert_eq!(mgr.pump_step(CentralEvent::DeviceDiscovered("Q".to_string())), PumpStep::ReadDiscovered("Q".to_string()));
    assert_eq!(mgr.pump_step(CentralEvent::ServicesAdvertisement("X".to_string())), PumpStep::Ignore);
    assert_eq!(
        mgr.pump_step(CentralEvent::StateUpdate(CentralState::Unknown)),
        PumpStep::Publish(NotificationEvent::AdapterStateChanged { powered: false })
    );
    match mgr.on_device_disconnected("X", false) {
        Some(NotificationEvent::DeviceDisconnected { uuid, devices }) => {
            assert_eq!(uuid, "X");
            assert!(!devices[0].connected);
        }
        other => panic!("unexpected {:?}", other),
    }
    assert_eq!(mgr.on_device_disconnected("Q", false), None);
}

#[test]
fn two_handshakes_leave_no_subscription() {
    for _ in 0..2 {
        let mut h = Handshake::new();
        h.step(HandshakeInput::Resolved { connected: true });
        h.step(HandshakeInput::DiscoverDone(Ok(())));
        h.step(HandshakeInput::Probed { elapsed_ms: 0, connected: true, notify_found: true });
        let c = h.step(HandshakeInput::SubscribeDone(Ok(())));
        assert_eq!(c, vec![HandshakeCommand::Unsubscribe]);
        h.step(HandshakeInput::UnsubscribeDone);
        h.step(HandshakeInput::Confirmed { connected: true });
        assert!(h.is_finished());
    }
}

#[test]
fn close_device_stops_reads() {
    let mut s = Session::new(7);
    assert!(s.start_reading("X"));
    assert!(!s.start_reading("X"));
    let read = NotificationEvent::DeviceRead { uuid: "X".to_string(), data: vec![1] };
    assert!(s.forward(&read));
    let (msg, reply) = close_device(&mut s, "X");
    assert_eq!(msg, ChannelMessage::Abort(AbortProcess::Read));
    assert_eq!(reply, WsResponsePayload::Success(true));
    assert!(reader_step(&msg));
    assert!(!s.forward(&read));
    assert!(!s.is_reading("X"));
    assert!(s.forward(&NotificationEvent::AdapterStateChanged { powered: true }));
    assert!(!reader_step(&ChannelMessage::Abort(AbortProcess::Scan)));
    assert!(reader_step(&ChannelMessage::Abort(AbortProcess::Disconnect)));
    assert_eq!(s.session_id(), 7);
}

#[test]
fn last_listener_leaving_stops_loader() {
    let mut mgr = AdapterManager::new();
    mgr.watch_adapter(1);
    mgr.watch_adapter(2);
    let out = mgr.get_adapter(None);
    assert!(!out.present);
    assert!(out.spawn_loader);
    assert!(!mgr.adapter_loader());
    assert!(!mgr.stop_watching(1));
    assert_eq!(mgr.send_to_listeners(), vec![2]);
    assert!(mgr.stop_watching(2));
    assert!(mgr.send_to_listeners().is_empty());
    assert!(mgr.adapter_loader());
}

#[test]
fn restart_stops_before_starting() {
    let msg = ChannelMessage::Notification(NotificationEvent::AdapterStateChanged { powered: true });
    assert_eq!(
        scan_task_step(&msg, ScanFilter::AcceptAll),
        ScanTaskAction::Issue(vec![ScanCommand::StopScan, ScanCommand::StartScan(ScanFilter::AcceptAll)])
    );
    assert_eq!(scan(ScanFilter::WalletService), vec![ScanCommand::StopScan, ScanCommand::StartScan(ScanFilter::WalletService)]);
    assert_eq!(scan_task_step(&ChannelMessage::Abort(AbortProcess::Scan), ScanFilter::AcceptAll), ScanTaskAction::Terminate);
    assert_eq!(scan_task_step(&ChannelMessage::Abort(AbortProcess::Disconnect), ScanFilter::AcceptAll), ScanTaskAction::Terminate);
    assert_eq!(scan_task_step(&ChannelMessage::Abort(AbortProcess::Read), ScanFilter::AcceptAll), ScanTaskAction::Ignore);
}

#[test]
fn start_then_stop_scan_leaves_backend_idle() {
    let mut mgr = AdapterManager::new();
    mgr.on_device_discovered("X".to_string(), &props("Trezor", None), false, false, 1);
    let (payload, cmds) = start_scan(&mut mgr, true, ScanFilter::WalletService).unwrap();
    match payload {
        WsResponsePayload::Peripherals(d) => assert_eq!(d.len(), 1),
        other => panic!("unexpected {:?}", other),
    }
    let mut scanning = false;
    for c in cmds.iter().chain(stop_scan(&mut mgr, true).1.unwrap().1.iter()) {
        scanning = matches!(c, ScanCommand::StartScan(_));
    }
    assert!(!scanning);
    let (abort, second) = stop_scan(&mut mgr, true);
    assert_eq!(abort, ChannelMessage::Abort(AbortProcess::Scan));
    assert_eq!(second.unwrap(), (WsResponsePayload::Success(true), vec![ScanCommand::StopScan]));
    assert_eq!(start_scan(&mut mgr, false, ScanFilter::AcceptAll).unwrap_err(), ErrorKind::AdapterDisabled);
    assert_eq!(stop_scan(&mut mgr, false).1.unwrap_err(), ErrorKind::AdapterDisabled);
}

#[test]
fn forget_on_os_managed_platform_replies_false() {
    assert_eq!(forget_device(PairingKind::OsManaged, "X"), ForgetPlan::Reply(WsResponsePayload::Success(false)));
    assert_eq!(forget_device(PairingKind::HostExplicit, "X"), ForgetPlan::Unpair);
    assert_eq!(forget_device(PairingKind::HostPinConfirm, "X"), ForgetPlan::Unpair);
}

#[test]
fn adapter_acquisition_announces_and_starts_pump_once() {
    let mut mgr = AdapterManager::new();
    mgr.watch_adapter(1);
    let first = mgr.get_adapter(None);
    assert!(first.spawn_loader);
    let poll = mgr.loader_poll(None);
    assert!(!poll.present);
    let found = mgr.loader_poll(Some(true));
    assert!(found.present);
    assert!(found.start_events);
    assert_eq!(found.notification, Some(NotificationEvent::AdapterStateChanged { powered: true }));
    assert!(mgr.has_adapter());
    let again = mgr.get_adapter(Some(false));
    assert!(again.present && again.notification.is_none() && !again.start_events && !again.spawn_loader);
    let mut fresh = AdapterManager::new();
    let direct = fresh.get_adapter(Some(false));
    assert_eq!(direct.notification, Some(NotificationEvent::AdapterStateChanged { powered: false }));
    assert!(direct.start_events);
    assert!(is_adapter_powered(Some(CentralState::PoweredOn)));
    assert!(!is_adapter_powered(Some(CentralState::PoweredOff)));
    assert!(!is_adapter_powered(None));
}

#[test]
fn clock_reads_seconds_since_epoch() {
    assert!(get_timestamp() > 1_600_000_000);
}
