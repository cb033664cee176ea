use std::collections::HashMap;
use transport_bluetooth::adapter_manager::{AdapterManager, CentralEvent, CentralState, PumpStep};
use transport_bluetooth::device::PeripheralInfo;
use transport_bluetooth::handshake::{connection_status, Handshake, HandshakeCommand, HandshakeInput, Phase};
use transport_bluetooth::methods::{self, connect_device, PairingKind};
use transport_bluetooth::scan::{scan_task_step, ScanCommand, ScanFilter, ScanTaskAction};
use transport_bluetooth::types::{ChannelMessage, ErrorKind, NotificationEvent};

fn props(name: Option<&str>, data: Option<Vec<u8>>, rssi: Option<i16>) -> PeripheralInfo {
    let mut manufacturer_data = HashMap::new();
    if let Some(d) = data {
        manufacturer_data.insert(0xFFFFu16, d);
    }
    PeripheralInfo { local_name: name.map(|s| s.to_string()), manufacturer_data, rssi }
}

#[test]
fn discovery_records_wallet_attributes() {
    let mut mgr = AdapterManager::new();
    let p = props(Some("Trezor Model T"), Some(vec![1, 2, 3]), Some(-40));
    let n = mgr.on_device_discovered("X".to_string(), &p, false, false, 1000);
    match n {
        Some(NotificationEvent::DeviceDiscovered { uuid, timestamp, devices }) => {
            assert_eq!(uuid, "X");
            assert_eq!(timestamp, 0);
            assert_eq!(devices.len(), 1);
            assert_eq!(devices[0].uuid, "X");
        }
        other => panic!("unexpected {:?}", other),
    }
    let d = mgr.get_device("X").unwrap();
    assert!(d.pairing_mode);
    assert_eq!(d.model_variant, 2);
    assert_eq!(d.internal_model, 3);
    assert_eq!(d.name, "Trezor Model T");
    assert_eq!(d.rssi, -40);
    assert_eq!(d.data, vec![1, 2, 3]);
}

#[test]
fn discovery_rejects_other_names() {
    let mut mgr = AdapterManager::new();
    let p = props(Some("Mouse"), Some(vec![1, 2, 3]), None);
    assert_eq!(mgr.on_device_discovered("Y".to_string(), &p, false, false, 1000), None);
    assert!(mgr.get_device("Y").is_none());
    assert!(mgr.get_devices().is_empty());
}

#[test]
fn discovery_rejects_unnamed_peripheral() {
    let mut mgr = AdapterManager::new();
    let p = props(None, None, None);
    assert_eq!(mgr.on_device_discovered("Z".to_string(), &p, false, false, 1), None);
    assert!(mgr.get_devices().is_empty());
}

#[test]
fn adapter_cycle_stops_then_restarts_scan() {
    let mgr = AdapterManager::new();
    let off = mgr.pump_step(CentralEvent::StateUpdate(CentralState::PoweredOff));
    let on = mgr.pump_step(CentralEvent::StateUpdate(CentralState::PoweredOn));
    let off_event = NotificationEvent::AdapterStateChanged { powered: false };
    let on_event = NotificationEvent::AdapterStateChanged { powered: true };
    assert_eq!(off, PumpStep::Publish(off_event.clone()));
    assert_eq!(on, PumpStep::Publish(on_event.clone()));
    let mut calls = Vec::new();
    for ev in [off_event, on_event] {
        match scan_task_step(&ChannelMessage::Notification(ev), ScanFilter::WalletService) {
            ScanTaskAction::Issue(cmds) => calls.extend(cmds),
            other => panic!("unexpected {:?}", other),
        }
    }
    assert_eq!(
        calls,
        vec![
            ScanCommand::StopScan,
            ScanCommand::StopScan,
            ScanCommand::StartScan(ScanFilter::WalletService)
        ]
    );
}

fn drive(h: &mut Handshake, input: HandshakeInput) -> Vec<HandshakeCommand> {
    h.step(input)
}

#[test]
fn connect_happy_path_os_managed() {
    let mut mgr = AdapterManager::new();
    let p = props(Some("Trezor Safe 7"), Some(vec![0, 1, 9]), None);
    mgr.on_device_discovered("X".to_string(), &p, false, false, 10);
    assert_eq!(connect_device(&mgr, "X", true, PairingKind::OsManaged), Ok(false));

    let mut h = Handshake::new();
    assert_eq!(
        drive(&mut h, HandshakeInput::Resolved { connected: false }),
        vec![HandshakeCommand::Status(Phase::Connecting), HandshakeCommand::Connect]
    );
    assert_eq!(drive(&mut h, HandshakeInput::ConnectDone(Ok(()))), vec![HandshakeCommand::DiscoverServices]);
    assert_eq!(
        drive(&mut h, HandshakeInput::DiscoverDone(Ok(()))),
        vec![HandshakeCommand::StartPrompt, HandshakeCommand::Probe]
    );
    assert_eq!(
        drive(&mut h, HandshakeInput::Probed { elapsed_ms: 5, connected: true, notify_found: true }),
        vec![HandshakeCommand::Subscribe]
    );
    assert_eq!(drive(&mut h, HandshakeInput::SubscribeDone(Ok(()))), vec![HandshakeCommand::Unsubscribe]);
    assert_eq!(drive(&mut h, HandshakeInput::UnsubscribeDone), vec![HandshakeCommand::Confirm]);
    assert_eq!(
        drive(&mut h, HandshakeInput::Confirmed { connected: true }),
        vec![
            HandshakeCommand::Status(Phase::Connected),
            HandshakeCommand::CancelPrompt,
            HandshakeCommand::MarkConnected,
            HandshakeCommand::Finish(Ok(())),
        ]
    );
    assert!(h.is_finished());

    match connection_status("X", Phase::Connecting) {
        NotificationEvent::DeviceConnectionStatus { uuid, phase } => {
            assert_eq!(uuid, "X");
            assert_eq!(phase, "connecting");
        }
        other => panic!("unexpected {:?}", other),
    }
    match connection_status("X", Phase::Connected) {
        NotificationEvent::DeviceConnectionStatus { phase, .. } => assert_eq!(phase, "connected"),
        other => panic!("unexpected {:?}", other),
    }
    match mgr.on_device_connected("X", true) {
        Some(NotificationEvent::DeviceConnected { uuid, devices }) => {
            assert_eq!(uuid, "X");
            assert_eq!(devices.len(), 1);
            assert!(devices[0].connected);
        }
        other => panic!("unexpected {:?}", other),
    }
    let d = mgr.get_device("X").unwrap();
    assert!(d.connected);
    assert!(d.is_paired());
}

#[test]
fn connect_times_out_on_authentication_errors() {
    let mut h = Handshake::new();
    drive(&mut h, HandshakeInput::Resolved { connected: true });
    drive(&mut h, HandshakeInput::DiscoverDone(Ok(())));
    let mut elapsed: u64 = 0;
    let mut last = Vec::new();
    let mut marked = false;
    while !h.is_finished() {
        let cmds = drive(&mut h, HandshakeInput::Probed { elapsed_ms: elapsed, connected: true, notify_found: true });
        if h.is_finished() {
            last = cmds;
            break;
        }
        assert_eq!(cmds, vec![HandshakeCommand::Subscribe]);
        let cmds = drive(
            &mut h,
            HandshakeInput::SubscribeDone(Err("The attribute requires authentication before it can be read".to_string())),
        );
        assert_eq!(cmds, vec![HandshakeCommand::Unsubscribe]);
        let cmds = drive(&mut h, HandshakeInput::UnsubscribeDone);
        assert_eq!(cmds, vec![HandshakeCommand::Sleep]);
        marked |= cmds.contains(&HandshakeCommand::MarkConnected);
        assert_eq!(drive(&mut h, HandshakeInput::Woke), vec![HandshakeCommand::Probe]);
        elapsed += 1000;
    }
    assert!(!marked);
    assert_eq!(elapsed, 31000);
    assert_eq!(last, vec![HandshakeCommand::CancelPrompt, HandshakeCommand::Finish(Err(ErrorKind::Timeout))]);
    assert_eq!(ErrorKind::Timeout.error_text(), "Timeout");
}

#[test]
fn write_rejects_oversized_payload() {
    let data: Vec<u8> = (0..=300u16).map(|v| v as u8).collect();
    assert_eq!(data.len(), 301);
    let r = methods::write(true, Some(true), &data);
    assert_eq!(r, Err(ErrorKind::PayloadTooLarge));
    assert_eq!(r.unwrap_err().error_text(), "PayloadTooLarge");
}
