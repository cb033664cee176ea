//! The decisions of the client-facing methods. Each takes what the backend
//! reported as plain values and says what to reply, or which backend call
//! comes next.
use crate::adapter_manager::AdapterManager;
use crate::device::CHARACTERISTIC_RX;
use crate::registry::{is_snapshot, views};
use crate::scan::{scan_sequence, ScanCommand, ScanFilter};
use crate::session::Session;
use crate::text::text_eq;
use crate::types::{AbortProcess, ChannelMessage, ErrorKind, NotificationEvent, WsResponsePayload};
use vstd::prelude::*;

verus! {

/// Size of the buffer that a write sends.
pub const WRITE_BUFFER_LEN: usize = 244;

/// How the platform pairs with a device.
#[derive(PartialEq, Eq, Structural, Clone, Copy, Debug)]
pub enum PairingKind {
    /// The host pairs on request; completion is also watched by polling.
    HostExplicit,
    /// The host pairs on request and confirms a PIN shown to the client.
    HostPinConfirm,
    /// The OS pairs by itself as part of connecting.
    OsManaged,
}

/// A characteristic of the wallet service, as the backend lists it.
#[derive(PartialEq, Eq, Structural, Clone, Copy, Debug)]
pub struct CharacteristicInfo {
    pub uuid: u128,
    pub notify: bool,
    pub write: bool,
}

/// What the backend reports of the adapter.
#[derive(Clone, Debug, PartialEq, Eq)]
pub struct AdapterReport {
    pub powered: bool,
    pub info: Option<String>,
}

/// The characteristic that takes writes.
pub open spec fn is_write_target(c: CharacteristicInfo) -> bool {
    c.uuid == CHARACTERISTIC_RX && c.write
}

/// The first index of `s` whose element `p` holds of, when there is one.
pub open spec fn is_first_match(s: Seq<CharacteristicInfo>, r: Option<usize>, want_write: bool) -> bool {
    let p = |c: CharacteristicInfo| if want_write { is_write_target(c) } else { c.notify };
    match r {
        Some(i) => i < s.len() && p(s[i as int]) && forall|j: int| 0 <= j < i ==> !p(#[trigger] s[j]),
        None => forall|j: int| 0 <= j < s.len() ==> !p(#[trigger] s[j]),
    }
}

fn first_characteristic(chars: &Vec<CharacteristicInfo>, want_write: bool) -> (r: Option<usize>)
    ensures
        is_first_match(chars@, r, want_write),
{
    let mut i: usize = 0;
    while i < chars.len()
        invariant
            i <= chars@.len(),
            is_first_match(chars@.subrange(0, i as int), None, want_write),
        decreases chars@.len() - i,
    {
        let c = chars[i];
        let hit = if want_write {
            c.uuid == CHARACTERISTIC_RX && c.write
        } else {
            c.notify
        };
        if hit {
            proof {
                assert forall|j: int| 0 <= j < i implies chars@.subrange(0, i as int)[j] == chars@[j] by {}
            }
            return Some(i);
        }
        proof {
            assert forall|j: int| 0 <= j < i + 1 implies chars@.subrange(0, i + 1)[j] == chars@[j] by {}
            assert forall|j: int| 0 <= j < i implies chars@.subrange(0, i as int)[j] == chars@[j] by {}
        }
        i = i + 1;
    }
    proof {
        assert(chars@.subrange(0, i as int) =~= chars@);
    }
    None
}

/// The first characteristic with the Notify property.
pub fn find_notify_characteristic(chars: &Vec<CharacteristicInfo>) -> (r: Option<usize>)
    ensures
        is_first_match(chars@, r, false),
{
    first_characteristic(chars, false)
}

/// The first characteristic with the receive UUID and the Write property.
pub fn find_write_characteristic(chars: &Vec<CharacteristicInfo>) -> (r: Option<usize>)
    ensures
        is_first_match(chars@, r, true),
{
    first_characteristic(chars, true)
}

/// The position of the peripheral with this id among those the backend
/// lists, the first when several match.
pub fn get_peripheral_by_address(ids: &Vec<String>, address: &str) -> (r: Option<usize>)
    ensures
        match r {
            Some(i) => i < ids@.len() && ids@[i as int]@ == address@ && forall|j: int|
                0 <= j < i ==> #[trigger] ids@[j]@ != address@,
            None => forall|j: int| 0 <= j < ids@.len() ==> #[trigger] ids@[j]@ != address@,
        },
{
    let mut i: usize = 0;
    while i < ids.len()
        invariant
            i <= ids@.len(),
            forall|j: int| 0 <= j < i ==> #[trigger] ids@[j]@ != address@,
        decreases ids@.len() - i,
    {
        if text_eq(ids[i].as_str(), address) {
            return Some(i);
        }
        i = i + 1;
    }
    None
}

/// The payload laid into the fixed-size buffer, zeros after it.
pub open spec fn padded(data: Seq<u8>) -> Seq<u8> {
    Seq::new(WRITE_BUFFER_LEN as nat, |i: int| if i < data.len() { data[i] } else { 0u8 })
}

/// The buffer that a write sends, or `PayloadTooLarge` past its size.
pub fn write_buffer(data: &Vec<u8>) -> (r: Result<Vec<u8>, ErrorKind>)
    ensures
        data@.len() > WRITE_BUFFER_LEN ==> r matches Err(ErrorKind::PayloadTooLarge),
        data@.len() <= WRITE_BUFFER_LEN ==> (r matches Ok(b) && b@ == padded(data@)),
{
    if data.len() > WRITE_BUFFER_LEN {
        return Err(ErrorKind::PayloadTooLarge);
    }
    let mut buf: Vec<u8> = Vec::new();
    let mut i: usize = 0;
    while i < WRITE_BUFFER_LEN
        invariant
            i <= WRITE_BUFFER_LEN,
            data@.len() <= WRITE_BUFFER_LEN,
            buf@ =~= padded(data@).subrange(0, i as int),
        decreases WRITE_BUFFER_LEN - i,
    {
        if i < data.len() {
            buf.push(data[i]);
        } else {
            buf.push(0);
        }
        i = i + 1;
    }
    proof {
        assert(padded(data@).subrange(0, WRITE_BUFFER_LEN as int) =~= padded(data@));
    }
    Ok(buf)
}

/// A write, given whether the adapter is powered and, when the backend
/// found the peripheral, whether it is connected: the buffer to send, or
/// why not. The payload is checked before any backend write.
pub fn write(powered: bool, peripheral: Option<bool>, data: &Vec<u8>) -> (r: Result<Vec<u8>, ErrorKind>)
    ensures
        !powered ==> r matches Err(ErrorKind::AdapterDisabled),
        powered && peripheral is None ==> r matches Err(ErrorKind::PeripheralNotFound),
        powered && peripheral == Some(false) ==> r matches Err(ErrorKind::DeviceNotConnected),
        powered && peripheral == Some(true) && data@.len() > WRITE_BUFFER_LEN ==> r matches Err(
            ErrorKind::PayloadTooLarge,
        ),
        powered && peripheral == Some(true) && data@.len() <= WRITE_BUFFER_LEN ==> (r matches Ok(b)
            && b@ == padded(data@)),
{
    if !powered {
        return Err(ErrorKind::AdapterDisabled);
    }
    match peripheral {
        None => Err(ErrorKind::PeripheralNotFound),
        Some(false) => Err(ErrorKind::DeviceNotConnected),
        Some(true) => write_buffer(data),
    }
}

/// Closing a device stops the session's readers: the message to publish on
/// the session's channel, and the reply, which is always success.
pub fn close_device(session: &mut Session, _uuid: &str) -> (r: (ChannelMessage, WsResponsePayload))
    ensures
        r.0 == ChannelMessage::Abort(AbortProcess::Read),
        r.1 == WsResponsePayload::Success(true),
        final(session).reading() == Set::<Seq<char>>::empty(),
        final(session).id() == old(session).id(),
{
    session.handle_abort(AbortProcess::Read);
    (ChannelMessage::Abort(AbortProcess::Read), WsResponsePayload::Success(true))
}

/// The reply to a read, which delivers no data of its own.
pub fn read(_uuid: &str) -> (r: WsResponsePayload)
    ensures
        r matches WsResponsePayload::Read(d) && d@.len() == 0,
{
    WsResponsePayload::Read(Vec::new())
}

/// The reply to `enumerate`: the registry snapshot.
pub fn enumerate(manager: &AdapterManager) -> (r: WsResponsePayload)
    requires
        manager.well_formed(),
    ensures
        r matches WsResponsePayload::Peripherals(d) && is_snapshot(views(d@), manager.devices()),
{
    WsResponsePayload::Peripherals(manager.get_devices())
}

/// The reply to `get_info`, from what the backend reports of the adapter
/// (none when there is no adapter).
pub fn get_info(adapter: Option<AdapterReport>, api_version: String) -> (r: WsResponsePayload)
    ensures
        match adapter {
            Some(a) => r matches WsResponsePayload::Info { powered, api_version: v, adapter_info, adapter_version }
                && powered == a.powered && v@ == api_version@ && adapter_version == 9 && adapter_info@ == (
            match a.info {
                Some(s) => s@,
                None => "Unknown"@,
            }),
            None => r matches WsResponsePayload::Info { powered, api_version: v, adapter_info, adapter_version }
                && !powered && v@ == api_version@ && adapter_version == 0 && adapter_info@ == "Unknown"@,
        },
{
    match adapter {
        Some(a) => {
            let adapter_info = match a.info {
                Some(s) => s,
                None => "Unknown".to_owned(),
            };
            WsResponsePayload::Info { powered: a.powered, api_version, adapter_info, adapter_version: 9 }
        },
        None => WsResponsePayload::Info {
            powered: false,
            api_version,
            adapter_info: "Unknown".to_owned(),
            adapter_version: 0,
        },
    }
}

/// What forgetting a device takes.
#[derive(Clone, Debug, PartialEq, Eq)]
pub enum ForgetPlan {
    /// Ask the host to unpair, then report with `forget_result`.
    Unpair,
    /// Reply at once.
    Reply(WsResponsePayload),
}

/// Forgetting a device: the host unpairs where it pairs; where the OS pairs
/// by itself there is nothing to undo and the reply is `false`.
pub fn forget_device(kind: PairingKind, _uuid: &str) -> (r: ForgetPlan)
    ensures
        kind == PairingKind::OsManaged ==> r == ForgetPlan::Reply(WsResponsePayload::Success(false)),
        kind != PairingKind::OsManaged ==> r is Unpair,
{
    match kind {
        PairingKind::OsManaged => ForgetPlan::Reply(WsResponsePayload::Success(false)),
        _ => ForgetPlan::Unpair,
    }
}

/// The reply once the host answered an unpair request.
pub fn forget_result(outcome: Result<(), String>) -> (r: Result<WsResponsePayload, ErrorKind>)
    ensures
        match outcome {
            Ok(_) => r == Ok::<WsResponsePayload, ErrorKind>(WsResponsePayload::Success(true)),
            Err(m) => r matches Err(ErrorKind::Backend(e)) && e@ == m@,
        },
{
    match outcome {
        Ok(_) => Ok(WsResponsePayload::Success(true)),
        Err(m) => Err(ErrorKind::Backend(m)),
    }
}

/// Disconnecting: whether to call the backend's `disconnect`, which is only
/// when the peripheral is connected. No notification comes from here.
pub fn disconnect_device(powered: bool, peripheral: Option<bool>) -> (r: Result<bool, ErrorKind>)
    ensures
        !powered ==> r matches Err(ErrorKind::AdapterDisabled),
        powered ==> match peripheral {
            None => r matches Err(ErrorKind::PeripheralNotFound),
            Some(c) => r == Ok::<bool, ErrorKind>(c),
        },
{
    if !powered {
        return Err(ErrorKind::AdapterDisabled);
    }
    match peripheral {
        None => Err(ErrorKind::PeripheralNotFound),
        Some(c) => Ok(c),
    }
}

/// Opening a device: whether a reader must be started (not when the session
/// already reads the device), or why the device cannot be opened.
pub fn open_device(
    manager: &AdapterManager,
    session: &Session,
    uuid: &str,
    powered: bool,
    peripheral: Option<bool>,
) -> (r: Result<bool, ErrorKind>)
    ensures
        !powered ==> r matches Err(ErrorKind::AdapterDisabled),
        powered && !manager.devices().contains_key(uuid@) ==> r matches Err(ErrorKind::DeviceNotFound),
        powered && manager.devices().contains_key(uuid@) ==> match peripheral {
            None => r matches Err(ErrorKind::PeripheralNotFound),
            Some(false) => r matches Err(ErrorKind::DeviceNotConnected),
            Some(true) => r == Ok::<bool, ErrorKind>(!session.reading().contains(uuid@)),
        },
{
    if !powered {
        return Err(ErrorKind::AdapterDisabled);
    }
    if manager.get_device(uuid).is_none() {
        return Err(ErrorKind::DeviceNotFound);
    }
    match peripheral {
        None => Err(ErrorKind::PeripheralNotFound),
        Some(false) => Err(ErrorKind::DeviceNotConnected),
        Some(true) => Ok(!session.is_reading(uuid)),
    }
}

/// Starting a scan: the reply, which is the registry snapshot, and the
/// backend calls; nothing changes when the adapter is not powered.
pub fn start_scan(manager: &mut AdapterManager, powered: bool, filter: ScanFilter) -> (r: Result<
    (WsResponsePayload, Vec<ScanCommand>),
    ErrorKind,
>)
    requires
        old(manager).well_formed(),
    ensures
        !powered ==> (r matches Err(ErrorKind::AdapterDisabled) && *final(manager) == *old(manager)),
        powered ==> (r matches Ok((p, cmds)) && cmds@ == scan_sequence(filter)
            && *final(manager) == old(manager).scan_started()
            && (p matches WsResponsePayload::Peripherals(d) && is_snapshot(views(d@), old(manager).devices()))),
{
    if !powered {
        return Err(ErrorKind::AdapterDisabled);
    }
    let known = manager.enumerate();
    let cmds = manager.start_scan(filter);
    Ok((WsResponsePayload::Peripherals(known), cmds))
}

/// Stopping a scan: the message that ends the session's scan task, which is
/// published in any case, then the reply and the backend call.
pub fn stop_scan(manager: &mut AdapterManager, powered: bool) -> (r: (
    ChannelMessage,
    Result<(WsResponsePayload, Vec<ScanCommand>), ErrorKind>,
))
    ensures
        r.0 == ChannelMessage::Abort(AbortProcess::Scan),
        !powered ==> (r.1 matches Err(ErrorKind::AdapterDisabled) && *final(manager) == *old(manager)),
        powered ==> (r.1 matches Ok((p, cmds)) && cmds@ == seq![ScanCommand::StopScan] && p
            == WsResponsePayload::Success(true) && *final(manager) == old(manager).scan_stopped()),
{
    let abort = ChannelMessage::Abort(AbortProcess::Scan);
    if !powered {
        return (abort, Err(ErrorKind::AdapterDisabled));
    }
    let cmds = manager.stop_scan();
    (abort, Ok((WsResponsePayload::Success(true), cmds)))
}

/// The pairing notification of a device.
pub fn pairing_notice(uuid: &str, paired: bool) -> (r: NotificationEvent)
    ensures
        r matches NotificationEvent::DevicePairing { uuid: u, paired: p, pin } && u@ == uuid@ && p
            == paired && pin@.len() == 0,
{
    NotificationEvent::DevicePairing { uuid: uuid.to_owned(), paired, pin: String::new() }
}

/// Whether the connect handshake starts with a pairing phase, or why it
/// cannot start. Where the host pairs on request it does, unless the
/// registry already has the device paired; where the host confirms a PIN it
/// asks the OS itself; where the OS pairs, pairing is part of connecting.
pub fn connect_device(manager: &AdapterManager, uuid: &str, powered: bool, kind: PairingKind) -> (r:
    Result<bool, ErrorKind>)
    ensures
        !powered ==> r matches Err(ErrorKind::AdapterDisabled),
        powered && !manager.devices().contains_key(uuid@) ==> r matches Err(ErrorKind::DeviceNotFound),
        powered && manager.devices().contains_key(uuid@) ==> r == Ok::<bool, ErrorKind>(
            match kind {
                PairingKind::HostExplicit => !manager.devices()[uuid@].paired,
                PairingKind::HostPinConfirm => true,
                PairingKind::OsManaged => false,
            },
        ),
{
    if !powered {
        return Err(ErrorKind::AdapterDisabled);
    }
    match manager.get_device(uuid) {
        None => Err(ErrorKind::DeviceNotFound),
        Some(d) => match kind {
            PairingKind::HostExplicit => Ok(!d.is_paired()),
            PairingKind::HostPinConfirm => Ok(true),
            PairingKind::OsManaged => Ok(false),
        },
    }
}

/// The outcome of the pairing phase: a failure of the host's pairing call
/// fails the handshake.
pub fn pairing_result(outcome: Result<(), String>) -> (r: Result<(), ErrorKind>)
    ensures
        match outcome {
            Ok(_) => r is Ok,
            Err(m) => r matches Err(ErrorKind::PairingFailed(e)) && e@ == m@,
        },
{
    match outcome {
        Ok(_) => Ok(()),
        Err(m) => Err(ErrorKind::PairingFailed(m)),
    }
}

} // verus!
