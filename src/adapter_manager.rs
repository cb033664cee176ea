//! The single-adapter coordinator: lazy adapter acquisition, the adapter
//! loader, the listener list, and the transitions of the central-event pump.
//! The caller performs the backend calls and the task spawning that the
//! returned decisions ask for.
use crate::device::{get_peripheral_name, scan_filter, wallet_record, PeripheralInfo, TrezorDevice, display_name};
use crate::registry::{is_snapshot, views, DeviceRegistry};
use crate::scan::{scan, scan_sequence, ScanCommand, ScanFilter};
use crate::text::has_substring;
use crate::types::NotificationEvent;
use vstd::prelude::*;

verus! {

/// Power state reported by the backend.
#[derive(PartialEq, Eq, Structural, Clone, Copy, Debug)]
pub enum CentralState {
    Unknown,
    PoweredOn,
    PoweredOff,
}

/// An event of the backend's central-event stream, by peripheral id.
#[derive(Clone, Debug, PartialEq, Eq)]
pub enum CentralEvent {
    StateUpdate(CentralState),
    DeviceDiscovered(String),
    DeviceUpdated(String),
    DeviceConnected(String),
    DeviceDisconnected(String),
    ServicesAdvertisement(String),
    ServiceDataAdvertisement(String),
    ManufacturerDataAdvertisement(String),
}

/// Whether the adapter is powered, from its reported state (`None` when
/// there is no adapter or its state could not be read).
pub fn is_adapter_powered(state: Option<CentralState>) -> (r: bool)
    ensures
        r == (state == Some(CentralState::PoweredOn)),
{
    match state {
        Some(s) => s == CentralState::PoweredOn,
        None => false,
    }
}

/// What the pump does next for one event.
#[derive(Clone, Debug, PartialEq, Eq)]
pub enum PumpStep {
    /// Nothing to do.
    Ignore,
    /// Publish this notification to the listeners.
    Publish(NotificationEvent),
    /// Read the peripheral's properties, then call `on_device_discovered`.
    ReadDiscovered(String),
    /// Read the peripheral's properties, then call `on_device_updated`.
    ReadUpdated(String),
    /// Read the connection state of a fresh peripheral handle, then call
    /// `on_device_disconnected`.
    ReadDisconnected(String),
}

/// What follows an attempt to obtain the adapter.
#[derive(Clone, Debug, PartialEq, Eq)]
pub struct AdapterOutcome {
    /// An adapter is held.
    pub present: bool,
    /// Publish this to the listeners.
    pub notification: Option<NotificationEvent>,
    /// Spawn the events pump.
    pub start_events: bool,
    /// Spawn the adapter loader.
    pub spawn_loader: bool,
}

pub struct AdapterManager {
    is_scanning: bool,
    adapter_present: bool,
    loader_running: bool,
    pump_running: bool,
    listeners: Vec<u64>,
    peripherals: DeviceRegistry,
}

/// The notification that reports a power state.
pub open spec fn state_changed(powered: bool) -> NotificationEvent {
    NotificationEvent::AdapterStateChanged { powered }
}

impl AdapterManager {
    /// Whether the backend was last told to scan.
    pub closed spec fn scanning(&self) -> bool {
        self.is_scanning
    }

    pub closed spec fn adapter_present(&self) -> bool {
        self.adapter_present
    }

    pub closed spec fn loader_running(&self) -> bool {
        self.loader_running
    }

    pub closed spec fn pump_running(&self) -> bool {
        self.pump_running
    }

    /// Session ids of the listeners, in the order they started watching.
    pub closed spec fn listeners(&self) -> Seq<u64> {
        self.listeners@
    }

    /// The tracked devices by id.
    pub closed spec fn devices(&self) -> Map<Seq<char>, crate::device::DeviceView> {
        self.peripherals@
    }

    pub closed spec fn well_formed(&self) -> bool {
        &&& self.peripherals.well_formed()
        &&& self.pump_running ==> self.adapter_present
    }

    pub fn new() -> (r: AdapterManager)
        ensures
            r.well_formed(),
            !r.scanning(),
            !r.adapter_present(),
            !r.loader_running(),
            !r.pump_running(),
            r.listeners().len() == 0,
            r.devices().dom().len() == 0,
    {
        let r = AdapterManager {
            is_scanning: false,
            adapter_present: false,
            loader_running: false,
            pump_running: false,
            listeners: Vec::new(),
            peripherals: DeviceRegistry::new(),
        };
        proof {
            assert(r.peripherals@.dom() =~= Set::<Seq<char>>::empty());
        }
        r
    }

    pub fn has_adapter(&self) -> (r: bool)
        ensures
            r == self.adapter_present(),
    {
        self.adapter_present
    }

    /// Spawn the events pump unless it already runs.
    fn start_events_stream(&mut self) -> (spawn: bool)
        requires
            old(self).adapter_present,
        ensures
            spawn == !old(self).pump_running,
            final(self).pump_running,
            final(self).adapter_present == old(self).adapter_present,
            final(self).loader_running == old(self).loader_running,
            final(self).listeners == old(self).listeners,
            final(self).peripherals == old(self).peripherals,
            final(self).is_scanning == old(self).is_scanning,
    {
        let spawn = !self.pump_running;
        self.pump_running = true;
        spawn
    }

    /// The notification that announces the held adapter's power state.
    fn dispatch_adapter_event(&self, powered: bool) -> (r: NotificationEvent)
        ensures
            r == state_changed(powered),
    {
        NotificationEvent::AdapterStateChanged { powered }
    }

    /// Obtains the adapter. `probe` is what the backend reported when asked
    /// for one (`None`: no adapter; `Some(powered)`); it is ignored when an
    /// adapter is already held. Without one, the loader is asked for.
    pub fn get_adapter(&mut self, probe: Option<bool>) -> (r: AdapterOutcome)
        requires
            old(self).well_formed(),
        ensures
            final(self).well_formed(),
            old(self).adapter_present() ==> r.present && r.notification is None && !r.start_events
                && !r.spawn_loader && *final(self) == *old(self),
            !old(self).adapter_present() ==> match probe {
                Some(powered) => {
                    &&& r.present
                    &&& r.notification == Some(state_changed(powered))
                    &&& r.start_events == !old(self).pump_running()
                    &&& !r.spawn_loader
                    &&& final(self).adapter_present()
                    &&& final(self).pump_running()
                    &&& final(self).loader_running() == old(self).loader_running()
                },
                None => {
                    &&& !r.present
                    &&& r.notification is None
                    &&& !r.start_events
                    &&& r.spawn_loader == !old(self).loader_running()
                    &&& !final(self).adapter_present()
                    &&& final(self).loader_running()
                    &&& final(self).pump_running() == old(self).pump_running()
                },
            },
            final(self).listeners() == old(self).listeners(),
            final(self).devices() == old(self).devices(),
    {
        if self.adapter_present {
            return AdapterOutcome { present: true, notification: None, start_events: false, spawn_loader: false };
        }
        match probe {
            Some(powered) => {
                self.adapter_present = true;
                let notification = self.dispatch_adapter_event(powered);
                let start_events = self.start_events_stream();
                AdapterOutcome { present: true, notification: Some(notification), start_events, spawn_loader: false }
            },
            None => {
                let spawn_loader = self.adapter_loader();
                AdapterOutcome { present: false, notification: None, start_events: false, spawn_loader }
            },
        }
    }

    /// Marks the loader as running; returns whether it must be spawned, which
    /// it need not when one already runs.
    pub fn adapter_loader(&mut self) -> (spawn: bool)
        ensures
            spawn == !old(self).loader_running(),
            final(self).loader_running(),
            final(self).adapter_present() == old(self).adapter_present(),
            final(self).pump_running() == old(self).pump_running(),
            final(self).listeners() == old(self).listeners(),
            final(self).devices() == old(self).devices(),
            final(self).scanning() == old(self).scanning(),
            final(self).well_formed() == old(self).well_formed(),
    {
        let spawn = !self.loader_running;
        self.loader_running = true;
        spawn
    }

    /// One poll of the loader, made every two seconds with what the backend
    /// reported. Once an adapter is held the loader ends, announcing it and
    /// asking for the pump.
    pub fn loader_poll(&mut self, probe: Option<bool>) -> (r: AdapterOutcome)
        requires
            old(self).well_formed(),
        ensures
            final(self).well_formed(),
            !r.spawn_loader,
            r.present == (old(self).adapter_present() || probe is Some),
            r.present ==> !final(self).loader_running() && final(self).adapter_present()
                && final(self).pump_running(),
            r.present ==> r.start_events == !old(self).pump_running(),
            !r.present ==> *final(self) == *old(self) && !r.start_events,
            r.notification == (if !old(self).adapter_present() && probe is Some {
                Some(state_changed(probe->Some_0))
            } else {
                None
            }),
            final(self).listeners() == old(self).listeners(),
            final(self).devices() == old(self).devices(),
    {
        let mut notification: Option<NotificationEvent> = None;
        if !self.adapter_present {
            match probe {
                Some(powered) => {
                    self.adapter_present = true;
                    notification = Some(self.dispatch_adapter_event(powered));
                },
                None => {
                    return AdapterOutcome { present: false, notification: None, start_events: false, spawn_loader: false };
                },
            }
        }
        self.loader_running = false;
        let start_events = self.start_events_stream();
        AdapterOutcome { present: true, notification, start_events, spawn_loader: false }
    }

    /// Adds a session to the listeners.
    pub fn watch_adapter(&mut self, session: u64)
        ensures
            final(self).listeners() == old(self).listeners().push(session),
            final(self).adapter_present() == old(self).adapter_present(),
            final(self).loader_running() == old(self).loader_running(),
            final(self).pump_running() == old(self).pump_running(),
            final(self).devices() == old(self).devices(),
            final(self).well_formed() == old(self).well_formed(),
    {
        self.listeners.push(session);
    }

    /// Removes a session from the listeners. When none is left, a running
    /// loader is stopped: the result says whether to abort its task.
    pub fn stop_watching(&mut self, session: u64) -> (abort_loader: bool)
        ensures
            final(self).listeners() == old(self).listeners().filter(|s: u64| s != session),
            abort_loader == (old(self).loader_running() && final(self).listeners().len() == 0),
            (forall|i: int| 0 <= i < old(self).listeners().len() ==> old(self).listeners()[i] == session)
                ==> final(self).listeners().len() == 0 && abort_loader == old(self).loader_running(),
            final(self).loader_running() == (old(self).loader_running() && final(self).listeners().len() > 0),
            final(self).adapter_present() == old(self).adapter_present(),
            final(self).pump_running() == old(self).pump_running(),
            final(self).devices() == old(self).devices(),
            final(self).well_formed() == old(self).well_formed(),
    {
        let mut kept: Vec<u64> = Vec::new();
        let mut i: usize = 0;
        while i < self.listeners.len()
            invariant
                i <= self.listeners@.len(),
                kept@ == self.listeners@.subrange(0, i as int).filter(|s: u64| s != session),
                (forall|j: int| 0 <= j < self.listeners@.len() ==> self.listeners@[j] == session) ==> kept@.len() == 0,
            decreases self.listeners@.len() - i,
        {
            proof {
                let ghost sub = self.listeners@.subrange(0, i + 1);
                assert(sub.drop_last() =~= self.listeners@.subrange(0, i as int));
                reveal(Seq::filter);
            }
            if self.listeners[i] != session {
                kept.push(self.listeners[i]);
            }
            i = i + 1;
        }
        proof {
            assert(self.listeners@.subrange(0, self.listeners@.len() as int) =~= self.listeners@);
        }
        proof {
            if forall|j: int| 0 <= j < old(self).listeners().len() ==> old(self).listeners()[j] == session {
                assert forall|j: int| 0 <= j < old(self).listeners@.len() implies old(self).listeners@[j] == session by {
                    assert(old(self).listeners()[j] == session);
                }
                assert(kept@.len() == 0);
            }
        }
        self.listeners = kept;
        let abort_loader = self.listeners.len() == 0 && self.loader_running;
        if abort_loader {
            self.loader_running = false;
        }
        abort_loader
    }

    /// The sessions to which a message for all listeners is delivered.
    pub fn send_to_listeners(&self) -> (r: Vec<u64>)
        ensures
            r@ == self.listeners(),
    {
        self.listeners.clone()
    }

    fn add_device(&mut self, device: TrezorDevice)
        requires
            old(self).well_formed(),
            device.well_formed(),
        ensures
            final(self).well_formed(),
            final(self).devices() == old(self).devices().insert(device@.uuid, device@),
            final(self).adapter_present() == old(self).adapter_present(),
            final(self).loader_running() == old(self).loader_running(),
            final(self).pump_running() == old(self).pump_running(),
            final(self).listeners() == old(self).listeners(),
            final(self).scanning() == old(self).scanning(),
    {
        self.peripherals.insert(device);
    }

    /// A copy of the tracked device with this id.
    pub fn get_device(&self, uuid: &str) -> (r: Option<TrezorDevice>)
        ensures
            match r {
                Some(d) => self.devices().contains_key(uuid@) && d@ == self.devices()[uuid@],
                None => !self.devices().contains_key(uuid@),
            },
    {
        self.peripherals.get(uuid)
    }

    /// Every tracked device, ordered by discovery time, ties by id.
    pub fn get_devices(&self) -> (r: Vec<TrezorDevice>)
        requires
            self.well_formed(),
        ensures
            is_snapshot(views(r@), self.devices()),
    {
        self.peripherals.list()
    }

    /// The registry snapshot, as `get_devices`.
    pub fn enumerate(&self) -> (r: Vec<TrezorDevice>)
        requires
            self.well_formed(),
        ensures
            is_snapshot(views(r@), self.devices()),
    {
        self.get_devices()
    }

    /// What the pump does for one event of the central-event stream.
    pub fn pump_step(&self, event: CentralEvent) -> (r: PumpStep)
        ensures
            match event {
                CentralEvent::StateUpdate(s) => r == PumpStep::Publish(state_changed(s == CentralState::PoweredOn)),
                CentralEvent::DeviceDiscovered(id) => r == PumpStep::ReadDiscovered(id),
                CentralEvent::DeviceUpdated(id) => if self.devices().contains_key(id@) {
                    r == PumpStep::ReadUpdated(id)
                } else {
                    r is Ignore
                },
                CentralEvent::DeviceDisconnected(id) => if self.devices().contains_key(id@) {
                    r == PumpStep::ReadDisconnected(id)
                } else {
                    r is Ignore
                },
                _ => r is Ignore,
            },
    {
        match event {
            CentralEvent::StateUpdate(s) => {
                let powered = s == CentralState::PoweredOn;
                PumpStep::Publish(NotificationEvent::AdapterStateChanged { powered })
            },
            CentralEvent::DeviceDiscovered(id) => PumpStep::ReadDiscovered(id),
            CentralEvent::DeviceUpdated(id) => {
                if self.peripherals.get(id.as_str()).is_some() {
                    PumpStep::ReadUpdated(id)
                } else {
                    PumpStep::Ignore
                }
            },
            CentralEvent::DeviceDisconnected(id) => {
                if self.peripherals.get(id.as_str()).is_some() {
                    PumpStep::ReadDisconnected(id)
                } else {
                    PumpStep::Ignore
                }
            },
            _ => PumpStep::Ignore,
        }
    }

    /// A discovered peripheral whose name passes the filter is recorded, and
    /// the notification lists the registry after the insertion.
    pub fn on_device_discovered(
        &mut self,
        id: String,
        props: &PeripheralInfo,
        connected: bool,
        paired: bool,
        now: u64,
    ) -> (r: Option<NotificationEvent>)
        requires
            old(self).well_formed(),
        ensures
            final(self).well_formed(),
            has_substring(display_name(props.local_name), "Trezor"@) ==> {
                &&& final(self).devices().contains_key(id@)
                &&& final(self).devices() == old(self).devices().insert(id@, final(self).devices()[id@])
                &&& final(self).devices()[id@].name == display_name(props.local_name)
                &&& final(self).devices()[id@].connected == connected
                &&& final(self).devices()[id@].paired == paired
                &&& final(self).devices()[id@].timestamp == now
                &&& final(self).devices()[id@].rssi == (match props.rssi {
                    Some(v) => v,
                    None => 0i16,
                })
                &&& final(self).devices()[id@].data == (match wallet_record(props.manufacturer_data@) {
                    Some(d) => d,
                    None => Seq::<u8>::empty(),
                })
                &&& r matches Some(NotificationEvent::DeviceDiscovered { uuid, timestamp, devices })
                    && uuid@ == id@ && timestamp == 0 && is_snapshot(views(devices@), final(self).devices())
            },
            !has_substring(display_name(props.local_name), "Trezor"@) ==> r is None && *final(self)
                == *old(self),
            final(self).listeners() == old(self).listeners(),
            final(self).adapter_present() == old(self).adapter_present(),
            final(self).loader_running() == old(self).loader_running(),
            final(self).pump_running() == old(self).pump_running(),
    {
        let name = get_peripheral_name(&props.local_name);
        if !scan_filter(name.as_str()) {
            return None;
        }
        let uuid = id.clone();
        let device = TrezorDevice::new(id, props, connected, paired, now);
        self.add_device(device);
        let devices = self.get_devices();
        Some(NotificationEvent::DeviceDiscovered { uuid, timestamp: 0, devices })
    }

    /// Refreshes a tracked device from its properties. The notification comes
    /// only when the manufacturer data changed length.
    pub fn on_device_updated(&mut self, id: &str, props: &PeripheralInfo, now: u64) -> (r: Option<
        NotificationEvent,
    >)
        requires
            old(self).well_formed(),
        ensures
            final(self).well_formed(),
            !old(self).devices().contains_key(id@) ==> r is None && *final(self) == *old(self),
            old(self).devices().contains_key(id@) ==> {
                let before = old(self).devices()[id@];
                let after = final(self).devices()[id@];
                let changed = match wallet_record(props.manufacturer_data@) {
                    Some(d) => d.len() != before.data.len(),
                    None => false,
                };
                &&& final(self).devices() == old(self).devices().insert(id@, after)
                &&& after.timestamp == now
                &&& after.rssi == (match props.rssi {
                    Some(v) => v,
                    None => 0i16,
                })
                &&& after.data == (if changed {
                    wallet_record(props.manufacturer_data@)->Some_0
                } else {
                    before.data
                })
                &&& after.connected == before.connected
                &&& after.paired == before.paired
                &&& after.name == before.name
                &&& (r is Some <==> changed)
                &&& r matches Some(n) ==> n matches NotificationEvent::DeviceUpdated { uuid, devices }
                    && uuid@ == id@ && is_snapshot(views(devices@), final(self).devices())
            },
            final(self).listeners() == old(self).listeners(),
            final(self).adapter_present() == old(self).adapter_present(),
            final(self).loader_running() == old(self).loader_running(),
            final(self).pump_running() == old(self).pump_running(),
    {
        match self.peripherals.get(id) {
            None => None,
            Some(device) => {
                let mut device = device;
                let changed = device.update_properties(props, now);
                self.add_device(device);
                if changed {
                    let devices = self.get_devices();
                    Some(NotificationEvent::DeviceUpdated { uuid: id.to_owned(), devices })
                } else {
                    None
                }
            },
        }
    }

    /// Records the connection state of a tracked device that the backend
    /// reported disconnected (`connected` is false when no handle was found).
    pub fn on_device_disconnected(&mut self, id: &str, connected: bool) -> (r: Option<
        NotificationEvent,
    >)
        requires
            old(self).well_formed(),
        ensures
            final(self).well_formed(),
            !old(self).devices().contains_key(id@) ==> r is None && *final(self) == *old(self),
            old(self).devices().contains_key(id@) ==> {
                let before = old(self).devices()[id@];
                let after = final(self).devices()[id@];
                &&& final(self).devices() == old(self).devices().insert(id@, after)
                &&& after.connected == connected
                &&& after.paired == (before.paired || connected)
                &&& after.timestamp == before.timestamp
                &&& after.data == before.data
                &&& r matches Some(NotificationEvent::DeviceDisconnected { uuid, devices })
                    && uuid@ == id@ && is_snapshot(views(devices@), final(self).devices())
            },
            final(self).listeners() == old(self).listeners(),
            final(self).adapter_present() == old(self).adapter_present(),
            final(self).loader_running() == old(self).loader_running(),
            final(self).pump_running() == old(self).pump_running(),
    {
        match self.peripherals.get(id) {
            None => None,
            Some(device) => {
                let mut device = device;
                device.update_connection(connected);
                self.add_device(device);
                let devices = self.get_devices();
                Some(NotificationEvent::DeviceDisconnected { uuid: id.to_owned(), devices })
            },
        }
    }

    /// Marks a tracked device connected (or not) once the connect handshake
    /// is through; the notification lists the registry afterwards.
    pub fn on_device_connected(&mut self, id: &str, connected: bool) -> (r: Option<NotificationEvent>)
        requires
            old(self).well_formed(),
        ensures
            final(self).well_formed(),
            !old(self).devices().contains_key(id@) ==> r is None && *final(self) == *old(self),
            old(self).devices().contains_key(id@) ==> {
                let before = old(self).devices()[id@];
                let after = final(self).devices()[id@];
                &&& final(self).devices() == old(self).devices().insert(id@, after)
                &&& after.connected == connected
                &&& after.paired == (before.paired || connected)
                &&& after.timestamp == before.timestamp
                &&& after.data == before.data
                &&& r matches Some(NotificationEvent::DeviceConnected { uuid, devices })
                    && uuid@ == id@ && is_snapshot(views(devices@), final(self).devices())
            },
            final(self).listeners() == old(self).listeners(),
            final(self).adapter_present() == old(self).adapter_present(),
            final(self).loader_running() == old(self).loader_running(),
            final(self).pump_running() == old(self).pump_running(),
    {
        match self.peripherals.get(id) {
            None => None,
            Some(device) => {
                let mut device = device;
                device.update_connection(connected);
                self.add_device(device);
                let devices = self.get_devices();
                Some(NotificationEvent::DeviceConnected { uuid: id.to_owned(), devices })
            },
        }
    }

    /// The state after the backend was told to scan.
    pub closed spec fn scan_started(self) -> AdapterManager {
        AdapterManager { is_scanning: true, ..self }
    }

    /// The state after the backend was told to stop scanning.
    pub closed spec fn scan_stopped(self) -> AdapterManager {
        AdapterManager { is_scanning: false, ..self }
    }

    /// Starts a scan: the commands to issue, a defensive stop then the start.
    pub fn start_scan(&mut self, filter: ScanFilter) -> (r: Vec<ScanCommand>)
        ensures
            r@ == scan_sequence(filter),
            *final(self) == old(self).scan_started(),
            final(self).well_formed() == old(self).well_formed(),
            final(self).scanning(),
            final(self).adapter_present() == old(self).adapter_present(),
            final(self).loader_running() == old(self).loader_running(),
            final(self).pump_running() == old(self).pump_running(),
            final(self).listeners() == old(self).listeners(),
            final(self).devices() == old(self).devices(),
    {
        self.is_scanning = true;
        scan(filter)
    }

    /// Stops the scan: the command to issue.
    pub fn stop_scan(&mut self) -> (r: Vec<ScanCommand>)
        ensures
            r@ == seq![ScanCommand::StopScan],
            *final(self) == old(self).scan_stopped(),
            final(self).well_formed() == old(self).well_formed(),
            !final(self).scanning(),
            final(self).adapter_present() == old(self).adapter_present(),
            final(self).loader_running() == old(self).loader_running(),
            final(self).pump_running() == old(self).pump_running(),
            final(self).listeners() == old(self).listeners(),
            final(self).devices() == old(self).devices(),
    {
        self.is_scanning = false;
        vec![ScanCommand::StopScan]
    }

    /// Starting then stopping a scan leaves the coordinator not scanning, in
    /// the state one stop leaves; stopping twice is stopping once; nothing
    /// else of the state changes.
    pub proof fn lemma_scan_round_trip(self)
        ensures
            !self.scan_started().scan_stopped().scanning(),
            self.scan_started().scan_stopped() == self.scan_stopped(),
            self.scan_stopped().scan_stopped() == self.scan_stopped(),
            self.scan_stopped().devices() == self.devices(),
            self.scan_stopped().listeners() == self.listeners(),
            self.scan_stopped().well_formed() == self.well_formed(),
            self.scan_started().well_formed() == self.well_formed(),
            self.scan_started().devices() == self.devices(),
    {
    }
}

} // verus!
