//! One tracked peripheral and the attributes derived from its advertisement.
use std::collections::HashMap;
use vstd::prelude::*;

verus! {

broadcast use vstd::std_specs::hash::group_hash_axioms;

/// Manufacturer id whose record carries the wallet's attributes.
pub const MANUFACTURER_DATA: u16 = 0xFFFF;

/// 128-bit id of the wallet's GATT service.
pub const SERVICE_UUID: u128 = 0x8c000001_a59b_4d58_a9ad_073df69fa1b1;

/// 128-bit id of the characteristic that takes writes.
pub const CHARACTERISTIC_RX: u128 = 0x8c000002_a59b_4d58_a9ad_073df69fa1b1;

/// What the backend reports of a peripheral's advertisement.
#[derive(Clone, Debug, PartialEq, Eq)]
pub struct PeripheralInfo {
    pub local_name: Option<String>,
    pub manufacturer_data: HashMap<u16, Vec<u8>>,
    pub rssi: Option<i16>,
}

/// A peripheral that passed the name filter.
#[derive(Clone, Debug, PartialEq, Eq)]
pub struct TrezorDevice {
    pub paired: bool,
    pub pairing_mode: bool,
    pub name: String,
    pub data: Vec<u8>,
    pub internal_model: u8,
    pub model_variant: u8,
    pub uuid: String,
    pub connected: bool,
    pub timestamp: u64,
    pub rssi: i16,
}

/// The mathematical value of a device record.
pub struct DeviceView {
    pub paired: bool,
    pub pairing_mode: bool,
    pub name: Seq<char>,
    pub data: Seq<u8>,
    pub internal_model: u8,
    pub model_variant: u8,
    pub uuid: Seq<char>,
    pub connected: bool,
    pub timestamp: u64,
    pub rssi: i16,
}

impl View for TrezorDevice {
    type V = DeviceView;

    open spec fn view(&self) -> DeviceView {
        DeviceView {
            paired: self.paired,
            pairing_mode: self.pairing_mode,
            name: self.name@,
            data: self.data@,
            internal_model: self.internal_model,
            model_variant: self.model_variant,
            uuid: self.uuid@,
            connected: self.connected,
            timestamp: self.timestamp,
            rssi: self.rssi,
        }
    }
}

impl DeviceView {
    /// The derived attributes agree with the manufacturer data.
    pub open spec fn well_formed(&self) -> bool {
        &&& self.pairing_mode == (byte_or_zero(self.data, 0) == 1)
        &&& self.model_variant == byte_or_zero(self.data, 1)
        &&& self.internal_model == byte_or_zero(self.data, 2)
    }
}

/// The record of manufacturer `0xFFFF`, if advertised.
pub open spec fn wallet_record(m: Map<u16, Vec<u8>>) -> Option<Seq<u8>> {
    if m.contains_key(MANUFACTURER_DATA) {
        Some(m[MANUFACTURER_DATA]@)
    } else {
        None
    }
}

/// Byte `i` of `d`, or zero past its end.
pub open spec fn byte_or_zero(d: Seq<u8>, i: int) -> u8 {
    if 0 <= i < d.len() {
        d[i]
    } else {
        0
    }
}

/// The name shown for a peripheral: its local name, or a placeholder.
pub open spec fn display_name(local_name: Option<String>) -> Seq<char> {
    match local_name {
        Some(s) => s@,
        None => "(unknown name)"@,
    }
}

impl TrezorDevice {
    /// The derived attributes agree with the manufacturer data.
    pub open spec fn well_formed(&self) -> bool {
        self@.well_formed()
    }

    /// A copy of the record, field for field.
    pub fn duplicate(&self) -> (r: TrezorDevice)
        ensures
            r@ == self@,
    {
        TrezorDevice {
            paired: self.paired,
            pairing_mode: self.pairing_mode,
            name: self.name.clone(),
            data: self.data.clone(),
            internal_model: self.internal_model,
            model_variant: self.model_variant,
            uuid: self.uuid.clone(),
            connected: self.connected,
            timestamp: self.timestamp,
            rssi: self.rssi,
        }
    }

    /// A record built from the advertised properties, discovered at `timestamp`.
    pub fn new(
        uuid: String,
        props: &PeripheralInfo,
        connected: bool,
        paired: bool,
        timestamp: u64,
    ) -> (r: TrezorDevice)
        ensures
            r.well_formed(),
            r.uuid@ == uuid@,
            r.name@ == display_name(props.local_name),
            r.data@ == match wallet_record(props.manufacturer_data@) {
                Some(d) => d,
                None => Seq::<u8>::empty(),
            },
            r.connected == connected,
            r.paired == paired,
            r.timestamp == timestamp,
            r.rssi == match props.rssi {
                Some(v) => v,
                None => 0i16,
            },
    {
        let data: Vec<u8> = match props.manufacturer_data.get(&MANUFACTURER_DATA) {
            Some(d) => d.clone(),
            None => Vec::new(),
        };
        let rssi: i16 = match props.rssi {
            Some(v) => v,
            None => 0,
        };
        let mut dev = TrezorDevice {
            paired,
            pairing_mode: false,
            name: get_peripheral_name(&props.local_name),
            data,
            internal_model: 0,
            model_variant: 0,
            uuid,
            connected,
            timestamp,
            rssi,
        };
        dev.derive_attributes();
        dev
    }

    /// Recomputes the attributes that the manufacturer data determines.
    fn derive_attributes(&mut self)
        ensures
            final(self).well_formed(),
            final(self).data == old(self).data,
            final(self).name == old(self).name,
            final(self).uuid == old(self).uuid,
            final(self).paired == old(self).paired,
            final(self).connected == old(self).connected,
            final(self).timestamp == old(self).timestamp,
            final(self).rssi == old(self).rssi,
    {
        let n = self.data.len();
        self.pairing_mode = n > 0 && self.data[0] == 1;
        self.model_variant = if n > 1 {
            self.data[1]
        } else {
            0
        };
        self.internal_model = if n > 2 {
            self.data[2]
        } else {
            0
        };
    }

    /// Refreshes timestamp, signal strength and manufacturer data; returns
    /// whether the data changed, which is decided by its length alone.
    pub fn update_properties(&mut self, props: &PeripheralInfo, now: u64) -> (changed: bool)
        requires
            old(self).well_formed(),
        ensures
            final(self).well_formed(),
            final(self).timestamp == now,
            final(self).rssi == match props.rssi {
                Some(v) => v,
                None => 0i16,
            },
            changed == match wallet_record(props.manufacturer_data@) {
                Some(d) => d.len() != old(self).data@.len(),
                None => false,
            },
            final(self).data@ == (if changed {
                wallet_record(props.manufacturer_data@)->Some_0
            } else {
                old(self).data@
            }),
            final(self).name == old(self).name,
            final(self).uuid == old(self).uuid,
            final(self).paired == old(self).paired,
            final(self).connected == old(self).connected,
    {
        self.timestamp = now;
        self.rssi = match props.rssi {
            Some(v) => v,
            None => 0,
        };
        match props.manufacturer_data.get(&MANUFACTURER_DATA) {
            Some(d) => {
                if d.len() != self.data.len() {
                    self.data = d.clone();
                    self.derive_attributes();
                    true
                } else {
                    false
                }
            },
            None => false,
        }
    }

    /// Records the connection state read from the backend; a connected
    /// device counts as paired from then on.
    pub fn update_connection(&mut self, is_connected: bool)
        ensures
            final(self).connected == is_connected,
            final(self).paired == (old(self).paired || is_connected),
            final(self).pairing_mode == old(self).pairing_mode,
            final(self).name == old(self).name,
            final(self).data == old(self).data,
            final(self).internal_model == old(self).internal_model,
            final(self).model_variant == old(self).model_variant,
            final(self).uuid == old(self).uuid,
            final(self).timestamp == old(self).timestamp,
            final(self).rssi == old(self).rssi,
    {
        if is_connected {
            self.paired = true;
        }
        self.connected = is_connected;
    }

    pub fn is_paired(&self) -> (r: bool)
        ensures
            r == self.paired,
    {
        self.paired
    }

    pub fn get_timestamp(&self) -> (r: u64)
        ensures
            r == self.timestamp,
    {
        self.timestamp
    }
}

/// The peripheral's local name, or `"(unknown name)"` when it has none.
pub fn get_peripheral_name(local_name: &Option<String>) -> (r: String)
    ensures
        r@ == display_name(*local_name),
{
    match local_name {
        Some(s) => s.clone(),
        None => "(unknown name)".to_owned(),
    }
}

/// Whether a peripheral with this name is a wallet worth tracking.
pub fn scan_filter(name: &str) -> (r: bool)
    ensures
        r == crate::text::has_substring(name@, "Trezor"@),
{
    crate::text::contains_text(name, "Trezor")
}

#[verifier::external_type_specification]
#[verifier::external_body]
pub struct ExSystemTime(std::time::SystemTime);

#[verifier::external_type_specification]
#[verifier::external_body]
pub struct ExSystemTimeError(std::time::SystemTimeError);

/// Relies on std's `SystemTime::now`: a reading of the system clock, of which
/// nothing is promised.
pub assume_specification[ std::time::SystemTime::now ]() -> std::time::SystemTime;

/// Relies on std's `Duration::as_secs`: the whole seconds of a duration.
pub assume_specification[ std::time::Duration::as_secs ](d: &std::time::Duration) -> u64;

/// Relies on std's `SystemTime::duration_since` against `UNIX_EPOCH`: an
/// error when the clock reads earlier than the epoch.
#[verifier::external_body]
fn since_unix_epoch(t: &std::time::SystemTime) -> (r: Result<
    std::time::Duration,
    std::time::SystemTimeError,
>) {
    t.duration_since(std::time::UNIX_EPOCH)
}

/// Seconds since the Unix epoch by the system clock; zero when the clock
/// reads earlier than the epoch.
pub fn get_timestamp() -> u64 {
    let now = std::time::SystemTime::now();
    match since_unix_epoch(&now) {
        Ok(d) => d.as_secs(),
        Err(_) => 0,
    }
}

} // verus!
