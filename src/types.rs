//! Requests, replies, notifications and the per-session channel messages.
use crate::device::TrezorDevice;
use vstd::prelude::*;

verus! {

/// Kinds of cooperative cancellation, scoped to one session.
#[derive(PartialEq, Eq, Structural, Clone, Copy, Debug)]
pub enum AbortProcess {
    Scan,
    Read,
    Disconnect,
}

/// A client request's method and arguments.
#[derive(Clone, Debug, PartialEq, Eq)]
pub enum WsRequestMethod {
    StartScan,
    StopScan,
    GetInfo,
    Enumerate,
    ConnectDevice(String),
    DisconnectDevice(String),
    OpenDevice(String),
    CloseDevice(String),
    Write(String, Vec<u8>),
    Read(String),
    ForgetDevice(String),
}

/// A decoded request envelope.
#[derive(Clone, Debug, PartialEq, Eq)]
pub struct WsRequest {
    pub id: String,
    pub method: WsRequestMethod,
}

/// A successful reply's payload.
#[derive(Clone, Debug, PartialEq, Eq)]
pub enum WsResponsePayload {
    Info { powered: bool, api_version: String, adapter_info: String, adapter_version: u8 },
    Peripherals(Vec<TrezorDevice>),
    Success(bool),
    Data(String),
    Read(Vec<u8>),
}

/// A successful reply.
#[derive(Clone, Debug, PartialEq, Eq)]
pub struct WsResponse {
    pub id: String,
    pub method: WsRequestMethod,
    pub payload: WsResponsePayload,
}

/// A failed reply.
#[derive(Clone, Debug, PartialEq, Eq)]
pub struct WsError {
    pub id: String,
    pub method: WsRequestMethod,
    pub error: String,
}

/// Unsolicited events pushed to sessions.
#[derive(Clone, Debug, PartialEq, Eq)]
pub enum NotificationEvent {
    AdapterStateChanged { powered: bool },
    ScanningUpdate { devices: Vec<TrezorDevice> },
    DeviceDiscovered { uuid: String, timestamp: u64, devices: Vec<TrezorDevice> },
    DeviceUpdated { uuid: String, devices: Vec<TrezorDevice> },
    DeviceConnected { uuid: String, devices: Vec<TrezorDevice> },
    DevicePairing { uuid: String, paired: bool, pin: String },
    DeviceConnectionStatus { uuid: String, phase: String },
    DeviceDisconnected { uuid: String, devices: Vec<TrezorDevice> },
    DeviceRead { uuid: String, data: Vec<u8> },
}

/// The envelope carried on a session's event channel.
#[derive(Clone, Debug, PartialEq, Eq)]
pub enum ChannelMessage {
    Abort(AbortProcess),
    Response(WsResponse),
    Notification(NotificationEvent),
}

/// Why a request failed.
#[derive(Clone, Debug, PartialEq, Eq)]
pub enum ErrorKind {
    AdapterDisabled,
    DeviceNotFound,
    PeripheralNotFound,
    DeviceNotConnected,
    ConnectFailed(String),
    PairingFailed(String),
    Timeout,
    Disconnected,
    PayloadTooLarge,
    ProtocolError,
    /// A backend call failed; its message.
    Backend(String),
}

/// The text that a client sees for an error.
pub open spec fn error_text_of(e: ErrorKind) -> Seq<char> {
    match e {
        ErrorKind::AdapterDisabled => "AdapterDisabled"@,
        ErrorKind::DeviceNotFound => "DeviceNotFound"@,
        ErrorKind::PeripheralNotFound => "PeripheralNotFound"@,
        ErrorKind::DeviceNotConnected => "DeviceNotConnected"@,
        ErrorKind::ConnectFailed(inner) => inner@,
        ErrorKind::PairingFailed(inner) => inner@,
        ErrorKind::Timeout => "Timeout"@,
        ErrorKind::Disconnected => "Disconnected"@,
        ErrorKind::PayloadTooLarge => "PayloadTooLarge"@,
        ErrorKind::ProtocolError => "ProtocolError"@,
        ErrorKind::Backend(inner) => inner@,
    }
}

impl ErrorKind {
    /// The error string of a failed reply.
    pub fn error_text(&self) -> (r: String)
        ensures
            r@ == error_text_of(*self),
    {
        match self {
            ErrorKind::AdapterDisabled => "AdapterDisabled".to_owned(),
            ErrorKind::DeviceNotFound => "DeviceNotFound".to_owned(),
            ErrorKind::PeripheralNotFound => "PeripheralNotFound".to_owned(),
            ErrorKind::DeviceNotConnected => "DeviceNotConnected".to_owned(),
            ErrorKind::ConnectFailed(inner) => inner.clone(),
            ErrorKind::PairingFailed(inner) => inner.clone(),
            ErrorKind::Timeout => "Timeout".to_owned(),
            ErrorKind::Disconnected => "Disconnected".to_owned(),
            ErrorKind::PayloadTooLarge => "PayloadTooLarge".to_owned(),
            ErrorKind::ProtocolError => "ProtocolError".to_owned(),
            ErrorKind::Backend(inner) => inner.clone(),
        }
    }
}

/// The reply envelope for a request and the outcome of its method.
pub fn reply_for(
    id: String,
    method: WsRequestMethod,
    outcome: Result<WsResponsePayload, ErrorKind>,
) -> (r: Result<WsResponse, WsError>)
    ensures
        match outcome {
            Ok(p) => r matches Ok(resp) && resp.id@ == id@ && resp.method == method && resp.payload == p,
            Err(e) => r matches Err(err) && err.id@ == id@ && err.method == method && err.error@
                == error_text_of(e),
        },
{
    match outcome {
        Ok(payload) => Ok(WsResponse { id, method, payload }),
        Err(e) => {
            let error = e.error_text();
            Err(WsError { id, method, error })
        },
    }
}

/// The answer to a frame that is not text: `"PONG"` to a `"PING"`, else none.
pub fn ping_reply(is_text: bool, frame: &str) -> (r: Option<String>)
    ensures
        r matches Some(s) ==> s@ == "PONG"@,
        r is Some <==> (!is_text && frame@ == "PING"@),
{
    if !is_text && crate::text::text_eq(frame, "PING") {
        Some("PONG".to_owned())
    } else {
        None
    }
}

} // verus!
