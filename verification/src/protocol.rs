//! The IPC protocol between the plugin UI and the engine: JSON-RPC
//! envelopes, error codes, and the parameter and method payload types.

use vstd::prelude::*;

use crate::text::push_str;

verus! {


/// JSON-RPC request id: a string or a number.
#[derive(Debug, Clone, PartialEq, Eq, Hash)]
pub enum RequestId {
    String(String),
    Number(i64),
}

/// A JSON-RPC request.
#[derive(Debug, Clone)]
pub struct IpcRequest {
    pub jsonrpc: String,
    pub id: RequestId,
    pub method: String,
    pub params: Option<serde_json::Value>,
}

/// A JSON-RPC response: a result or an error.
#[derive(Debug, Clone)]
pub struct IpcResponse {
    pub jsonrpc: String,
    pub id: RequestId,
    pub result: Option<serde_json::Value>,
    pub error: Option<IpcError>,
}

/// A JSON-RPC notification.
#[derive(Debug, Clone)]
pub struct IpcNotification {
    pub jsonrpc: String,
    pub method: String,
    pub params: Option<serde_json::Value>,
}

/// A JSON-RPC error object.
#[derive(Debug, Clone)]
pub struct IpcError {
    pub code: i32,
    pub message: String,
    pub data: Option<serde_json::Value>,
}

pub const ERROR_PARSE: i32 = -32700;
pub const ERROR_INVALID_REQUEST: i32 = -32600;
pub const ERROR_METHOD_NOT_FOUND: i32 = -32601;
pub const ERROR_INVALID_PARAMS: i32 = -32602;
pub const ERROR_INTERNAL: i32 = -32603;
pub const ERROR_PARAM_NOT_FOUND: i32 = -32000;
pub const ERROR_PARAM_OUT_OF_RANGE: i32 = -32001;

impl IpcRequest {
    /// A JSON-RPC 2.0 request.
    pub fn new(id: RequestId, method: &str, params: Option<serde_json::Value>) -> (r: Self)
        ensures
            r.jsonrpc@ == "2.0"@,
            r.id == id,
            r.method@ == method@,
            r.params == params,
    {
        IpcRequest { jsonrpc: "2.0".to_string(), id, method: method.to_string(), params }
    }
}

impl IpcResponse {
    /// An error response.
    pub fn error(id: RequestId, error: IpcError) -> (r: Self)
        ensures
            r.jsonrpc@ == "2.0"@,
            r.id == id,
            r.result is None,
            r.error == Some(error),
    {
        IpcResponse { jsonrpc: "2.0".to_string(), id, result: None, error: Some(error) }
    }

    /// A success response once the result was serialized: the result, or an
    /// internal error that carries the serializer's message when that failed.
    pub fn success_from(id: RequestId, serialized: Result<serde_json::Value, String>) -> (r: Self)
        ensures
            r.jsonrpc@ == "2.0"@,
            r.id == id,
            serialized matches Ok(v) ==> (r.result == Some(v) && r.error is None),
            serialized matches Err(e) ==> r.result is None,
            serialized matches Err(e) ==> (r.error matches Some(err) && err.code == ERROR_INTERNAL
                && err.message@ == "Internal error: "@ + "Failed to serialize success response: "@
                + e@),
    {
        match serialized {
            Ok(v) => IpcResponse { jsonrpc: "2.0".to_string(), id, result: Some(v), error: None },
            Err(e) => {
                let mut reason = "Failed to serialize success response: ".to_string();
                push_str(&mut reason, e.as_str());
                IpcResponse::error(id, IpcError::internal_error(reason.as_str()))
            },
        }
    }
}

impl IpcNotification {
    /// A notification once its params were serialized; without params when
    /// that failed.
    pub fn new_from(method: &str, serialized: Option<serde_json::Value>) -> (r: Self)
        ensures
            r.jsonrpc@ == "2.0"@,
            r.method@ == method@,
            r.params == serialized,
    {
        IpcNotification { jsonrpc: "2.0".to_string(), method: method.to_string(), params: serialized }
    }
}

/// `prefix` followed by `detail`.
fn prefixed(prefix: &str, detail: &str) -> (s: String)
    ensures
        s@ == prefix@ + detail@,
{
    let mut s = prefix.to_string();
    push_str(&mut s, detail);
    s
}

impl IpcError {
    /// An error without data.
    pub fn new(code: i32, message: &str) -> (e: Self)
        ensures
            e.code == code,
            e.message@ == message@,
            e.data is None,
    {
        IpcError { code, message: message.to_string(), data: None }
    }

    /// An error with data once the data was serialized; without data when
    /// that failed.
    pub fn with_data_from(code: i32, message: &str, serialized: Option<serde_json::Value>) -> (e: Self)
        ensures
            e.code == code,
            e.message@ == message@,
            e.data == serialized,
    {
        IpcError { code, message: message.to_string(), data: serialized }
    }

    pub fn parse_error() -> (e: Self)
        ensures
            e.code == ERROR_PARSE,
            e.message@ == "Parse error"@,
            e.data is None,
    {
        IpcError::new(ERROR_PARSE, "Parse error")
    }

    pub fn invalid_request(reason: &str) -> (e: Self)
        ensures
            e.code == ERROR_INVALID_REQUEST,
            e.message@ == "Invalid request: "@ + reason@,
            e.data is None,
    {
        let m = prefixed("Invalid request: ", reason);
        IpcError::new(ERROR_INVALID_REQUEST, m.as_str())
    }

    pub fn method_not_found(method: &str) -> (e: Self)
        ensures
            e.code == ERROR_METHOD_NOT_FOUND,
            e.message@ == "Method not found: "@ + method@,
            e.data is None,
    {
        let m = prefixed("Method not found: ", method);
        IpcError::new(ERROR_METHOD_NOT_FOUND, m.as_str())
    }

    pub fn invalid_params(reason: &str) -> (e: Self)
        ensures
            e.code == ERROR_INVALID_PARAMS,
            e.message@ == "Invalid params: "@ + reason@,
            e.data is None,
    {
        let m = prefixed("Invalid params: ", reason);
        IpcError::new(ERROR_INVALID_PARAMS, m.as_str())
    }

    pub fn internal_error(reason: &str) -> (e: Self)
        ensures
            e.code == ERROR_INTERNAL,
            e.message@ == "Internal error: "@ + reason@,
            e.data is None,
    {
        let m = prefixed("Internal error: ", reason);
        IpcError::new(ERROR_INTERNAL, m.as_str())
    }

    pub fn param_not_found(id: &str) -> (e: Self)
        ensures
            e.code == ERROR_PARAM_NOT_FOUND,
            e.message@ == "Parameter not found: "@ + id@,
            e.data is None,
    {
        let m = prefixed("Parameter not found: ", id);
        IpcError::new(ERROR_PARAM_NOT_FOUND, m.as_str())
    }
}

pub const METHOD_GET_PARAMETER: &'static str = "getParameter";
pub const METHOD_SET_PARAMETER: &'static str = "setParameter";
pub const METHOD_GET_ALL_PARAMETERS: &'static str = "getAllParameters";
pub const METHOD_GET_METER_FRAME: &'static str = "getMeterFrame";
pub const METHOD_GET_PASSTHROUGH_METER_FRAME: &'static str = "getPassthroughMeterFrame";
pub const METHOD_GET_OSCILLOSCOPE_FRAME: &'static str = "getOscilloscopeFrame";
pub const METHOD_GET_AUDIO_STATUS: &'static str = "getAudioStatus";
pub const METHOD_GET_INPUT_SOURCE: &'static str = "getInputSource";
pub const METHOD_SET_INPUT_SOURCE: &'static str = "setInputSource";
pub const METHOD_GET_HARDWARE_INPUT_SELECTION: &'static str = "getHardwareInputSelection";
pub const METHOD_SET_HARDWARE_INPUT_SELECTION: &'static str = "setHardwareInputSelection";
pub const METHOD_REQUEST_RESIZE: &'static str = "requestResize";
pub const METHOD_REGISTER_AUDIO: &'static str = "registerAudio";
pub const NOTIFICATION_PARAMETER_CHANGED: &'static str = "parameterChanged";
pub const NOTIFICATION_METER_UPDATE: &'static str = "meterUpdate";
pub const NOTIFICATION_AUDIO_STATUS_CHANGED: &'static str = "audioStatusChanged";
pub const NOTIFICATION_INPUT_SOURCE_CHANGED: &'static str = "inputSourceChanged";
pub const NOTIFICATION_HARDWARE_INPUT_SELECTION_CHANGED: &'static str = "hardwareInputSelectionChanged";
pub const METHOD_GET_SIGNAL_CHAIN_ORDER: &'static str = "getSignalChainOrder";
pub const METHOD_SET_SIGNAL_CHAIN_ORDER: &'static str = "setSignalChainOrder";
pub const NOTIFICATION_SIGNAL_CHAIN_ORDER_CHANGED: &'static str = "signalChainOrderChanged";

/// Parameters of `getParameter`.
#[derive(Debug, Clone)]
pub struct GetParameterParams {
    pub id: String,
}

/// Result of `setParameter`.
#[derive(Debug, Clone)]
pub struct SetParameterResult {}

/// A processor in the signal chain.
#[derive(Debug, Clone)]
pub struct ProcessorInfo {
    pub id: String,
}

/// The audio input sources.
#[derive(Debug, Clone, Copy, PartialEq, Eq, Structural)]
pub enum InputSourceKind {
    HardwareInput,
    TestTone,
}

/// One selectable input source.
#[derive(Debug, Clone)]
pub struct InputSourceOption {
    pub id: InputSourceKind,
    pub label: String,
    pub description: Option<String>,
}

/// Result of `getInputSource`.
#[derive(Debug, Clone)]
pub struct GetInputSourceResult {
    pub selected: InputSourceKind,
    pub available: Vec<InputSourceOption>,
}

/// Parameters of `setInputSource`.
#[derive(Debug, Clone)]
pub struct SetInputSourceParams {
    pub selected: InputSourceKind,
}

/// Result of `setInputSource`.
#[derive(Debug, Clone)]
pub struct SetInputSourceResult {}

/// Sent when the input source changed.
#[derive(Debug, Clone)]
pub struct InputSourceChangedNotification {
    pub selected: InputSourceKind,
}

/// One hardware input device.
#[derive(Debug, Clone)]
pub struct HardwareInputDeviceOption {
    pub id: String,
    pub label: String,
    pub channel_count: u16,
    pub description: Option<String>,
}

/// One channel of a hardware input device.
#[derive(Debug, Clone)]
pub struct HardwareInputChannelOption {
    pub id: String,
    pub label: String,
    pub description: Option<String>,
}

/// Result of `getHardwareInputSelection`.
#[derive(Debug, Clone)]
pub struct GetHardwareInputSelectionResult {
    pub selected_device_id: Option<String>,
    pub available_devices: Vec<HardwareInputDeviceOption>,
    pub selected_channel_id: Option<String>,
    pub available_channels: Vec<HardwareInputChannelOption>,
}

/// Parameters of `setHardwareInputSelection`.
#[derive(Debug, Clone)]
pub struct SetHardwareInputSelectionParams {
    pub selected_device_id: Option<String>,
    pub selected_channel_id: Option<String>,
}

/// Result of `setHardwareInputSelection`.
#[derive(Debug, Clone)]
pub struct SetHardwareInputSelectionResult {}

/// Sent when the hardware input selection changed.
#[derive(Debug, Clone)]
pub struct HardwareInputSelectionChangedNotification {
    pub selected_device_id: Option<String>,
    pub available_devices: Vec<HardwareInputDeviceOption>,
    pub selected_channel_id: Option<String>,
    pub available_channels: Vec<HardwareInputChannelOption>,
}

/// The kind of a parameter's value.
#[derive(Debug, Clone, Copy, PartialEq, Eq, Structural)]
pub enum ParameterType {
    Float,
    Bool,
    Enum,
}

/// How the oscilloscope triggers.
#[derive(Debug, Clone, Copy, PartialEq, Eq, Structural)]
pub enum OscilloscopeTriggerMode {
    RisingZeroCrossing,
}

/// Which channels the oscilloscope shows.
#[derive(Debug, Clone, Copy, PartialEq, Eq, Structural)]
pub enum OscilloscopeChannelView {
    Overlay,
    Left,
    Right,
}

/// The phase of the audio runtime.
#[derive(Debug, Clone, Copy, PartialEq, Eq, Structural)]
pub enum AudioRuntimePhase {
    Disabled,
    Initializing,
    RunningFullDuplex,
    RunningInputOnly,
    Degraded,
    Failed,
}

/// Why the audio runtime is degraded or failed.
#[derive(Debug, Clone, Copy, PartialEq, Eq, Structural)]
pub enum AudioDiagnosticCode {
    LoaderUnavailable,
    VtableMissing,
    ProcessorCreateFailed,
    NoInputDevice,
    InputPermissionDenied,
    NoOutputDevice,
    StreamStartFailed,
    Unknown,
}

/// A diagnostic of the audio runtime.
#[derive(Debug, Clone)]
pub struct AudioDiagnostic {
    pub code: AudioDiagnosticCode,
    pub message: String,
    pub hint: Option<String>,
}

/// Parameters of `requestResize`.
#[derive(Debug, Clone)]
pub struct RequestResizeParams {
    pub width: u32,
    pub height: u32,
}

/// Result of `requestResize`.
#[derive(Debug, Clone)]
pub struct RequestResizeResult {
    pub accepted: bool,
}

/// Result of `registerAudio`.
#[derive(Debug, Clone)]
pub struct RegisterAudioResult {
    pub status: String,
}

/// The kind of a signal-chain slot.
#[derive(Debug, Clone, Copy, PartialEq, Eq, Structural)]
pub enum SlotType {
    Processor,
    Tap,
}

/// One slot of the signal chain.
#[derive(Debug, Clone, PartialEq, Eq)]
pub struct SignalChainSlot {
    pub id: String,
    pub slot_type: SlotType,
}

/// Result of `getSignalChainOrder`.
#[derive(Debug, Clone)]
pub struct GetSignalChainOrderResult {
    pub slots: Vec<SignalChainSlot>,
}

/// Parameters of `setSignalChainOrder`.
#[derive(Debug, Clone)]
pub struct SetSignalChainOrderParams {
    pub slots: Vec<SignalChainSlot>,
}

/// Result of `setSignalChainOrder`.
#[derive(Debug, Clone)]
pub struct SetSignalChainOrderResult {}

/// Sent when the signal chain order changed.
#[derive(Debug, Clone)]
pub struct SignalChainOrderChangedNotification {
    pub slots: Vec<SignalChainSlot>,
}

} // verus!
