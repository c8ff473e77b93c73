//! Requests the proxied FTDI driver accepts.

use vstd::prelude::*;

verus! {

#[derive(Debug, Clone, PartialEq, Eq, Structural)]
pub struct ResetDevice {
    pub handle: u32,
}

#[derive(Debug, Clone, PartialEq, Eq, Structural)]
pub struct Open {
    pub number: i32,
}

#[derive(Debug, Clone, PartialEq, Eq, Structural)]
pub struct GetDetails {
    pub device_index: u32,
}

#[derive(Debug, Clone, PartialEq, Eq, Structural)]
pub struct SetUSBParameters {
    pub handle: u32,
    pub transfer_size_in: u32,
    pub transfer_size_out: u32,
}

#[derive(Debug, Clone, PartialEq, Eq, Structural)]
pub struct Close {
    pub handle: u32,
}

#[derive(Debug, Clone, PartialEq, Eq, Structural)]
pub struct QueueLength {
    pub handle: u32,
}

#[derive(Debug, Clone, PartialEq, Eq, Structural)]
pub struct SetChars {
    pub event_character: u8,
    pub event_character_enable: u8,
    pub error_character: u8,
    pub error_character_enabled: u8,
    pub handle: u32,
}

#[derive(Debug, Clone, PartialEq, Eq, Structural)]
pub struct CreateDeviceInfoList;

#[derive(Debug, Clone, PartialEq, Eq, Structural)]
pub struct SetTimeouts {
    pub read_ms: u32,
    pub write_ms: u32,
    pub handle: u32,
}

#[derive(Debug, Clone, PartialEq, Eq, Structural)]
pub struct SetLatencyTimer {
    pub timer_ms: u8,
    pub handle: u32,
}

#[derive(Debug, Clone, PartialEq, Eq, Structural)]
pub struct SetFlowControl {
    pub flow_control: u16,
    pub on: u8,
    pub off: u8,
    pub handle: u32,
}

#[derive(Debug, Clone, PartialEq, Eq, Structural)]
pub struct SetBitMode {
    pub mask: u8,
    pub mode: u8,
    pub handle: u32,
}

#[derive(Debug, Clone, PartialEq, Eq)]
pub struct Write {
    pub data: Vec<u8>,
    pub handle: u32,
}

#[derive(Debug, Clone, PartialEq, Eq, Structural)]
pub struct Read {
    pub max_data_len: u32,
    pub handle: u32,
}

#[derive(Debug, Clone, PartialEq, Eq, Structural)]
pub struct DriverVersion {
    pub handle: u32,
}

#[derive(Debug, Clone, PartialEq, Eq, Structural)]
pub struct LibraryVersion;

#[derive(Debug, Clone, PartialEq, Eq)]
pub enum RPCRequest {
    Open(Open),
    CreateDeviceInfoList(CreateDeviceInfoList),
    GetDetails(GetDetails),
    ResetDevice(ResetDevice),
    QueueLength(QueueLength),
    USBParamters(SetUSBParameters),
    SetChars(SetChars),
    SetTimeouts(SetTimeouts),
    SetLatencyTimer(SetLatencyTimer),
    SetFlowControl(SetFlowControl),
    SetBitMode(SetBitMode),
    Write(Write),
    Read(Read),
    LibraryVersion(LibraryVersion),
    DriverVersion(DriverVersion),
    Close(Close),
}

} // verus!
