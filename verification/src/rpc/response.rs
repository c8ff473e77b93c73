//! Responses the proxied FTDI driver returns.

use vstd::prelude::*;

verus! {

#[derive(Debug, Clone, PartialEq, Eq, Structural)]
pub struct Open {
    pub handle_value: u32,
}

#[derive(Debug, Clone, PartialEq, Eq, Structural)]
pub struct Close;

#[derive(Debug, Clone, PartialEq, Eq, Structural)]
pub struct QueueLength {
    pub length: u32,
}

#[derive(Debug, Clone, PartialEq, Eq, Structural)]
pub struct SetUSBParameters;

#[derive(Debug, Clone, PartialEq, Eq)]
pub struct GetDetails {
    pub flags: u32,
    pub device_type: u32,
    pub device_id: u32,
    pub device_location: u32,
    pub serial_number: String,
    pub description: String,
    pub handle_value: u32,
}

#[derive(Debug, Clone, PartialEq, Eq, Structural)]
pub struct CreateDeviceInfoList {
    pub number_connected: u32,
}

#[derive(Debug, Clone, PartialEq, Eq, Structural)]
pub struct SetChars;

#[derive(Debug, Clone, PartialEq, Eq, Structural)]
pub struct ResetDevice;

#[derive(Debug, Clone, PartialEq, Eq, Structural)]
pub struct Write {
    pub length: u32,
}

#[derive(Debug, Clone, PartialEq, Eq)]
pub struct Read {
    pub data: Vec<u8>,
}

#[derive(Debug, Clone, PartialEq, Eq, Structural)]
pub struct SetLatencyTimer;

#[derive(Debug, Clone, PartialEq, Eq, Structural)]
pub struct LibraryVersion {
    pub version: u32,
}

#[derive(Debug, Clone, PartialEq, Eq, Structural)]
pub struct DriverVersion {
    pub version: u32,
}

#[derive(Debug, Clone, PartialEq, Eq, Structural)]
pub struct SetTimeouts;

#[derive(Debug, Clone, PartialEq, Eq, Structural)]
pub struct SetFlowControl;

#[derive(Debug, Clone, PartialEq, Eq, Structural)]
pub struct SetBitMode;

#[derive(Debug, Clone, PartialEq, Eq)]
pub enum ResponseBody {
    Open(Open),
    CreateDeviceInfoList(CreateDeviceInfoList),
    GetDetails(GetDetails),
    ResetDevice(ResetDevice),
    QueueLength(QueueLength),
    SetUSBParameters(SetUSBParameters),
    SetCharsResponse(SetChars),
    SetTimeouts(SetTimeouts),
    SetLatencyTimer(SetLatencyTimer),
    SetFlowControl(SetFlowControl),
    SetBitMode(SetBitMode),
    Write(Write),
    Read(Read),
    LibraryVersion(LibraryVersion),
    DriverVersion(DriverVersion),
    Close(Close),
}

} // verus!
