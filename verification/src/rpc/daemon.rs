//! Commands for, and answers from, the remote probe daemon.

use vstd::prelude::*;

use crate::stacktrace::Stacktrace;

verus! {

/// A command sent to the daemon.
#[derive(Debug, Clone, PartialEq, Eq)]
pub enum Commands {
    WriteHex(WriteHex),
    Reset,
    ListDevices,
    DefmtData { address: u64 },
    Connect(Option<DeviceInfo>),
}

/// The firmware image to flash, as Intel hex text.
#[derive(Debug, Clone, PartialEq, Eq)]
pub struct WriteHex {
    pub elf_data: String,
}

/// An answer from the daemon.
#[derive(Debug, Clone, PartialEq, Eq)]
pub enum Response {
    Accepted,
    Error,
    Log(String),
    DefmtData(Vec<u8>),
    StackFrame(Stacktrace),
    Devices(Vec<DeviceInfo>),
}

/// One device the daemon can reach.
#[derive(Debug, Clone, PartialEq, Eq)]
pub struct DeviceInfo {
    pub port: usize,
    pub name: String,
}

impl crate::Device for DeviceInfo {
    fn hardware_description(&self) -> &str {
        self.name.as_str()
    }
}

impl DeviceInfo {
    pub fn new(port: usize, name: String) -> (r: Self)
        ensures
            r.port == port,
            r.name@ == name@,
    {
        DeviceInfo { port, name }
    }
}

/// The daemon failed to carry a command out.
#[derive(Debug, Clone, Copy, PartialEq, Eq, Structural)]
pub enum Error {
    Internal,
}

impl Response {
    /// Read a plain acknowledgement as a result.
    ///
    /// Only the `Accepted` and `Error` answers are acknowledgements; the
    /// data-carrying answers are left out.
    pub fn as_result(&self) -> (r: Result<(), Error>)
        requires
            *self is Accepted || *self is Error,
        ensures
            r is Ok <==> *self is Accepted,
            r is Err ==> r == Err::<(), Error>(Error::Internal),
    {
        match self {
            Self::Accepted => Ok(()),
            _ => Err(Error::Internal),
        }
    }
}

/// Verbosity of a forwarded log record.
#[derive(Debug, Clone, Copy, PartialEq, Eq, Structural)]
pub enum Level {
    Warn,
    Error,
    Info,
    Debug,
    Trace,
}

/// A log record forwarded from the daemon to the host.
#[derive(Debug, Clone, PartialEq, Eq)]
pub struct Record {
    pub level: Level,
    pub target: String,
    pub message: String,
    pub module: Option<String>,
    pub file: Option<String>,
    pub line: Option<u32>,
}

} // verus!
