//! Data model of the debug-probe capability.
//!
//! The probe itself — memory transactions, breakpoints, run control — is an
//! external collaborator driven by the application.  This module holds the
//! plain values that cross that boundary: core run states, trigger and
//! reset descriptions, register maps, and the probe library's error codes.

use vstd::prelude::*;

verus! {

/// The kind of breakpoint a trigger implements.
#[derive(Debug, Clone, Copy, PartialEq, Eq, Structural)]
pub enum TriggerType {
    /// Fires on a read or write of the watched address range.
    RW,
    /// Fires when the instruction pointer reaches the address.
    IP,
}

/// The direction of a memory transaction.
#[derive(Debug, Clone, Copy, PartialEq, Eq, Structural)]
pub enum Type {
    Read,
    Write,
}

/// Run state of one core as the probe reports it.
#[derive(Debug, Clone, Copy, PartialEq, Eq, Structural)]
pub enum CoreState {
    Unknown,
    Running,
    Halted,
    Debug,
    Custom,
}

/// Event flags the probe reports beside a core's state.
#[derive(Debug, Clone, Copy, PartialEq, Eq, Structural)]
pub struct CoreEvents {
    pub memory_change: bool,
    pub register_changed: bool,
    pub trace_changed: bool,
    pub trigger_changed: bool,
    pub stopped: bool,
    pub chl_pending: bool,
}

/// The full answer of one state query.
#[derive(Debug, Clone, PartialEq, Eq)]
pub struct CoreInfo {
    pub state: CoreState,
    pub events: CoreEvents,
    pub hw_thread_id: u32,
    pub trigger_id: u32,
    pub stop_reason: String,
    pub info: String,
}

/// Whether the trigger set of a core is active.
#[derive(Debug, Clone, Copy, PartialEq, Eq, Structural)]
pub struct TriggerSetState {
    pub is_active: bool,
}

/// The state of one trigger.
#[derive(Debug, Clone, Copy, PartialEq, Eq, Structural)]
pub struct TriggerState {
    pub active: bool,
    pub captured: Option<bool>,
    pub trigger_count: Option<u64>,
}

impl TriggerState {
    /// Decode the raw trigger-state record the probe returns: the two
    /// validity words gate the captured flag and the trigger count.
    pub fn from_raw(
        active: u32,
        captured_valid: u32,
        captured: u32,
        count_valid: u32,
        count_value: u64,
    ) -> (r: TriggerState)
        ensures
            r.active == (active != 0),
            captured_valid == 0 ==> r.captured is None,
            captured_valid != 0 ==> r.captured == Some(captured != 0),
            count_valid == 0 ==> r.trigger_count is None,
            count_valid != 0 ==> r.trigger_count == Some(count_value),
    {
        let captured = if captured_valid == 0 {
            None
        } else {
            Some(captured != 0)
        };
        let trigger_count = if count_valid == 0 {
            None
        } else {
            Some(count_value)
        };
        TriggerState { active: active != 0, captured, trigger_count }
    }
}

/// Event classes a failed probe call can report.
#[derive(Debug, Clone, Copy, PartialEq, Eq, Structural)]
pub enum EventError {
    Reset,
    PowerDown,
    HardwareFailure,
}

/// A reset class of a core; class 0 is the default system reset.
#[derive(Debug, Clone, Copy, PartialEq, Eq, Structural)]
pub struct ResetClass {
    pub bit_set: u8,
}

impl ResetClass {
    /// Construct a reset class from a known class number.
    ///
    /// The caller must make sure the class exists for the core it will be
    /// used on; the probe reports the available classes as a bit vector.
    pub fn construct_reset_class(class: u8) -> (r: ResetClass)
        requires
            class < 32,
        ensures
            r.bit_set == class,
    {
        ResetClass { bit_set: class }
    }

    /// The probe's internal representation: a one-hot 32-bit vector.
    pub fn as_vector(&self) -> (r: u32)
        requires
            self.bit_set < 32,
        ensures
            r == (1u32 << self.bit_set),
    {
        1u32 << self.bit_set
    }
}

/// One register of a core's register map: its name and the address its
/// value is read from.
#[derive(Debug, Clone, PartialEq, Eq)]
pub struct Register {
    pub name: String,
    pub address: u64,
}

/// The register map of one register group, as plain values.
#[derive(Debug, Clone, PartialEq, Eq)]
pub struct RegisterGroup {
    pub registers: Vec<Register>,
}

impl RegisterGroup {
    /// All registers of this group.
    pub fn registers(&self) -> (r: &Vec<Register>)
        ensures
            r == &self.registers,
    {
        &self.registers
    }

    /// Look up the register with the given name in this group.
    pub fn register(&self, name: &String) -> (r: Option<&Register>)
        ensures
            r matches Some(reg) ==> exists|i: int|
                0 <= i < self.registers@.len() && self.registers@[i] == *reg && reg.name@ == name@,
            r is None ==> forall|i: int|
                0 <= i < self.registers@.len() ==> #[trigger] self.registers@[i].name@ != name@,
    {
        let mut i: usize = 0;
        while i < self.registers.len()
            invariant
                0 <= i <= self.registers@.len(),
                forall|j: int| 0 <= j < i ==> #[trigger] self.registers@[j].name@ != name@,
            decreases self.registers@.len() - i,
        {
            if self.registers[i].name == *name {
                return Some(&self.registers[i]);
            }
            i += 1;
        }
        None
    }

    /// Look the register up and treat its absence as the typed failure a
    /// snapshot reports: every register of the snapshot is mandatory.
    pub fn require_register(&self, name: &String) -> (r: Result<&Register, crate::ProbeError>)
        ensures
            r matches Ok(reg) ==> exists|i: int|
                0 <= i < self.registers@.len() && self.registers@[i] == *reg && reg.name@ == name@,
            r is Err ==> r == Err::<&Register, crate::ProbeError>(crate::ProbeError::RegisterNotFound)
                && forall|i: int|
                    0 <= i < self.registers@.len() ==> #[trigger] self.registers@[i].name@ != name@,
    {
        match self.register(name) {
            Some(reg) => Ok(reg),
            None => Err(crate::ProbeError::RegisterNotFound),
        }
    }
}

/// The probe library's error codes, as the API defines them.
#[derive(Debug, Clone, Copy, PartialEq, Eq, Structural)]
pub enum McdErrorCode {
    /// No error.
    McdErrNone,
    /// Called function is not implemented.
    McdErrFnUnimplemented,
    /// API not correctly used.
    McdErrUsage,
    /// Passed invalid parameter.
    McdErrParam,
    /// Server connection error.
    McdErrConnection,
    /// Function call timed out.
    McdErrTimedOut,
    /// General error.
    McdErrGeneral,
    /// String to return is longer than the provided character array.
    McdErrResultTooLong,
    /// Could not start server.
    McdErrCouldNotStartServer,
    /// Server is locked.
    McdErrServerLocked,
    /// No memory spaces defined.
    McdErrNoMemSpaces,
    /// No memory blocks defined for the requested memory space.
    McdErrNoMemBlocks,
    /// No memory space with requested ID exists.
    McdErrMemSpaceId,
    /// No register groups defined.
    McdErrNoRegGroups,
    /// No register group with requested ID exists.
    McdErrRegGroupId,
    /// Register is not a compound register.
    McdErrRegNotCompound,
    /// Error retrieving overlay information.
    McdErrOverlays,
    /// Cannot access device (power-down, reset active, etc.).
    McdErrDeviceAccess,
    /// Device is locked.
    McdErrDeviceLocked,
    /// Read transaction of transaction list has failed.
    McdErrTxlistRead,
    /// Write transaction of transaction list has failed.
    McdErrTxlistWrite,
    /// Other error (no R/W failure) for a transaction of the transaction list.
    McdErrTxlistTx,
    /// Requested channel type is not supported by the implementation.
    McdErrChlTypeNotSupported,
    /// Addressed target does not support communication channels.
    McdErrChlTargetNotSupported,
    /// Channel setup is invalid or contains unsupported attributes.
    McdErrChlSetup,
    /// Sending or receiving of the last message has failed.
    McdErrChlMessageFailed,
    /// Trigger could not be created.
    McdErrTrigCreate,
    /// Error during trigger information access.
    McdErrTrigAccess,
    /// The library reported a code outside the API's list.
    Unknown(u32),
}

/// The error code each numeric value of the API stands for.
pub open spec fn spec_error_code(code: u32) -> McdErrorCode {
    match code {
        0u32 => McdErrorCode::McdErrNone,
        256u32 => McdErrorCode::McdErrFnUnimplemented,
        257u32 => McdErrorCode::McdErrUsage,
        258u32 => McdErrorCode::McdErrParam,
        512u32 => McdErrorCode::McdErrConnection,
        513u32 => McdErrorCode::McdErrTimedOut,
        3840u32 => McdErrorCode::McdErrGeneral,
        4096u32 => McdErrorCode::McdErrResultTooLong,
        4352u32 => McdErrorCode::McdErrCouldNotStartServer,
        4353u32 => McdErrorCode::McdErrServerLocked,
        5121u32 => McdErrorCode::McdErrNoMemSpaces,
        5122u32 => McdErrorCode::McdErrNoMemBlocks,
        5136u32 => McdErrorCode::McdErrMemSpaceId,
        5184u32 => McdErrorCode::McdErrNoRegGroups,
        5185u32 => McdErrorCode::McdErrRegGroupId,
        5186u32 => McdErrorCode::McdErrRegNotCompound,
        5376u32 => McdErrorCode::McdErrOverlays,
        6400u32 => McdErrorCode::McdErrDeviceAccess,
        6401u32 => McdErrorCode::McdErrDeviceLocked,
        8448u32 => McdErrorCode::McdErrTxlistRead,
        8449u32 => McdErrorCode::McdErrTxlistWrite,
        8450u32 => McdErrorCode::McdErrTxlistTx,
        12544u32 => McdErrorCode::McdErrChlTypeNotSupported,
        12545u32 => McdErrorCode::McdErrChlTargetNotSupported,
        12546u32 => McdErrorCode::McdErrChlSetup,
        12608u32 => McdErrorCode::McdErrChlMessageFailed,
        12800u32 => McdErrorCode::McdErrTrigCreate,
        12801u32 => McdErrorCode::McdErrTrigAccess,
        _ => McdErrorCode::Unknown(code),
    }
}

impl McdErrorCode {
    /// Decode a numeric error code of the probe library.
    pub fn from_code(code: u32) -> (r: Self)
        ensures
            r == spec_error_code(code),
    {
        match code {
            0 => Self::McdErrNone,
            256 => Self::McdErrFnUnimplemented,
            257 => Self::McdErrUsage,
            258 => Self::McdErrParam,
            512 => Self::McdErrConnection,
            513 => Self::McdErrTimedOut,
            3840 => Self::McdErrGeneral,
            4096 => Self::McdErrResultTooLong,
            4352 => Self::McdErrCouldNotStartServer,
            4353 => Self::McdErrServerLocked,
            5121 => Self::McdErrNoMemSpaces,
            5122 => Self::McdErrNoMemBlocks,
            5136 => Self::McdErrMemSpaceId,
            5184 => Self::McdErrNoRegGroups,
            5185 => Self::McdErrRegGroupId,
            5186 => Self::McdErrRegNotCompound,
            5376 => Self::McdErrOverlays,
            6400 => Self::McdErrDeviceAccess,
            6401 => Self::McdErrDeviceLocked,
            8448 => Self::McdErrTxlistRead,
            8449 => Self::McdErrTxlistWrite,
            8450 => Self::McdErrTxlistTx,
            12544 => Self::McdErrChlTypeNotSupported,
            12545 => Self::McdErrChlTargetNotSupported,
            12546 => Self::McdErrChlSetup,
            12608 => Self::McdErrChlMessageFailed,
            12800 => Self::McdErrTrigCreate,
            12801 => Self::McdErrTrigAccess,
            code => Self::Unknown(code),
        }
    }
}

/// Action classes a probe call can demand of its caller instead of
/// succeeding.
#[derive(Debug, Clone, Copy, PartialEq, Eq, Structural)]
pub enum McdReturnError {
    /// Try to call the function again.
    TryAgain,
    /// Handle the event or events.
    HandleEvent,
    /// Handle the error.
    HandleError,
    /// Action reserved for future API use.
    Reserved(u32),
    /// Range for user-defined actions.
    Custom(u32),
}

} // verus!
