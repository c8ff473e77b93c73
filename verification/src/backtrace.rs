//! Symbolized backtraces and trap classification.
//!
//! The application resolves each frame address to a function and module
//! name; this module assembles the resolved names with the stacktrace and
//! tags the frames that land inside the trap-vector window.

use vstd::prelude::*;

use crate::csa::SavedContext;
use crate::stacktrace::spec_frame_addresses;
use crate::stacktrace::Stacktrace;

verus! {

/// Width of the trap-vector window in bytes: eight classes of 32 bytes.
pub const TRAP_WINDOW: u32 = 256;

/// Bytes per trap class within the window.
pub const TRAP_CLASS_STRIDE: u32 = 32;

/// What is known about the trap-vector table of the loaded firmware.
#[derive(Debug, Clone, Copy, PartialEq, Eq)]
pub struct TrapMetadata {
    /// Base address of the trap table, where one was found.
    pub trap_symbol: Option<u32>,
}

/// The trap class of an address: addresses inside the 256-byte window above
/// the table base fall into classes of 32 bytes each; everything else, or
/// any address when no table is known, is not a trap.
pub open spec fn spec_trap_class(meta: TrapMetadata, address: u32) -> Option<u8> {
    match meta.trap_symbol {
        None => None,
        Some(base) => if base <= address < base + TRAP_WINDOW {
            Some(((address - base) / (TRAP_CLASS_STRIDE as int)) as u8)
        } else {
            None
        },
    }
}

impl TrapMetadata {
    /// Metadata from a resolved trap-table symbol.
    pub fn new(trap_symbol: Option<u32>) -> (r: Self)
        ensures
            r.trap_symbol == trap_symbol,
    {
        TrapMetadata { trap_symbol }
    }

    /// Creates an instance with no metadata associated to it.
    ///
    /// `trap_class` on such an instance always answers `None`.
    pub fn empty() -> (r: Self)
        ensures
            r.trap_symbol is None,
    {
        TrapMetadata { trap_symbol: None }
    }

    /// Attempt to identify the trap class of the given address, usually the
    /// program counter at the moment the trap was taken.
    pub fn trap_class(&self, address: u32) -> (r: Option<u8>)
        ensures
            r == spec_trap_class(*self, address),
    {
        match self.trap_symbol {
            None => None,
            Some(base) => {
                if base <= address && address - base < TRAP_WINDOW {
                    Some(((address - base) / TRAP_CLASS_STRIDE) as u8)
                } else {
                    None
                }
            },
        }
    }
}

/// A frame that hit the trap window: its class and the trap identifier the
/// firmware left in `d15`.
#[derive(Debug, Clone, Copy, PartialEq, Eq, Structural)]
pub struct TrapInfo {
    pub class: u8,
    pub trap_id: u8,
}

/// A frame address resolved to source-level names.
#[derive(Debug, Clone, PartialEq, Eq)]
pub struct AddressInfo {
    pub function: String,
    pub module: String,
}

impl AddressInfo {
    pub fn new(function: String, module: String) -> (r: Self)
        ensures
            r.function@ == function@,
            r.module@ == module@,
    {
        AddressInfo { function, module }
    }

    /// A copy with the same names.
    pub fn duplicate(&self) -> (r: Self)
        ensures
            r == *self,
    {
        AddressInfo { function: self.function.clone(), module: self.module.clone() }
    }
}

/// One line of a symbolized backtrace.
#[derive(Debug, Clone, PartialEq, Eq)]
pub struct StackFrameInfo {
    pub address: u32,
    pub is_trap: Option<TrapInfo>,
    pub info: AddressInfo,
}

/// The trap tag of the halt frame itself: classified by the program
/// counter, with the trap identifier taken from the live `d15` register.
pub open spec fn spec_current_trap(trace: Stacktrace, meta: TrapMetadata) -> Option<TrapInfo> {
    match spec_trap_class(meta, trace.current_pc) {
        None => None,
        Some(class) => Some(TrapInfo { class, trap_id: trace.current_upper.d15 as u8 }),
    }
}

/// The trap tag of a saved frame: only upper contexts carry the registers
/// to classify, by their stored call site `a11` and identifier `d15`.
pub open spec fn spec_saved_trap(ctx: SavedContext, meta: TrapMetadata) -> Option<TrapInfo> {
    match ctx {
        SavedContext::Upper(c) => match spec_trap_class(meta, c.a11) {
            None => None,
            Some(class) => Some(TrapInfo { class, trap_id: c.d15 as u8 }),
        },
        SavedContext::Lower(_) => None,
    }
}

/// A fully symbolized backtrace, one entry per reported address.
#[derive(Debug, Clone, PartialEq, Eq)]
pub struct BackTraceInfo {
    pub stack_frames: Vec<StackFrameInfo>,
}

impl BackTraceInfo {
    /// Combine a stacktrace with the resolved names of its addresses.
    ///
    /// `infos[i]` must describe the `i`-th address of
    /// [`spec_frame_addresses`]: the program counter, the current call
    /// site, then the saved frames' return addresses.
    pub fn assemble(trace: &Stacktrace, meta: &TrapMetadata, infos: &Vec<AddressInfo>) -> (r:
        BackTraceInfo)
        requires
            infos@.len() == trace.stack_frames@.len() + 2,
        ensures
            r.stack_frames@.len() == infos@.len(),
            forall|i: int|
                0 <= i < r.stack_frames@.len() ==> #[trigger] r.stack_frames@[i].address
                    == spec_frame_addresses(*trace)[i],
            forall|i: int| 0 <= i < r.stack_frames@.len() ==> #[trigger] r.stack_frames@[i].info
                == infos@[i],
            r.stack_frames@[0].is_trap == spec_current_trap(*trace, *meta),
            r.stack_frames@[1].is_trap is None,
            forall|i: int|
                2 <= i < r.stack_frames@.len() ==> #[trigger] r.stack_frames@[i].is_trap
                    == spec_saved_trap(trace.stack_frames@[i - 2], *meta),
    {
        let mut frames: Vec<StackFrameInfo> = Vec::new();
        let current_trap = match meta.trap_class(trace.current_pc) {
            None => None,
            Some(class) => Some(
                TrapInfo { class, trap_id: #[verifier::truncate] (trace.current_upper.d15 as u8) },
            ),
        };
        frames.push(
            StackFrameInfo {
                address: trace.current_pc,
                is_trap: current_trap,
                info: infos[0].duplicate(),
            },
        );
        frames.push(
            StackFrameInfo {
                address: trace.current_upper.a11,
                is_trap: None,
                info: infos[1].duplicate(),
            },
        );
        let total = infos.len();
        let mut i: usize = 0;
        while i < trace.stack_frames.len()
            invariant
                0 <= i <= trace.stack_frames@.len(),
                total == infos@.len(),
                infos@.len() == trace.stack_frames@.len() + 2,
                frames@.len() == 2 + i,
                frames@[0].address == trace.current_pc,
                frames@[0].is_trap == spec_current_trap(*trace, *meta),
                frames@[0].info == infos@[0],
                frames@[1].address == trace.current_upper.a11,
                frames@[1].is_trap is None,
                frames@[1].info == infos@[1],
                forall|j: int|
                    2 <= j < 2 + i ==> #[trigger] frames@[j].address
                        == crate::csa::spec_context_return_address(trace.stack_frames@[j - 2]),
                forall|j: int|
                    2 <= j < 2 + i ==> #[trigger] frames@[j].is_trap == spec_saved_trap(
                        trace.stack_frames@[j - 2],
                        *meta,
                    ),
                forall|j: int| 2 <= j < 2 + i ==> #[trigger] frames@[j].info == infos@[j],
            decreases trace.stack_frames@.len() - i,
        {
            let ctx = &trace.stack_frames[i];
            let is_trap = match ctx {
                SavedContext::Upper(c) => match meta.trap_class(c.a11) {
                    None => None,
                    Some(class) => Some(
                        TrapInfo { class, trap_id: #[verifier::truncate] (c.d15 as u8) },
                    ),
                },
                SavedContext::Lower(_) => None,
            };
            frames.push(
                StackFrameInfo { address: ctx.return_address(), is_trap, info: infos[i + 2].duplicate() },
            );
            i += 1;
        }
        BackTraceInfo { stack_frames: frames }
    }
}

} // verus!
