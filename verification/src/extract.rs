//! The log-extraction session: one state machine from reset to backtrace.
//!
//! The extractor decides every step of the session — which core to reset,
//! which addresses to read and write, when to poll, when the session is
//! over — while the application merely performs each returned action
//! against the debug probe and feeds the outcome back in as the next
//! event.  All protocol decisions (control-block validation, wrap-aware
//! draining, halt detection, round-robin across cores) are made here.

use vstd::bytes::spec_u32_from_le_bytes;
use vstd::bytes::spec_u32_to_le_bytes;
use vstd::bytes::u32_from_le_bytes;
use vstd::bytes::u32_to_le_bytes;
use vstd::prelude::*;

use crate::drain::spec_drain_plan;
use crate::drain::BufferParameters;
use crate::drain::DrainPlan;
use crate::drain::ReadRequest;
use crate::drain::RingBufferReader;
use crate::mcd::CoreState;
use crate::mcd::TriggerType;
use crate::rtt::RttControlBlock;
use crate::rtt::DESCRIPTOR_OFFSET;
use crate::rtt::FLAGS_OFFSET;
use crate::rtt::HOST_ATTACHED_FLAG;
use crate::rtt::READ_INDEX_OFFSET;
use crate::rtt::WRITE_INDEX_OFFSET;
use crate::stacktrace::Stacktrace;
use crate::ProbeError;
use crate::ProtocolViolation;

verus! {

/// What happened since the last step: the outcome of the action the
/// extractor asked for.
#[derive(Debug)]
pub enum Event {
    /// The session is being started; no action preceded this.
    Started,
    /// The requested action completed and carries no data.
    Done,
    /// The requested memory read completed with these bytes.
    BytesRead(Vec<u8>),
    /// The requested state query answered with this core state.
    State(CoreState),
    /// The requested state query hit a tolerated event class; no answer.
    StateTolerated,
    /// The requested unwind produced this backtrace.
    Backtrace(Stacktrace),
}

/// The next probe operation the application has to perform.
///
/// Core 0 is the primary core; cores 1 and up are the secondary cores.
#[derive(Debug)]
pub enum ProbeAction {
    /// Reset the primary core with the default reset class, halting it
    /// after the reset.
    ResetPrimary,
    /// Reset the given secondary core (halt after reset) and arm its
    /// trigger set.
    ResetSecondary { index: usize },
    /// Create a trigger of the given kind over `size` bytes at `address`
    /// on the primary core, arm it, and resume the core.
    ArmWriteTrigger { trigger: TriggerType, address: u64, size: u64 },
    /// Read `length` bytes of target memory through the given core.
    Read { core: usize, address: u64, length: u32 },
    /// Write the bytes to target memory through the given core.
    Write { core: usize, address: u64, bytes: Vec<u8> },
    /// Remove the write trigger and resume the primary core.
    DetachAndRun,
    /// Query the run state of the given core, tolerating a reset event
    /// where asked to.
    Query { core: usize, tolerate_reset: bool },
    /// Append the bytes to the log sink and flush it.
    Publish { bytes: Vec<u8> },
    /// Hold on for the post-halt grace delay before the final drain of the
    /// given core.
    Wait { core: usize },
    /// Walk the CSA chain of the given halted core.
    Unwind { core: usize },
}

/// Why the extraction loop ended.
#[derive(Debug)]
pub enum HaltReason {
    /// A core halted; its reconstructed backtrace.
    DebugHit(Stacktrace),
}

/// The outcome of one step: another action to perform, or the finished
/// session's result.
#[derive(Debug)]
pub enum Step {
    Continue(ProbeAction),
    Finished(HaltReason),
}

/// Where in the session the extractor stands.
#[derive(Debug)]
pub enum Phase {
    /// Nothing happened yet.
    Idle,
    /// The primary core is being reset.
    ResettingPrimary,
    /// Secondary core `next` is being reset and armed.
    ResettingSecondaries { next: usize },
    /// The write trigger is being created and the primary core resumed.
    Arming,
    /// Polling until the write trigger halts the primary core.
    AwaitingTrigger,
    /// The 16 id bytes of the control block are being read.
    CheckingId,
    /// The host-attached flag is being written.
    Attaching,
    /// The 8-byte buffer descriptor is being read.
    ReadingDescriptor,
    /// The trigger is being removed and the primary core resumed.
    Detaching,
    /// The device write index is being read through `core`.
    ReadingWriteIndex { core: usize, unwind_after: bool },
    /// A planned chunk of `expected` bytes is being read through `core`;
    /// `rest` is the still-unread chunk of a wrapped plan and `collected`
    /// what earlier chunks of this drain already yielded.
    ReadingChunk {
        core: usize,
        write_index: u32,
        expected: u32,
        rest: Option<ReadRequest>,
        collected: Vec<u8>,
        unwind_after: bool,
    },
    /// The advanced read index is being written back; `data` waits for the
    /// sink.
    WritingIndex { core: usize, data: Vec<u8>, unwind_after: bool },
    /// The drained bytes are being appended to the sink.
    Publishing { core: usize, unwind_after: bool },
    /// The run state of `core` is being queried.
    Polling { core: usize },
    /// The grace delay after the halt of `core` is running.
    Waiting { core: usize },
    /// The CSA chain of `core` is being walked.
    Unwinding { core: usize },
    /// The session is over.
    Done,
}

/// The extraction session state machine.
pub struct Extractor {
    /// Field addresses of the control block.
    pub block: RttControlBlock,
    /// How many secondary cores take part (cores 1 ..= secondary_count).
    pub secondary_count: usize,
    /// The drain state: buffer descriptor and acknowledged read index.
    pub reader: RingBufferReader,
    /// Current position in the session.
    pub phase: Phase,
}

impl Extractor {
    /// The machine's invariant: addresses stay in bounds, the drain state
    /// is well formed, and every phase refers to an existing core and a
    /// write index the buffer can hold.
    pub open spec fn wf(&self) -> bool {
        &&& self.block.in_bounds()
        &&& self.reader.wf()
        &&& match self.phase {
            Phase::ResettingSecondaries { next } => 1 <= next <= self.secondary_count,
            Phase::ReadingWriteIndex { core, .. } => core <= self.secondary_count,
            Phase::ReadingChunk { core, write_index, .. } => core <= self.secondary_count
                && write_index <= self.reader.buffer.size,
            Phase::WritingIndex { core, .. } => core <= self.secondary_count,
            Phase::Publishing { core, .. } => core <= self.secondary_count,
            Phase::Polling { core } => core <= self.secondary_count,
            Phase::Waiting { core } => core <= self.secondary_count,
            Phase::Unwinding { core } => core <= self.secondary_count,
            _ => true,
        }
    }

    /// Which event shape the current phase is waiting for.
    pub open spec fn spec_event_fits(&self, event: Event) -> bool {
        match self.phase {
            Phase::Idle => event is Started,
            Phase::ResettingPrimary => event is Done,
            Phase::ResettingSecondaries { .. } => event is Done,
            Phase::Arming => event is Done,
            Phase::AwaitingTrigger => event is State,
            Phase::CheckingId => event matches Event::BytesRead(b) && b@.len() == 16,
            Phase::Attaching => event is Done,
            Phase::ReadingDescriptor => event matches Event::BytesRead(b) && b@.len() == 8,
            Phase::Detaching => event is Done,
            Phase::ReadingWriteIndex { .. } => event matches Event::BytesRead(b) && b@.len() == 4,
            Phase::ReadingChunk { expected, .. } => event matches Event::BytesRead(b) && b@.len()
                == expected,
            Phase::WritingIndex { .. } => event is Done,
            Phase::Publishing { .. } => event is Done,
            Phase::Polling { core } => event is State || (core != 0 && event is StateTolerated),
            Phase::Waiting { .. } => event is Done,
            Phase::Unwinding { .. } => event is Backtrace,
            Phase::Done => false,
        }
    }

    /// A fresh session for a control block at the given address, driving
    /// one primary and `secondary_count` secondary cores.
    pub fn new(control_block_address: u64, secondary_count: usize) -> (r: Extractor)
        requires
            control_block_address + FLAGS_OFFSET + 4 <= u64::MAX,
        ensures
            r.wf(),
            r.phase is Idle,
            r.block.base_address == control_block_address,
            r.secondary_count == secondary_count,
            r.reader.read_index == 0,
    {
        Extractor {
            block: RttControlBlock::new(control_block_address),
            secondary_count,
            reader: RingBufferReader::new(BufferParameters { address: 0, size: 0 }),
            phase: Phase::Idle,
        }
    }

    /// Feed the outcome of the last action in; get the next action out.
    ///
    /// The session fails only on the two protocol violations: a malformed
    /// control block id, and a write index beyond the buffer size (a
    /// descriptor whose buffer does not fit the 32-bit address space is
    /// rejected the same way).  Probe failures never reach this function;
    /// the application aborts the session itself when an action fails.
    #[verifier::rlimit(100)]
    pub fn step(&mut self, event: Event) -> (r: Result<Step, ProbeError>)
        requires
            old(self).wf(),
            old(self).spec_event_fits(event),
        ensures
            final(self).wf(),
            final(self).block == old(self).block,
            final(self).secondary_count == old(self).secondary_count,
            old(self).phase is Idle ==> {
                &&& r matches Ok(Step::Continue(ProbeAction::ResetPrimary))
                &&& final(self).phase is ResettingPrimary
                &&& final(self).reader == old(self).reader
            },
            old(self).phase is ResettingPrimary ==> {
                &&& final(self).reader == old(self).reader
                &&& if old(self).secondary_count == 0 {
                    &&& r matches Ok(
                        Step::Continue(ProbeAction::ArmWriteTrigger { trigger, address, size }),
                    ) && trigger is RW && address == old(self).block.base_address
                        + WRITE_INDEX_OFFSET && size == 4
                    &&& final(self).phase is Arming
                } else {
                    &&& r matches Ok(Step::Continue(ProbeAction::ResetSecondary { index }))
                        && index == 1
                    &&& final(self).phase matches Phase::ResettingSecondaries { next } && next == 1
                }
            },
            old(self).phase matches Phase::ResettingSecondaries { next } ==> {
                &&& final(self).reader == old(self).reader
                &&& if next < old(self).secondary_count {
                    &&& r matches Ok(Step::Continue(ProbeAction::ResetSecondary { index }))
                        && index == next + 1
                    &&& final(self).phase matches Phase::ResettingSecondaries { next: n2 }
                        && n2 == next + 1
                } else {
                    &&& r matches Ok(
                        Step::Continue(ProbeAction::ArmWriteTrigger { trigger, address, size }),
                    ) && trigger is RW && address == old(self).block.base_address
                        + WRITE_INDEX_OFFSET && size == 4
                    &&& final(self).phase is Arming
                }
            },
            old(self).phase is Arming ==> {
                &&& final(self).reader == old(self).reader
                &&& r matches Ok(Step::Continue(ProbeAction::Query { core, tolerate_reset }))
                    && core == 0 && !tolerate_reset
                &&& final(self).phase is AwaitingTrigger
            },
            old(self).phase is AwaitingTrigger ==> {
                &&& final(self).reader == old(self).reader
                &&& if event matches Event::State(s) && s is Running {
                    r matches Ok(Step::Continue(ProbeAction::Query { core, tolerate_reset }))
                        && core == 0 && !tolerate_reset
                        && final(self).phase is AwaitingTrigger
                } else {
                    r matches Ok(Step::Continue(ProbeAction::Read { core, address, length }))
                        && core == 0 && address == old(self).block.base_address && length == 16
                        && final(self).phase is CheckingId
                }
            },
            old(self).phase is CheckingId ==> {
                &&& final(self).reader == old(self).reader
                &&& event matches Event::BytesRead(b)
                &&& if b@ == crate::rtt::spec_id_tag() {
                    r matches Ok(Step::Continue(ProbeAction::Write { core, address, bytes }))
                        && core == 0
                        && address == old(self).block.base_address + FLAGS_OFFSET
                        && bytes@ == spec_u32_to_le_bytes(HOST_ATTACHED_FLAG)
                        && final(self).phase is Attaching
                } else {
                    r == Err::<Step, ProbeError>(
                        ProbeError::Protocol(ProtocolViolation::MalformedControlBlock),
                    ) && final(self).phase is Done
                }
            },
            old(self).phase is Attaching ==> {
                &&& final(self).reader == old(self).reader
                &&& r matches Ok(Step::Continue(ProbeAction::Read { core, address, length }))
                    && core == 0
                    && address == old(self).block.base_address + DESCRIPTOR_OFFSET
                    && length == 8
                &&& final(self).phase is ReadingDescriptor
            },
            old(self).phase is ReadingDescriptor ==> {
                &&& event matches Event::BytesRead(b)
                &&& {
                    let address = spec_u32_from_le_bytes(b@.subrange(0, 4));
                    let size = spec_u32_from_le_bytes(b@.subrange(4, 8));
                    if address + size <= u32::MAX {
                        &&& r matches Ok(Step::Continue(ProbeAction::DetachAndRun))
                        &&& final(self).phase is Detaching
                        &&& final(self).reader.buffer == (BufferParameters { address, size })
                        &&& final(self).reader.read_index == 0
                    } else {
                        &&& r == Err::<Step, ProbeError>(
                            ProbeError::Protocol(ProtocolViolation::BufferDescriptorTooLarge),
                        )
                        &&& final(self).phase is Done
                        &&& final(self).reader == old(self).reader
                    }
                }
            },
            old(self).phase is Detaching ==> {
                &&& final(self).reader == old(self).reader
                &&& r matches Ok(Step::Continue(ProbeAction::Read { core, address, length }))
                    && core == 0
                    && address == old(self).block.base_address + WRITE_INDEX_OFFSET
                    && length == 4
                &&& final(self).phase matches Phase::ReadingWriteIndex { core: c, unwind_after }
                    && c == 0 && !unwind_after
            },
            old(self).phase matches Phase::ReadingWriteIndex { core, unwind_after } ==> {
                &&& event matches Event::BytesRead(b)
                &&& {
                    let w = spec_u32_from_le_bytes(b@);
                    match spec_drain_plan(old(self).reader.read_index, w, old(self).reader.buffer) {
                        Result::<DrainPlan, ProbeError>::Err(e) => r == Err::<Step, ProbeError>(e)
                            && final(self).phase is Done
                            && final(self).reader == old(self).reader,
                        Result::<DrainPlan, ProbeError>::Ok(plan) => {
                            &&& final(self).reader == old(self).reader
                            &&& match plan {
                                DrainPlan::UpToDate => if unwind_after {
                                    &&& r matches Ok(
                                        Step::Continue(ProbeAction::Unwind { core: c }),
                                    ) && c == core
                                    &&& final(self).phase matches Phase::Unwinding { core: c2 }
                                        && c2 == core
                                } else {
                                    &&& r matches Ok(
                                        Step::Continue(ProbeAction::Query { core: c, tolerate_reset }),
                                    ) && c == core && tolerate_reset == (core != 0)
                                    &&& final(self).phase matches Phase::Polling { core: c2 }
                                        && c2 == core
                                },
                                DrainPlan::Contiguous { chunk } => {
                                    &&& r matches Ok(
                                        Step::Continue(ProbeAction::Read { core: c, address, length }),
                                    ) && c == core && address == chunk.address
                                        && length == chunk.length
                                    &&& final(self).phase matches Phase::ReadingChunk {
                                        core: c2,
                                        write_index,
                                        expected,
                                        rest,
                                        collected,
                                        unwind_after: u2,
                                    } && c2 == core && write_index == w && expected == chunk.length
                                        && rest is None && collected@ == Seq::<u8>::empty()
                                        && u2 == unwind_after
                                },
                                DrainPlan::Wrapped { end_chunk, start_chunk } => {
                                    &&& r matches Ok(
                                        Step::Continue(ProbeAction::Read { core: c, address, length }),
                                    ) && c == core && address == end_chunk.address
                                        && length == end_chunk.length
                                    &&& final(self).phase matches Phase::ReadingChunk {
                                        core: c2,
                                        write_index,
                                        expected,
                                        rest,
                                        collected,
                                        unwind_after: u2,
                                    } && c2 == core && write_index == w
                                        && expected == end_chunk.length && rest == start_chunk
                                        && collected@ == Seq::<u8>::empty() && u2 == unwind_after
                                },
                            }
                        },
                    }
                }
            },
            old(self).phase matches Phase::ReadingChunk {
                core,
                write_index,
                expected,
                rest,
                collected,
                unwind_after,
            } ==> {
                &&& event matches Event::BytesRead(b)
                &&& match rest {
                    Option::<ReadRequest>::Some(req) => {
                        &&& r matches Ok(
                            Step::Continue(ProbeAction::Read { core: c, address, length }),
                        ) && c == core && address == req.address && length == req.length
                        &&& final(self).phase matches Phase::ReadingChunk {
                            core: c2,
                            write_index: w2,
                            expected: e2,
                            rest: rest2,
                            collected: col2,
                            unwind_after: u2,
                        } && c2 == core && w2 == write_index && e2 == req.length && rest2 is None
                            && col2@ == b@ && u2 == unwind_after
                        &&& final(self).reader == old(self).reader
                    },
                    Option::<ReadRequest>::None => {
                        &&& r matches Ok(
                            Step::Continue(ProbeAction::Write { core: c, address, bytes }),
                        ) && c == core
                            && address == old(self).block.base_address + READ_INDEX_OFFSET
                            && bytes@ == spec_u32_to_le_bytes(write_index)
                        &&& final(self).phase matches Phase::WritingIndex {
                            core: c2,
                            data,
                            unwind_after: u2,
                        } && c2 == core && data@ == collected@ + b@ && u2 == unwind_after
                        &&& final(self).reader.buffer == old(self).reader.buffer
                        &&& final(self).reader.read_index == write_index
                    },
                }
            },
            old(self).phase matches Phase::WritingIndex { core, data, unwind_after } ==> {
                &&& final(self).reader == old(self).reader
                &&& r matches Ok(Step::Continue(ProbeAction::Publish { bytes })) && bytes@ == data@
                &&& final(self).phase matches Phase::Publishing { core: c2, unwind_after: u2 }
                    && c2 == core && u2 == unwind_after
            },
            old(self).phase matches Phase::Publishing { core, unwind_after } ==> {
                &&& final(self).reader == old(self).reader
                &&& if unwind_after {
                    &&& r matches Ok(Step::Continue(ProbeAction::Unwind { core: c })) && c == core
                    &&& final(self).phase matches Phase::Unwinding { core: c2 } && c2 == core
                } else {
                    &&& r matches Ok(Step::Continue(ProbeAction::Query { core: c, tolerate_reset }))
                        && c == core && tolerate_reset == (core != 0)
                    &&& final(self).phase matches Phase::Polling { core: c2 } && c2 == core
                }
            },
            old(self).phase matches Phase::Polling { core } ==> {
                &&& final(self).reader == old(self).reader
                &&& if event matches Event::State(s) && !(s is Running) {
                    &&& r matches Ok(Step::Continue(ProbeAction::Wait { core: c })) && c == core
                    &&& final(self).phase matches Phase::Waiting { core: c2 } && c2 == core
                } else {
                    let next = if core < old(self).secondary_count {
                        (core + 1) as usize
                    } else {
                        0
                    };
                    &&& r matches Ok(Step::Continue(ProbeAction::Read { core: c, address, length }))
                        && c == next
                        && address == old(self).block.base_address + WRITE_INDEX_OFFSET
                        && length == 4
                    &&& final(self).phase matches Phase::ReadingWriteIndex {
                        core: c2,
                        unwind_after,
                    } && c2 == next && !unwind_after
                }
            },
            old(self).phase matches Phase::Waiting { core } ==> {
                &&& final(self).reader == old(self).reader
                &&& r matches Ok(Step::Continue(ProbeAction::Read { core: c, address, length }))
                    && c == core
                    && address == old(self).block.base_address + WRITE_INDEX_OFFSET
                    && length == 4
                &&& final(self).phase matches Phase::ReadingWriteIndex { core: c2, unwind_after }
                    && c2 == core && unwind_after
            },
            old(self).phase matches Phase::Unwinding { core } ==> {
                &&& final(self).reader == old(self).reader
                &&& event matches Event::Backtrace(t)
                &&& r matches Ok(Step::Finished(HaltReason::DebugHit(t2))) && t2 == t
                &&& final(self).phase is Done
            },
    {
        let mut phase = Phase::Done;
        core::mem::swap(&mut self.phase, &mut phase);
        match phase {
            Phase::Idle => {
                self.phase = Phase::ResettingPrimary;
                Ok(Step::Continue(ProbeAction::ResetPrimary))
            },
            Phase::ResettingPrimary => {
                if self.secondary_count == 0 {
                    self.phase = Phase::Arming;
                    Ok(
                        Step::Continue(
                            ProbeAction::ArmWriteTrigger {
                                trigger: TriggerType::RW,
                                address: self.block.device_write_index_addr(),
                                size: 4,
                            },
                        ),
                    )
                } else {
                    self.phase = Phase::ResettingSecondaries { next: 1 };
                    Ok(Step::Continue(ProbeAction::ResetSecondary { index: 1 }))
                }
            },
            Phase::ResettingSecondaries { next } => {
                if next < self.secondary_count {
                    self.phase = Phase::ResettingSecondaries { next: next + 1 };
                    Ok(Step::Continue(ProbeAction::ResetSecondary { index: next + 1 }))
                } else {
                    self.phase = Phase::Arming;
                    Ok(
                        Step::Continue(
                            ProbeAction::ArmWriteTrigger {
                                trigger: TriggerType::RW,
                                address: self.block.device_write_index_addr(),
                                size: 4,
                            },
                        ),
                    )
                }
            },
            Phase::Arming => {
                self.phase = Phase::AwaitingTrigger;
                Ok(Step::Continue(ProbeAction::Query { core: 0, tolerate_reset: false }))
            },
            Phase::AwaitingTrigger => {
                let running = match event {
                    Event::State(s) => match s {
                        CoreState::Running => true,
                        _ => false,
                    },
                    _ => false,
                };
                if running {
                    self.phase = Phase::AwaitingTrigger;
                    Ok(Step::Continue(ProbeAction::Query { core: 0, tolerate_reset: false }))
                } else {
                    self.phase = Phase::CheckingId;
                    Ok(
                        Step::Continue(
                            ProbeAction::Read { core: 0, address: self.block.id_addr(), length: 16 },
                        ),
                    )
                }
            },
            Phase::CheckingId => {
                let b = match event {
                    Event::BytesRead(b) => b,
                    _ => unreached(),
                };
                if crate::rtt::id_matches(&b) {
                    self.phase = Phase::Attaching;
                    Ok(
                        Step::Continue(
                            ProbeAction::Write {
                                core: 0,
                                address: self.block.flags_addr(),
                                bytes: u32_to_le_bytes(HOST_ATTACHED_FLAG),
                            },
                        ),
                    )
                } else {
                    self.phase = Phase::Done;
                    Err(ProbeError::Protocol(ProtocolViolation::MalformedControlBlock))
                }
            },
            Phase::Attaching => {
                self.phase = Phase::ReadingDescriptor;
                Ok(
                    Step::Continue(
                        ProbeAction::Read {
                            core: 0,
                            address: self.block.buffer_addr_and_size(),
                            length: 8,
                        },
                    ),
                )
            },
            Phase::ReadingDescriptor => {
                let b = match event {
                    Event::BytesRead(b) => b,
                    _ => unreached(),
                };
                let params = BufferParameters::from_bytes(&b);
                if params.size <= u32::MAX - params.address {
                    self.reader = RingBufferReader::new(params);
                    self.phase = Phase::Detaching;
                    Ok(Step::Continue(ProbeAction::DetachAndRun))
                } else {
                    self.phase = Phase::Done;
                    Err(ProbeError::Protocol(ProtocolViolation::BufferDescriptorTooLarge))
                }
            },
            Phase::Detaching => {
                self.phase = Phase::ReadingWriteIndex { core: 0, unwind_after: false };
                Ok(
                    Step::Continue(
                        ProbeAction::Read {
                            core: 0,
                            address: self.block.device_write_index_addr(),
                            length: 4,
                        },
                    ),
                )
            },
            Phase::ReadingWriteIndex { core, unwind_after } => {
                let b = match event {
                    Event::BytesRead(b) => b,
                    _ => unreached(),
                };
                let w = u32_from_le_bytes(b.as_slice());
                match self.reader.plan(w) {
                    Err(e) => {
                        self.phase = Phase::Done;
                        Err(e)
                    },
                    Ok(DrainPlan::UpToDate) => self.after_drain(core, unwind_after),
                    Ok(DrainPlan::Contiguous { chunk }) => {
                        self.phase = Phase::ReadingChunk {
                            core,
                            write_index: w,
                            expected: chunk.length,
                            rest: None,
                            collected: Vec::new(),
                            unwind_after,
                        };
                        Ok(
                            Step::Continue(
                                ProbeAction::Read {
                                    core,
                                    address: chunk.address,
                                    length: chunk.length,
                                },
                            ),
                        )
                    },
                    Ok(DrainPlan::Wrapped { end_chunk, start_chunk }) => {
                        self.phase = Phase::ReadingChunk {
                            core,
                            write_index: w,
                            expected: end_chunk.length,
                            rest: start_chunk,
                            collected: Vec::new(),
                            unwind_after,
                        };
                        Ok(
                            Step::Continue(
                                ProbeAction::Read {
                                    core,
                                    address: end_chunk.address,
                                    length: end_chunk.length,
                                },
                            ),
                        )
                    },
                }
            },
            Phase::ReadingChunk { core, write_index, expected: _, rest, collected, unwind_after } => {
                let mut b = match event {
                    Event::BytesRead(b) => b,
                    _ => unreached(),
                };
                match rest {
                    Some(req) => {
                        self.phase = Phase::ReadingChunk {
                            core,
                            write_index,
                            expected: req.length,
                            rest: None,
                            collected: b,
                            unwind_after,
                        };
                        Ok(
                            Step::Continue(
                                ProbeAction::Read { core, address: req.address, length: req.length },
                            ),
                        )
                    },
                    None => {
                        let mut data = collected;
                        data.append(&mut b);
                        self.reader.commit(write_index);
                        self.phase = Phase::WritingIndex { core, data, unwind_after };
                        Ok(
                            Step::Continue(
                                ProbeAction::Write {
                                    core,
                                    address: self.block.host_read_index_addr(),
                                    bytes: u32_to_le_bytes(write_index),
                                },
                            ),
                        )
                    },
                }
            },
            Phase::WritingIndex { core, data, unwind_after } => {
                self.phase = Phase::Publishing { core, unwind_after };
                Ok(Step::Continue(ProbeAction::Publish { bytes: data }))
            },
            Phase::Publishing { core, unwind_after } => self.after_drain(core, unwind_after),
            Phase::Polling { core } => {
                let halted = match event {
                    Event::State(s) => match s {
                        CoreState::Running => false,
                        _ => true,
                    },
                    _ => false,
                };
                if halted {
                    self.phase = Phase::Waiting { core };
                    Ok(Step::Continue(ProbeAction::Wait { core }))
                } else {
                    let next = if core < self.secondary_count {
                        core + 1
                    } else {
                        0
                    };
                    self.phase = Phase::ReadingWriteIndex { core: next, unwind_after: false };
                    Ok(
                        Step::Continue(
                            ProbeAction::Read {
                                core: next,
                                address: self.block.device_write_index_addr(),
                                length: 4,
                            },
                        ),
                    )
                }
            },
            Phase::Waiting { core } => {
                self.phase = Phase::ReadingWriteIndex { core, unwind_after: true };
                Ok(
                    Step::Continue(
                        ProbeAction::Read {
                            core,
                            address: self.block.device_write_index_addr(),
                            length: 4,
                        },
                    ),
                )
            },
            Phase::Unwinding { core: _ } => {
                let t = match event {
                    Event::Backtrace(t) => t,
                    _ => unreached(),
                };
                self.phase = Phase::Done;
                Ok(Step::Finished(HaltReason::DebugHit(t)))
            },
            Phase::Done => unreached(),
        }
    }

    /// After a completed drain of `core`: unwind where the halt was already
    /// seen, else poll the core's run state.
    fn after_drain(&mut self, core: usize, unwind_after: bool) -> (r: Result<Step, ProbeError>)
        requires
            old(self).wf(),
            core <= old(self).secondary_count,
        ensures
            final(self).wf(),
            final(self).block == old(self).block,
            final(self).secondary_count == old(self).secondary_count,
            final(self).reader == old(self).reader,
            unwind_after ==> {
                &&& r matches Ok(Step::Continue(ProbeAction::Unwind { core: c })) && c == core
                &&& final(self).phase matches Phase::Unwinding { core: c2 } && c2 == core
            },
            !unwind_after ==> {
                &&& r matches Ok(Step::Continue(ProbeAction::Query { core: c, tolerate_reset }))
                    && c == core && tolerate_reset == (core != 0)
                &&& final(self).phase matches Phase::Polling { core: c2 } && c2 == core
            },
    {
        if unwind_after {
            self.phase = Phase::Unwinding { core };
            Ok(Step::Continue(ProbeAction::Unwind { core }))
        } else {
            self.phase = Phase::Polling { core };
            Ok(Step::Continue(ProbeAction::Query { core, tolerate_reset: core != 0 }))
        }
    }
}

} // verus!
