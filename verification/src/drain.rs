//! Wrap-aware draining of the RTT ring buffer.
//!
//! One drain step compares the device write index against the host read
//! index and turns the difference into at most two contiguous target-memory
//! reads.  The logic is pure: it plans reads and accounts for the new read
//! index; the surrounding application issues the reads.

use vstd::prelude::*;

use crate::ProbeError;
use crate::ProtocolViolation;

verus! {

/// The ring-buffer descriptor: where the buffer starts and how long it is.
///
/// Read once per session from the control block and fixed thereafter.
#[derive(Debug, Clone, Copy, PartialEq, Eq, Structural)]
pub struct BufferParameters {
    /// Target address where the ring buffer starts.
    pub address: u32,
    /// Size of the ring buffer in bytes.
    pub size: u32,
}

impl BufferParameters {
    /// The whole buffer stays inside the 32-bit target address space.
    pub open spec fn wf(&self) -> bool {
        self.address + self.size <= u32::MAX
    }

    /// Decode the 8-byte descriptor: 4-byte start address, then 4-byte size,
    /// both little-endian.
    pub fn from_bytes(bytes: &Vec<u8>) -> (r: Self)
        requires
            bytes@.len() == 8,
        ensures
            r.address == vstd::bytes::spec_u32_from_le_bytes(bytes@.subrange(0, 4)),
            r.size == vstd::bytes::spec_u32_from_le_bytes(bytes@.subrange(4, 8)),
    {
        let address = vstd::bytes::u32_from_le_bytes(
            vstd::slice::slice_subrange(bytes.as_slice(), 0, 4),
        );
        let size = vstd::bytes::u32_from_le_bytes(
            vstd::slice::slice_subrange(bytes.as_slice(), 4, 8),
        );
        BufferParameters { address, size }
    }
}

/// One contiguous target-memory read.
#[derive(Debug, Clone, Copy, PartialEq, Eq, Structural)]
pub struct ReadRequest {
    /// Absolute target address where the read starts.
    pub address: u64,
    /// Number of bytes to read.
    pub length: u32,
}

/// What one drain step has to do.
#[derive(Debug, Clone, Copy, PartialEq, Eq)]
pub enum DrainPlan {
    /// The write index equals the read index: nothing new, no reads.
    UpToDate,
    /// New data in one contiguous range.
    Contiguous { chunk: ReadRequest },
    /// The writer wrapped: read the tail of the buffer first, then, where the
    /// write index is nonzero, the refilled head.
    Wrapped { end_chunk: ReadRequest, start_chunk: Option<ReadRequest> },
}

/// The reads a drain step issues for the given indices, or the protocol
/// violation it reports instead.
pub open spec fn spec_drain_plan(
    read_index: u32,
    write_index: u32,
    buffer: BufferParameters,
) -> Result<DrainPlan, ProbeError> {
    if write_index == read_index {
        Ok(DrainPlan::UpToDate)
    } else if write_index > buffer.size {
        Err(ProbeError::Protocol(ProtocolViolation::WriteIndexOutOfBounds))
    } else if write_index < read_index {
        Ok(
            DrainPlan::Wrapped {
                end_chunk: (ReadRequest {
                    address: (buffer.address + read_index) as u64,
                    length: (buffer.size - read_index) as u32,
                }),
                start_chunk: if write_index == 0 {
                    None
                } else {
                    Some(ReadRequest { address: buffer.address as u64, length: write_index })
                },
            },
        )
    } else {
        Ok(
            DrainPlan::Contiguous {
                chunk: (ReadRequest {
                    address: (buffer.address + read_index) as u64,
                    length: (write_index - read_index) as u32,
                }),
            },
        )
    }
}

/// Plan one drain step.
///
/// The plan is a pure function of the two indices and the fixed buffer
/// descriptor; committing the new read index is a separate step so that a
/// failed read leaves the state unchanged.
pub fn plan_drain(read_index: u32, write_index: u32, buffer: &BufferParameters) -> (r: Result<
    DrainPlan,
    ProbeError,
>)
    requires
        buffer.wf(),
        read_index <= buffer.size,
    ensures
        r == spec_drain_plan(read_index, write_index, *buffer),
{
    if write_index == read_index {
        Ok(DrainPlan::UpToDate)
    } else if write_index > buffer.size {
        Err(ProbeError::Protocol(ProtocolViolation::WriteIndexOutOfBounds))
    } else if write_index < read_index {
        let end_chunk = ReadRequest {
            address: buffer.address as u64 + read_index as u64,
            length: buffer.size - read_index,
        };
        let start_chunk = if write_index == 0 {
            None
        } else {
            Some(ReadRequest { address: buffer.address as u64, length: write_index })
        };
        Ok(DrainPlan::Wrapped { end_chunk, start_chunk })
    } else {
        let chunk = ReadRequest {
            address: buffer.address as u64 + read_index as u64,
            length: write_index - read_index,
        };
        Ok(DrainPlan::Contiguous { chunk })
    }
}

/// Host-side drain state: the fixed descriptor and the read index the host
/// has acknowledged so far.
#[derive(Debug, Clone, Copy, PartialEq, Eq, Structural)]
pub struct RingBufferReader {
    pub buffer: BufferParameters,
    pub read_index: u32,
}

impl RingBufferReader {
    /// The descriptor is well formed and the read index stays inside the
    /// buffer.
    pub open spec fn wf(&self) -> bool {
        self.buffer.wf() && self.read_index <= self.buffer.size
    }

    /// A fresh reader starts at read index 0.
    pub fn new(buffer: BufferParameters) -> (r: Self)
        requires
            buffer.wf(),
        ensures
            r.buffer == buffer,
            r.read_index == 0,
            r.wf(),
    {
        RingBufferReader { buffer, read_index: 0 }
    }

    /// Plan a drain step against the current read index.
    pub fn plan(&self, write_index: u32) -> (r: Result<DrainPlan, ProbeError>)
        requires
            self.wf(),
        ensures
            r == spec_drain_plan(self.read_index, write_index, self.buffer),
    {
        plan_drain(self.read_index, write_index, &self.buffer)
    }

    /// Acknowledge a completed drain: the read index catches up with the
    /// write index the plan was made for.
    pub fn commit(&mut self, write_index: u32)
        requires
            old(self).wf(),
            write_index <= old(self).buffer.size,
        ensures
            final(self).buffer == old(self).buffer,
            final(self).read_index == write_index,
            final(self).wf(),
    {
        self.read_index = write_index;
    }
}

/// How many bytes a plan reads in total.
pub open spec fn spec_plan_length(plan: DrainPlan) -> int {
    match plan {
        DrainPlan::UpToDate => 0,
        DrainPlan::Contiguous { chunk } => chunk.length as int,
        DrainPlan::Wrapped { end_chunk, start_chunk } => match start_chunk {
            None => end_chunk.length as int,
            Some(chunk) => end_chunk.length + chunk.length,
        },
    }
}

/// A drain step on equal indices is a no-op: no reads, no index change.
pub proof fn lemma_drain_no_new_data(read_index: u32, write_index: u32, buffer: BufferParameters)
    requires
        write_index == read_index,
    ensures
        spec_drain_plan(read_index, write_index, buffer) == Ok::<DrainPlan, ProbeError>(
            DrainPlan::UpToDate,
        ),
{
}

/// With `read_index <= write_index <= size` and fresh data, the drain step
/// issues exactly one contiguous read of length `write_index - read_index`.
pub proof fn lemma_drain_contiguous(read_index: u32, write_index: u32, buffer: BufferParameters)
    requires
        buffer.wf(),
        read_index < write_index <= buffer.size,
    ensures
        spec_drain_plan(read_index, write_index, buffer) matches Ok(plan)
            && plan matches DrainPlan::Contiguous { chunk }
            && chunk.address == buffer.address + read_index
            && chunk.length == write_index - read_index,
{
}

/// After a wrap (`write_index < read_index <= size`), the drain step issues
/// the end chunk first and then the start chunk, and the two together cover
/// `(size - read_index) + write_index` bytes.
pub proof fn lemma_drain_wrapped(read_index: u32, write_index: u32, buffer: BufferParameters)
    requires
        buffer.wf(),
        write_index < read_index <= buffer.size,
    ensures
        spec_drain_plan(read_index, write_index, buffer) matches Ok(plan)
            && plan matches DrainPlan::Wrapped { end_chunk, start_chunk }
            && end_chunk.address == buffer.address + read_index
            && (start_chunk matches Some(chunk) ==> chunk.address == buffer.address)
            && (start_chunk is Some <==> write_index != 0)
            && spec_plan_length(plan) == (buffer.size - read_index) + write_index,
{
}

/// A write index beyond the declared buffer size is a protocol violation:
/// the drain step fails and issues no reads.
pub proof fn lemma_drain_out_of_bounds(read_index: u32, write_index: u32, buffer: BufferParameters)
    requires
        read_index <= buffer.size,
        write_index > buffer.size,
    ensures
        spec_drain_plan(read_index, write_index, buffer) == Err::<DrainPlan, ProbeError>(
            ProbeError::Protocol(ProtocolViolation::WriteIndexOutOfBounds),
        ),
{
}

/// Draining is idempotent: once the read index has caught up with the write
/// index (as `commit` ensures after a successful drain), planning another
/// drain against the same write index is a no-op.
pub proof fn lemma_drain_idempotent(reader: RingBufferReader, write_index: u32)
    requires
        reader.read_index == write_index,
    ensures
        spec_drain_plan(reader.read_index, write_index, reader.buffer) == Ok::<
            DrainPlan,
            ProbeError,
        >(DrainPlan::UpToDate),
{
}

} // verus!
