//! Layout of the RTT control block in target RAM.
//!
//! The control block sits at a caller-supplied base address; every field of
//! interest lives at a fixed byte offset from that base.  The ring buffer
//! itself is described by a descriptor (start address and size) read once per
//! session.

use vstd::prelude::*;

verus! {

/// Byte offset of the buffer descriptor (start address, then size).
pub const DESCRIPTOR_OFFSET: u64 = 28;

/// Byte offset of the device write index, advanced only by the target.
pub const WRITE_INDEX_OFFSET: u64 = 36;

/// Byte offset of the host read index, advanced only by the host.
pub const READ_INDEX_OFFSET: u64 = 40;

/// Byte offset of the control word holding the host-attached flag.
pub const FLAGS_OFFSET: u64 = 44;

/// Value of the flags word that signals "host attached".
pub const HOST_ATTACHED_FLAG: u32 = 2;

/// The 16 id bytes every valid control block starts with.
pub open spec fn spec_id_tag() -> Seq<u8> {
    seq![
        0x53u8, 0x45u8, 0x47u8, 0x47u8, 0x45u8, 0x52u8, 0x20u8, 0x52u8,
        0x54u8, 0x54u8, 0x00u8, 0x00u8, 0x00u8, 0x00u8, 0x00u8, 0x00u8,
    ]
}

/// Addresses of the fields of one RTT control block.
///
/// A control block is valid only where all its fields fit the 64-bit address
/// space, so every accessor requires `in_bounds`.
#[derive(Debug, Clone, Copy, PartialEq, Eq, Structural)]
pub struct RttControlBlock {
    pub base_address: u64,
}

impl RttControlBlock {
    /// All field offsets up to and including the flags word stay addressable.
    pub open spec fn in_bounds(&self) -> bool {
        self.base_address + FLAGS_OFFSET + 4 <= u64::MAX
    }

    pub fn new(address: u64) -> (r: Self)
        ensures
            r.base_address == address,
    {
        RttControlBlock { base_address: address }
    }

    /// Address of the 16 id bytes.
    pub fn id_addr(&self) -> (r: u64)
        ensures
            r == self.base_address,
    {
        self.base_address
    }

    /// Address of the 4-byte device write index.
    pub fn device_write_index_addr(&self) -> (r: u64)
        requires
            self.in_bounds(),
        ensures
            r == self.base_address + WRITE_INDEX_OFFSET,
    {
        self.base_address + WRITE_INDEX_OFFSET
    }

    /// Address of the 8-byte buffer descriptor.
    pub fn buffer_addr_and_size(&self) -> (r: u64)
        requires
            self.in_bounds(),
        ensures
            r == self.base_address + DESCRIPTOR_OFFSET,
    {
        self.base_address + DESCRIPTOR_OFFSET
    }

    /// Address of the 4-byte host read index.
    pub fn host_read_index_addr(&self) -> (r: u64)
        requires
            self.in_bounds(),
        ensures
            r == self.base_address + READ_INDEX_OFFSET,
    {
        self.base_address + READ_INDEX_OFFSET
    }

    /// Address of the 4-byte flags word.
    pub fn flags_addr(&self) -> (r: u64)
        requires
            self.in_bounds(),
        ensures
            r == self.base_address + FLAGS_OFFSET,
    {
        self.base_address + FLAGS_OFFSET
    }
}

/// True exactly when `data` holds the 16-byte id tag of a control block.
pub fn id_matches(data: &Vec<u8>) -> (r: bool)
    ensures
        r == (data@ == spec_id_tag()),
{
    let expected = id_tag();
    if data.len() != 16 {
        assert(data@.len() != spec_id_tag().len());
        return false;
    }
    let mut i: usize = 0;
    while i < 16
        invariant
            0 <= i <= 16,
            data@.len() == 16,
            expected@ == spec_id_tag(),
            forall|j: int| 0 <= j < i ==> data@[j] == spec_id_tag()[j],
        decreases 16 - i,
    {
        if data[i] != expected[i] {
            assert(data@ != spec_id_tag());
            return false;
        }
        i += 1;
    }
    assert(data@ =~= spec_id_tag());
    true
}

/// The 16 id bytes as a vector, for writing tests and comparisons.
pub fn id_tag() -> (r: Vec<u8>)
    ensures
        r@ == spec_id_tag(),
{
    let mut v: Vec<u8> = Vec::new();
    v.push(0x53);
    v.push(0x45);
    v.push(0x47);
    v.push(0x47);
    v.push(0x45);
    v.push(0x52);
    v.push(0x20);
    v.push(0x52);
    v.push(0x54);
    v.push(0x54);
    v.push(0x00);
    v.push(0x00);
    v.push(0x00);
    v.push(0x00);
    v.push(0x00);
    v.push(0x00);
    assert(v@ =~= spec_id_tag());
    v
}

} // verus!
