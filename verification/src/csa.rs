//! Context Save Areas: the hardware-saved register frames of the target.
//!
//! A CSA is a 16-word block in target memory.  It comes in two shapes, an
//! upper and a lower context; both carry the PCXI register value linking to
//! the previous frame and the return address `a11`.  The byte layout is
//! architecture-fixed: 16 little-endian 32-bit words, no padding.

use vstd::bytes::spec_u32_from_le_bytes;
use vstd::bytes::u32_from_le_bytes;
use vstd::prelude::*;

use crate::pcxi::PCXI;

verus! {

/// Size in bytes of one saved context, upper or lower.
pub const CSA_SIZE: usize = 64;

/// Word `k` of a saved-context image: bytes `4k..4k+4`, little-endian.
pub open spec fn spec_word(bytes: Seq<u8>, k: int) -> u32 {
    spec_u32_from_le_bytes(bytes.subrange(4 * k, 4 * k + 4))
}

/// Read word `k` of a saved-context image.
fn word_at(bytes: &Vec<u8>, k: usize) -> (r: u32)
    requires
        k < 16,
        bytes@.len() == CSA_SIZE,
    ensures
        r == spec_word(bytes@, k as int),
{
    u32_from_le_bytes(vstd::slice::slice_subrange(bytes.as_slice(), 4 * k, 4 * k + 4))
}

/// A link word pointing at one CSA.
///
/// Decoded from a PCXI-class register value: a 4-bit segment, a 16-bit
/// offset, and the flag telling the two context shapes apart.
#[derive(Debug, Clone, Copy, PartialEq, Eq, Structural)]
pub struct ContextLinkWord {
    pub segment_address: u8,
    pub context_offset: u16,
    pub is_upper: bool,
}

impl ContextLinkWord {
    /// The segment is a 4-bit quantity.
    pub open spec fn wf(&self) -> bool {
        self.segment_address < 16
    }

    /// The absolute target address of the CSA: the segment in the top four
    /// address bits, the offset scaled by the 64-byte CSA size.
    pub open spec fn spec_context_address(&self) -> u32 {
        (self.segment_address * 0x1000_0000 + self.context_offset * 64) as u32
    }

    /// Returns the effective (absolute) address of the CSA segment.
    pub fn get_context_address(&self) -> (r: u32)
        requires
            self.wf(),
        ensures
            r == self.spec_context_address(),
    {
        (self.segment_address as u32) * 0x1000_0000 + (self.context_offset as u32) * 64
    }
}

/// An upper context: the registers the hardware saves on a call or trap.
#[derive(Debug, Default, Clone, Copy, PartialEq, Eq, Structural)]
pub struct UpperContext {
    pub pcxi: PCXI,
    pub psw: u32,
    pub a10: u32,
    pub a11: u32,
    pub d8: u32,
    pub d9: u32,
    pub d10: u32,
    pub d11: u32,
    pub a12: u32,
    pub a13: u32,
    pub a14: u32,
    pub a15: u32,
    pub d12: u32,
    pub d13: u32,
    pub d14: u32,
    pub d15: u32,
}

/// The upper context encoded in a 64-byte CSA image.
pub open spec fn spec_upper_from_bytes(bytes: Seq<u8>) -> UpperContext {
    UpperContext {
        pcxi: PCXI { bits: spec_word(bytes, 0) },
        psw: spec_word(bytes, 1),
        a10: spec_word(bytes, 2),
        a11: spec_word(bytes, 3),
        d8: spec_word(bytes, 4),
        d9: spec_word(bytes, 5),
        d10: spec_word(bytes, 6),
        d11: spec_word(bytes, 7),
        a12: spec_word(bytes, 8),
        a13: spec_word(bytes, 9),
        a14: spec_word(bytes, 10),
        a15: spec_word(bytes, 11),
        d12: spec_word(bytes, 12),
        d13: spec_word(bytes, 13),
        d14: spec_word(bytes, 14),
        d15: spec_word(bytes, 15),
    }
}

impl UpperContext {
    /// Decode an upper context from its 64-byte image.
    pub fn from_bytes(bytes: &Vec<u8>) -> (r: Self)
        requires
            bytes@.len() == CSA_SIZE,
        ensures
            r == spec_upper_from_bytes(bytes@),
    {
        UpperContext {
            pcxi: PCXI { bits: word_at(bytes, 0) },
            psw: word_at(bytes, 1),
            a10: word_at(bytes, 2),
            a11: word_at(bytes, 3),
            d8: word_at(bytes, 4),
            d9: word_at(bytes, 5),
            d10: word_at(bytes, 6),
            d11: word_at(bytes, 7),
            a12: word_at(bytes, 8),
            a13: word_at(bytes, 9),
            a14: word_at(bytes, 10),
            a15: word_at(bytes, 11),
            d12: word_at(bytes, 12),
            d13: word_at(bytes, 13),
            d14: word_at(bytes, 14),
            d15: word_at(bytes, 15),
        }
    }
}

/// A lower context: the second CSA shape; this tool only reads its link word
/// and return address.
#[derive(Debug, Default, Clone, Copy, PartialEq, Eq, Structural)]
pub struct LowerContext {
    pub pcxi: PCXI,
    pub a11: u32,
    pub a2: u32,
    pub a3: u32,
    pub d0: u32,
    pub d1: u32,
    pub d2: u32,
    pub d3: u32,
    pub a4: u32,
    pub a5: u32,
    pub a6: u32,
    pub a7: u32,
    pub d4: u32,
    pub d5: u32,
    pub d6: u32,
    pub d7: u32,
}

/// The lower context encoded in a 64-byte CSA image.
pub open spec fn spec_lower_from_bytes(bytes: Seq<u8>) -> LowerContext {
    LowerContext {
        pcxi: PCXI { bits: spec_word(bytes, 0) },
        a11: spec_word(bytes, 1),
        a2: spec_word(bytes, 2),
        a3: spec_word(bytes, 3),
        d0: spec_word(bytes, 4),
        d1: spec_word(bytes, 5),
        d2: spec_word(bytes, 6),
        d3: spec_word(bytes, 7),
        a4: spec_word(bytes, 8),
        a5: spec_word(bytes, 9),
        a6: spec_word(bytes, 10),
        a7: spec_word(bytes, 11),
        d4: spec_word(bytes, 12),
        d5: spec_word(bytes, 13),
        d6: spec_word(bytes, 14),
        d7: spec_word(bytes, 15),
    }
}

impl LowerContext {
    /// Decode a lower context from its 64-byte image.
    pub fn from_bytes(bytes: &Vec<u8>) -> (r: Self)
        requires
            bytes@.len() == CSA_SIZE,
        ensures
            r == spec_lower_from_bytes(bytes@),
    {
        LowerContext {
            pcxi: PCXI { bits: word_at(bytes, 0) },
            a11: word_at(bytes, 1),
            a2: word_at(bytes, 2),
            a3: word_at(bytes, 3),
            d0: word_at(bytes, 4),
            d1: word_at(bytes, 5),
            d2: word_at(bytes, 6),
            d3: word_at(bytes, 7),
            a4: word_at(bytes, 8),
            a5: word_at(bytes, 9),
            a6: word_at(bytes, 10),
            a7: word_at(bytes, 11),
            d4: word_at(bytes, 12),
            d5: word_at(bytes, 13),
            d6: word_at(bytes, 14),
            d7: word_at(bytes, 15),
        }
    }
}

/// A saved context of either shape.
#[derive(Debug, Clone, Copy, PartialEq, Eq, Structural)]
pub enum SavedContext {
    Upper(UpperContext),
    Lower(LowerContext),
}

/// The PCXI value a saved context carries.
pub open spec fn spec_context_pcxi(ctx: SavedContext) -> PCXI {
    match ctx {
        SavedContext::Upper(c) => c.pcxi,
        SavedContext::Lower(c) => c.pcxi,
    }
}

/// The return address a saved context carries.
pub open spec fn spec_context_return_address(ctx: SavedContext) -> u32 {
    match ctx {
        SavedContext::Upper(c) => c.a11,
        SavedContext::Lower(c) => c.a11,
    }
}

impl SavedContext {
    /// Returns the PCXI register value stored in this context.
    ///
    /// Both context shapes hold a stored PCXI register, so this is available
    /// on the type itself.
    pub fn pcxi(&self) -> (r: PCXI)
        ensures
            r == spec_context_pcxi(*self),
    {
        match self {
            SavedContext::Upper(c) => c.pcxi,
            SavedContext::Lower(c) => c.pcxi,
        }
    }

    /// Returns the return address stored in this context.
    pub fn return_address(&self) -> (r: u32)
        ensures
            r == spec_context_return_address(*self),
    {
        match self {
            SavedContext::Upper(c) => c.a11,
            SavedContext::Lower(c) => c.a11,
        }
    }
}

/// The saved context a link word selects from a 64-byte CSA image: the link
/// word's flag decides which shape the bytes are read as.
pub open spec fn spec_parse_context(link: ContextLinkWord, bytes: Seq<u8>) -> SavedContext {
    if link.is_upper {
        SavedContext::Upper(spec_upper_from_bytes(bytes))
    } else {
        SavedContext::Lower(spec_lower_from_bytes(bytes))
    }
}

impl ContextLinkWord {
    /// Re-interpret the raw CSA image behind this link word as the saved
    /// context it encodes.
    pub fn parse_context(&self, bytes: &Vec<u8>) -> (r: SavedContext)
        requires
            bytes@.len() == CSA_SIZE,
        ensures
            r == spec_parse_context(*self, bytes@),
    {
        if self.is_upper {
            SavedContext::Upper(UpperContext::from_bytes(bytes))
        } else {
            SavedContext::Lower(LowerContext::from_bytes(bytes))
        }
    }
}

} // verus!
