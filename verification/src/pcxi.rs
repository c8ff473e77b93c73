//! The PCXI register: the head of the context-save chain.
//!
//! The 32-bit PCXI value packs the link to the previously saved context: a
//! 16-bit context offset in its low bits, a 4-bit segment above them, and
//! one flag telling an upper from a lower context.  A link whose offset and
//! segment are both zero marks the end of the chain.

use vstd::prelude::*;

use crate::csa::ContextLinkWord;
use crate::csa::SavedContext;
use crate::csa::CSA_SIZE;

verus! {

/// A raw PCXI register value.
#[derive(Debug, Default, Clone, Copy, PartialEq, Eq, Structural)]
pub struct PCXI {
    pub bits: u32,
}

/// Bits 0..16 of a PCXI value: the previous context offset.
pub open spec fn spec_previous_context_pointer(bits: u32) -> u16 {
    (bits % 0x1_0000) as u16
}

/// Bits 16..20 of a PCXI value: the previous segment address.
pub open spec fn spec_previous_segment_address(bits: u32) -> u8 {
    ((bits / 0x1_0000) % 16) as u8
}

/// Bit 20 of a PCXI value: whether the previous context is an upper context.
pub open spec fn spec_is_upper(bits: u32) -> bool {
    (bits / 0x10_0000) % 2 == 1
}

/// The link word a PCXI value encodes, or `None` at the end of the chain.
pub open spec fn spec_link_word(bits: u32) -> Option<ContextLinkWord> {
    if spec_previous_context_pointer(bits) == 0 && spec_previous_segment_address(bits) == 0 {
        None
    } else {
        Some(
            ContextLinkWord {
                segment_address: spec_previous_segment_address(bits),
                context_offset: spec_previous_context_pointer(bits),
                is_upper: spec_is_upper(bits),
            },
        )
    }
}

impl PCXI {
    pub fn new(bits: u32) -> (r: Self)
        ensures
            r.bits == bits,
    {
        PCXI { bits }
    }

    /// The 16-bit previous context offset.
    pub fn previous_context_pointer(&self) -> (r: u16)
        ensures
            r == spec_previous_context_pointer(self.bits),
    {
        (self.bits % 0x1_0000) as u16
    }

    /// The 4-bit previous segment address.
    pub fn previous_segment_address(&self) -> (r: u8)
        ensures
            r == spec_previous_segment_address(self.bits),
    {
        ((self.bits / 0x1_0000) % 16) as u8
    }

    /// Whether the previous context is an upper context.
    pub fn is_upper(&self) -> (r: bool)
        ensures
            r == spec_is_upper(self.bits),
    {
        (self.bits / 0x10_0000) % 2 == 1
    }

    /// Extract the link word to the previously saved context.
    ///
    /// Offset and segment both zero mean there is no previous context: the
    /// chain ends here and the result is `None`.
    pub fn get_context(&self) -> (r: Option<ContextLinkWord>)
        ensures
            r == spec_link_word(self.bits),
            r matches Some(link) ==> link.wf(),
    {
        let pointer = self.previous_context_pointer();
        let segment = self.previous_segment_address();
        if pointer == 0 && segment == 0 {
            return None;
        }
        Some(
            ContextLinkWord {
                segment_address: segment,
                context_offset: pointer,
                is_upper: self.is_upper(),
            },
        )
    }

    /// Start walking the CSA chain headed by this PCXI value.
    pub fn walk_context(&self) -> (r: ContextWalker)
        ensures
            r.pcxi == *self,
    {
        ContextWalker { pcxi: *self }
    }
}

/// The chain ends exactly at a link whose two sub-fields are both zero: such
/// a PCXI value yields no link word, so a walk standing on it is finished
/// and the remaining chain is empty.
pub proof fn lemma_chain_terminates(bits: u32)
    ensures
        spec_link_word(bits) is None <==> (spec_previous_context_pointer(bits) == 0
            && spec_previous_segment_address(bits) == 0),
{
}

/// A walk along the CSA link chain.
///
/// The walker holds the PCXI value of the frame to visit next.  It decides
/// which target address to read; the application performs the 64-byte read
/// and hands the image back through [`ContextWalker::advance`].  A chain
/// whose link word is empty is finished.  The walk follows whatever links
/// the target memory holds, so a cyclic chain would walk forever; the
/// firmware is trusted not to produce one, and a read failure simply ends
/// the walk with the frames collected so far.
#[derive(Debug, Clone, Copy, PartialEq, Eq, Structural)]
pub struct ContextWalker {
    pub pcxi: PCXI,
}

impl ContextWalker {
    /// The link word to follow next, or `None` when the walk is finished.
    pub fn next_link(&self) -> (r: Option<ContextLinkWord>)
        ensures
            r == spec_link_word(self.pcxi.bits),
            r matches Some(link) ==> link.wf(),
    {
        self.pcxi.get_context()
    }

    /// Consume the 64-byte CSA image read for the pending link word: yields
    /// the saved context it encodes and moves the walk to that context's own
    /// link.
    pub fn advance(&mut self, bytes: &Vec<u8>) -> (r: SavedContext)
        requires
            spec_link_word(old(self).pcxi.bits) is Some,
            bytes@.len() == CSA_SIZE,
        ensures
            r == crate::csa::spec_parse_context(spec_link_word(old(self).pcxi.bits)->Some_0, bytes@),
            final(self).pcxi == crate::csa::spec_context_pcxi(r),
    {
        let link = self.pcxi.get_context().unwrap();
        let ctx = link.parse_context(bytes);
        self.pcxi = ctx.pcxi();
        ctx
    }
}

} // verus!
