//! The reconstructed call stack of a halted core.
//!
//! A stacktrace is the program counter at the halt, the upper-context
//! register snapshot read from the core, and the chain of saved contexts
//! recovered by walking the CSA link list.

use vstd::prelude::*;

use crate::csa::spec_context_return_address;
use crate::csa::SavedContext;
use crate::csa::UpperContext;
use crate::pcxi::PCXI;

verus! {

/// Number of named registers a snapshot reads: 16 upper-context registers
/// followed by the program counter.
pub const SNAPSHOT_REGISTER_COUNT: usize = 17;

/// A snapshot of call frames at the moment a core halted.
#[derive(Debug, Clone, PartialEq, Eq)]
pub struct Stacktrace {
    /// Program counter at the halt.
    pub current_pc: u32,
    /// Upper-context registers read directly from the core.
    pub current_upper: UpperContext,
    /// Saved contexts in link order, starting from the most recently saved.
    pub stack_frames: Vec<SavedContext>,
}

/// The names of the registers a snapshot reads from register group 0, in
/// the order [`upper_from_register_words`] consumes their values: the 16
/// upper-context registers, then the program counter.
pub fn snapshot_register_names() -> (r: Vec<&'static str>)
    ensures
        r@.len() == SNAPSHOT_REGISTER_COUNT,
        r@[0]@ == "PCXI"@,
        r@[1]@ == "PSW"@,
        r@[2]@ == "A10"@,
        r@[3]@ == "A11"@,
        r@[4]@ == "D8"@,
        r@[5]@ == "D9"@,
        r@[6]@ == "D10"@,
        r@[7]@ == "D11"@,
        r@[8]@ == "A12"@,
        r@[9]@ == "A13"@,
        r@[10]@ == "A14"@,
        r@[11]@ == "A15"@,
        r@[12]@ == "D12"@,
        r@[13]@ == "D13"@,
        r@[14]@ == "D14"@,
        r@[15]@ == "D15"@,
        r@[16]@ == "PC"@,
{
    let mut names: Vec<&'static str> = Vec::new();
    names.push("PCXI");
    names.push("PSW");
    names.push("A10");
    names.push("A11");
    names.push("D8");
    names.push("D9");
    names.push("D10");
    names.push("D11");
    names.push("A12");
    names.push("A13");
    names.push("A14");
    names.push("A15");
    names.push("D12");
    names.push("D13");
    names.push("D14");
    names.push("D15");
    names.push("PC");
    names
}

/// The upper context formed from the register values read in the order of
/// [`snapshot_register_names`].
pub open spec fn spec_upper_from_words(words: Seq<u32>) -> UpperContext {
    UpperContext {
        pcxi: PCXI { bits: words[0] },
        psw: words[1],
        a10: words[2],
        a11: words[3],
        d8: words[4],
        d9: words[5],
        d10: words[6],
        d11: words[7],
        a12: words[8],
        a13: words[9],
        a14: words[10],
        a15: words[11],
        d12: words[12],
        d13: words[13],
        d14: words[14],
        d15: words[15],
    }
}

/// Assemble the current upper context from the register values read in the
/// order of [`snapshot_register_names`] (the trailing program counter value
/// is not part of the context).
pub fn upper_from_register_words(words: &Vec<u32>) -> (r: UpperContext)
    requires
        words@.len() == SNAPSHOT_REGISTER_COUNT,
    ensures
        r == spec_upper_from_words(words@),
{
    UpperContext {
        pcxi: PCXI { bits: words[0] },
        psw: words[1],
        a10: words[2],
        a11: words[3],
        d8: words[4],
        d9: words[5],
        d10: words[6],
        d11: words[7],
        a12: words[8],
        a13: words[9],
        a14: words[10],
        a15: words[11],
        d12: words[12],
        d13: words[13],
        d14: words[14],
        d15: words[15],
    }
}

/// The addresses a stacktrace reports, in display order: the program
/// counter, the call site held in the current upper context, then each
/// saved context's return address.
pub open spec fn spec_frame_addresses(t: Stacktrace) -> Seq<u32> {
    seq![t.current_pc, t.current_upper.a11] + t.stack_frames@.map_values(
        |c: SavedContext| spec_context_return_address(c),
    )
}

impl Stacktrace {
    pub fn new(current_pc: u32, current_upper: UpperContext, stack_frames: Vec<SavedContext>) -> (r:
        Self)
        ensures
            r.current_pc == current_pc,
            r.current_upper == current_upper,
            r.stack_frames == stack_frames,
    {
        Stacktrace { current_pc, current_upper, stack_frames }
    }

    /// Every address this stacktrace reports, in display order.
    pub fn frame_addresses(&self) -> (r: Vec<u32>)
        ensures
            r@ == spec_frame_addresses(*self),
    {
        let mut addresses: Vec<u32> = Vec::new();
        addresses.push(self.current_pc);
        addresses.push(self.current_upper.a11);
        let mut i: usize = 0;
        while i < self.stack_frames.len()
            invariant
                0 <= i <= self.stack_frames@.len(),
                addresses@.len() == 2 + i,
                addresses@[0] == self.current_pc,
                addresses@[1] == self.current_upper.a11,
                forall|j: int|
                    0 <= j < i ==> addresses@[2 + j] == spec_context_return_address(
                        self.stack_frames@[j],
                    ),
            decreases self.stack_frames@.len() - i,
        {
            addresses.push(self.stack_frames[i].return_address());
            i += 1;
        }
        assert(addresses@ =~= spec_frame_addresses(*self));
        addresses
    }
}

} // verus!
