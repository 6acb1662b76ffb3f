//! Errors reported by the emulation cores.
use vstd::prelude::*;

verus! {

/// What a recognised opcode family accepts in the position that was wrong.
#[derive(Debug, Clone, Copy, PartialEq, Eq, Structural)]
pub enum UsageHint {
    /// The last nibble must be zero.
    LastNibbleZero,
    /// The `8xy_` family accepts 0 to 7 and E as last nibble.
    AluSelector,
    /// The `Ex__` family accepts 9E and A1 as low byte.
    KeySelector,
    /// The `Fx__` family accepts 07, 0A, 15, 18, 1E, 29, 33, 55 and 65 as low byte.
    MiscSelector,
}

impl UsageHint {
    /// A short human readable form of the hint.
    pub fn text(&self) -> (r: &'static str)
        ensures
            r@ == match self {
                UsageHint::LastNibbleZero => " (Set last nibble to 0)"@,
                UsageHint::AluSelector => " (Set last nibble to 0, 1, 2, 3, 4, 5, 6, 7 or E)"@,
                UsageHint::KeySelector => " (For Ex prefix, only 9E and A1 suffix are supported)"@,
                UsageHint::MiscSelector =>
                    " (For Fx prefix, only 07, 0A, 15, 18, 1E, 29, 33, 55 and 65 suffix are supported)"@,
            },
    {
        match self {
            UsageHint::LastNibbleZero => " (Set last nibble to 0)",
            UsageHint::AluSelector => " (Set last nibble to 0, 1, 2, 3, 4, 5, 6, 7 or E)",
            UsageHint::KeySelector => " (For Ex prefix, only 9E and A1 suffix are supported)",
            UsageHint::MiscSelector =>
                " (For Fx prefix, only 07, 0A, 15, 18, 1E, 29, 33, 55 and 65 suffix are supported)",
        }
    }
}

/// Every error an emulation core can return. None of them is fatal to the core.
#[derive(Debug)]
pub enum EmuError {
    /// The CPU encountered an opcode that is not implemented or unknown.
    UnrecognizedOpcode { opcode: u64, pc: u64 },
    /// The opcode was recognized but used in an invalid or contextually incorrect way.
    InvalidOpcodeUsage { opcode: u64, pc: u64, hint: UsageHint },
    /// Stack overflow or underflow.
    InvalidStackAccess { sp: u64, pc: u64 },
    /// Memory access outside the address space.
    InvalidMemoryAccess { addr: u64, pc: u64 },
    /// A register used as an index points outside the address space.
    InvalidRegisterIndex { index: usize, pc: u64 },
    /// Arithmetic or logic operation error.
    AluError { pc: u64, details: &'static str },
    /// Catch-all for architecture-specific extensions.
    Custom { message: &'static str },
    /// A program image larger than the writable program region.
    InvalidRom { size: usize, capacity: usize },
}

} // verus!
