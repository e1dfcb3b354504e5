//! The fatal conditions that the core reports to its host.
use vstd::prelude::*;

verus! {

/// A condition that stops emulation. None of them is recovered from inside
/// the core.
#[derive(Clone, Copy, Debug, PartialEq, Eq, Structural)]
pub enum EmuError {
    /// An opcode without a handler, with the address it was fetched from.
    UnimplementedOpcode { opcode: u8, pc: u16 },
    /// A ROM bank whose byte offset lies beyond the end of the image.
    RomBankOutOfRange { offset: usize },
    /// A bank-select write that the cartridge's controller has no handler for.
    NoBankController { addr: u16, val: u8 },
    /// A write to a read-only part of the cartridge's address range.
    ReadOnlyWrite { addr: u16, val: u8 },
}

} // verus!
