//! Processor and memory core of an 8-bit handheld console: register file,
//! cartridge bank controllers, the 16-bit memory bus and the instruction engine.
use vstd::prelude::*;

pub mod alu;
pub mod cartridge;
pub mod cpu;
pub mod dispatch;
pub mod error;
pub mod memory;
pub mod registers;
pub mod semantics;
pub mod utils;

verus! {

use crate::cartridge::CartridgeView;
use crate::cpu::{CpuView, Z80CPU};
use crate::memory::PLACEHOLDER_ROM_SIZE;

/// Powers the machine on: registers and memories zero, a blank placeholder
/// cartridge, ready for repeated `cycle` calls.
pub fn start_emulation() -> (cpu: Z80CPU)
    ensures
        cpu@ == CpuView::powered_on(
            CartridgeView::loaded(Seq::new(PLACEHOLDER_ROM_SIZE as nat, |i: int| 0u8)),
        ),
        cpu@.wf(),
{
    Z80CPU::new()
}

} // verus!
