//! The instruction execution engine: owns the register file and the memory
//! bus, fetches, and implements the arithmetic and logic primitives.
use vstd::prelude::*;
use crate::alu::{
    adc_spec, add16_spec, add_spec, and_spec, cp_flags, daa_spec, dec_spec, inc_spec, or_spec,
    rl_spec, rlc_spec, rr_spec, rrc_spec, sbc_spec, signed_byte, sub_spec, xor_spec,
};
use crate::cartridge::{Cartridge, CartridgeView};
use crate::error::EmuError;
use crate::memory::{BusView, MemoryBus, PLACEHOLDER_ROM_SIZE};
use crate::registers::{Flag, Registers, flag_byte};
use crate::utils::U16Ext;

verus! {

broadcast use crate::registers::group_flag_low_nibble;

/// A 16-bit value reduced modulo 2^16.
pub open spec fn wrap16(x: int) -> u16 {
    (x % 0x10000) as u16
}

/// The machine state, as plain values.
pub struct CpuView {
    pub r: Registers,
    pub bus: BusView,
    pub halted: bool,
    pub ime: bool,
}

impl CpuView {
    /// The bus is well formed and the low nibble of F is clear.
    pub open spec fn wf(self) -> bool {
        &&& self.bus.wf()
        &&& self.r.f & 0x0F == 0
    }

    /// The power-on machine around `cartridge`.
    pub open spec fn powered_on(cartridge: CartridgeView) -> CpuView {
        CpuView {
            r: Registers::zeroed(),
            bus: BusView::powered_on(cartridge),
            halted: false,
            ime: false,
        }
    }

    pub open spec fn read(self, addr: u16) -> u8 {
        self.bus.read(addr)
    }

    pub open spec fn write(self, addr: u16, v: u8) -> Result<CpuView, EmuError> {
        match self.bus.write(addr, v) {
            Ok(b) => Ok(CpuView { bus: b, ..self }),
            Err(e) => Err(e),
        }
    }

    pub open spec fn write_word(self, addr: u16, w: u16) -> Result<CpuView, EmuError> {
        match self.bus.write_word(addr, w) {
            Ok(b) => Ok(CpuView { bus: b, ..self }),
            Err(e) => Err(e),
        }
    }

    pub open spec fn with_regs(self, r: Registers) -> CpuView {
        CpuView { r, ..self }
    }

    pub open spec fn with_pc(self, pc: u16) -> CpuView {
        self.with_regs(Registers { pc, ..self.r })
    }

    pub open spec fn with_sp(self, sp: u16) -> CpuView {
        self.with_regs(Registers { sp, ..self.r })
    }

    pub open spec fn with_f(self, f: u8) -> CpuView {
        self.with_regs(Registers { f, ..self.r })
    }

    /// A and F replaced by the value and flags of an ALU result.
    pub open spec fn with_acc(self, p: (u8, u8)) -> CpuView {
        self.with_regs(Registers { a: p.0, f: p.1, ..self.r })
    }

    /// The byte at PC, and the state with PC advanced past it.
    pub open spec fn fetch_byte(self) -> (u8, CpuView) {
        (self.read(self.r.pc), self.with_pc(wrap16(self.r.pc + 1)))
    }

    /// The little-endian word at PC, and the state with PC advanced past it.
    pub open spec fn fetch_word(self) -> (u16, CpuView) {
        (self.bus.read_word(self.r.pc), self.with_pc(wrap16(self.r.pc + 2)))
    }

    /// The state after pushing `w`: SP lowered by two, `w` stored there.
    pub open spec fn push(self, w: u16) -> Result<CpuView, EmuError> {
        let sp = wrap16(self.r.sp - 2);
        self.with_sp(sp).write_word(sp, w)
    }

    /// The word at SP, and the state with SP raised by two.
    pub open spec fn pop(self) -> (u16, CpuView) {
        (self.bus.read_word(self.r.sp), self.with_sp(wrap16(self.r.sp + 2)))
    }

    /// PC moved by the signed displacement `e`.
    pub open spec fn jump_relative(self, e: u8) -> CpuView {
        self.with_pc(wrap16(self.r.pc + signed_byte(e) + 0x10000))
    }
}

/// An instruction's outcome as a state and a cycle cost, or an error.
pub open spec fn outcome(s: CpuView, r: Result<u32, EmuError>) -> Result<(CpuView, u32), EmuError> {
    match r {
        Ok(cost) => Ok((s, cost)),
        Err(e) => Err(e),
    }
}

/// A state update that may fail, as the state reached or the error.
pub open spec fn done(s: CpuView, r: Result<(), EmuError>) -> Result<CpuView, EmuError> {
    match r {
        Ok(()) => Ok(s),
        Err(e) => Err(e),
    }
}

/// A state update that may fail, paired with a cycle cost.
pub open spec fn costed(r: Result<CpuView, EmuError>, cost: u32) -> Result<(CpuView, u32), EmuError> {
    match r {
        Ok(s) => Ok((s, cost)),
        Err(e) => Err(e),
    }
}

/// The engine: register file, memory bus, and the halted and
/// interrupt-master-enable modes.
pub struct Z80CPU {
    pub r: Registers,
    pub m: MemoryBus,
    pub halted: bool,
    pub ime: bool,
}

impl View for Z80CPU {
    type V = CpuView;

    open spec fn view(&self) -> CpuView {
        CpuView { r: self.r, bus: self.m@, halted: self.halted, ime: self.ime }
    }
}

impl Z80CPU {
    /// The power-on machine with a blank placeholder cartridge.
    pub fn new() -> (cpu: Z80CPU)
        ensures
            cpu@ == CpuView::powered_on(
                CartridgeView::loaded(Seq::new(PLACEHOLDER_ROM_SIZE as nat, |i: int| 0u8)),
            ),
            cpu@.wf(),
    {
        let r = Registers::new();
        let m = MemoryBus::new();
        assert(0u8 & 0x0F == 0) by (bit_vector);
        Z80CPU { r, m, halted: false, ime: false }
    }

    /// The power-on machine with the cartridge image `rom` inserted.
    pub fn with_rom(rom: Vec<u8>) -> (cpu: Z80CPU)
        ensures
            cpu@ == CpuView::powered_on(CartridgeView::loaded(rom@)),
            cpu@.wf(),
    {
        let cartridge = Cartridge::new(rom);
        let m = MemoryBus::with_cartridge(cartridge);
        assert(0u8 & 0x0F == 0) by (bit_vector);
        Z80CPU { r: Registers::new(), m, halted: false, ime: false }
    }

    /// Restart: registers back to zero, not halted, interrupts disabled;
    /// memory is kept.
    pub fn reset(&mut self)
        ensures
            final(self)@ == (CpuView {
                r: Registers::zeroed(),
                halted: false,
                ime: false,
                ..old(self)@
            }),
    {
        self.r = Registers::new();
        self.halted = false;
        self.ime = false;
    }

    /// Reads the byte at PC and advances PC by one.
    pub fn fetch_byte(&mut self) -> (b: u8)
        requires
            old(self)@.wf(),
        ensures
            (b, final(self)@) == old(self)@.fetch_byte(),
    {
        let b = self.m.read_byte(self.r.pc);
        self.r.pc = self.r.pc.wrapping_add(1);
        b
    }

    /// Reads the little-endian word at PC and advances PC by two.
    pub fn fetch_word(&mut self) -> (w: u16)
        requires
            old(self)@.wf(),
        ensures
            (w, final(self)@) == old(self)@.fetch_word(),
    {
        let w = self.m.read_word(self.r.pc);
        self.r.pc = self.r.pc.wrapping_add(2);
        w
    }

    /// Lowers SP by two and stores `val` there.
    pub fn push_stack(&mut self, val: u16) -> (r: Result<(), EmuError>)
        requires
            old(self)@.wf(),
        ensures
            final(self)@.wf(),
            match r {
                Ok(()) => old(self)@.push(val) == Ok::<CpuView, EmuError>(final(self)@),
                Err(e) => old(self)@.push(val) == Err::<CpuView, EmuError>(e),
            },
    {
        self.r.sp = self.r.sp.wrapping_sub(2);
        self.m.write_word(self.r.sp, val)
    }

    /// Reads the word at SP and raises SP by two.
    pub fn pop_stack(&mut self) -> (w: u16)
        requires
            old(self)@.wf(),
        ensures
            (w, final(self)@) == old(self)@.pop(),
    {
        let val = self.m.read_word(self.r.sp);
        self.r.sp = self.r.sp.wrapping_add(2);
        val
    }
}

/// The arithmetic, logic, rotate and jump primitives of the engine.
pub trait Opcodes {
    /// Whether the machine state can be read and written.
    spec fn well_formed(&self) -> bool;

    fn add(&mut self, val: u8);

    fn add_16(&mut self, lhs: u16, rhs: u16) -> u16;

    fn adc(&mut self, val: u8);

    fn sub(&mut self, val: u8);

    fn sbc(&mut self, val: u8);

    fn and(&mut self, val: u8);

    fn xor(&mut self, val: u8);

    fn or(&mut self, val: u8);

    fn cp(&mut self, val: u8);

    fn inc(&mut self, val: u8) -> u8;

    fn dec(&mut self, val: u8) -> u8;

    fn rl(&mut self, val: u8) -> u8;

    fn rlc(&mut self, val: u8) -> u8;

    fn rr(&mut self, val: u8) -> u8;

    fn rrc(&mut self, val: u8) -> u8;

    fn daa(&mut self);

    fn jr(&mut self)
        requires
            old(self).well_formed(),
        ensures
            final(self).well_formed(),
    ;
}

impl Opcodes for Z80CPU {
    open spec fn well_formed(&self) -> bool {
        self@.wf()
    }

    /// A + val; see `add_spec`.
    fn add(&mut self, val: u8)
        ensures
            final(self)@ == old(self)@.with_acc(add_spec(old(self).r.a, val)),
    {
        let a = self.r.a;
        let res: u16 = (a as u16) + (val as u16);
        self.r.f = flag_byte(res.lo() == 0, false, a % 16 + val % 16 > 15, res > 0xFF);
        self.r.a = res.lo();
    }

    /// A + val + carry; see `adc_spec`.
    fn adc(&mut self, val: u8)
        ensures
            final(self)@ == old(self)@.with_acc(adc_spec(old(self).r.a, val, old(self).r.f)),
    {
        let a = self.r.a;
        let carry: u8 = if self.r.get_flag(Flag::C) { 1 } else { 0 };
        let res: u16 = (a as u16) + (val as u16) + (carry as u16);
        self.r.f = flag_byte(res.lo() == 0, false, a % 16 + val % 16 + carry > 15, res > 0xFF);
        self.r.a = res.lo();
    }

    /// A - val, with the flags of `cp`.
    fn sub(&mut self, val: u8)
        ensures
            final(self)@ == old(self)@.with_acc(sub_spec(old(self).r.a, val)),
    {
        self.cp(val);
        self.r.a = self.r.a.wrapping_sub(val);
    }

    /// A - val - carry; see `sbc_spec`.
    fn sbc(&mut self, val: u8)
        ensures
            final(self)@ == old(self)@.with_acc(sbc_spec(old(self).r.a, val, old(self).r.f)),
    {
        let a = self.r.a;
        let carry: u8 = if self.r.get_flag(Flag::C) { 1 } else { 0 };
        let res = a.wrapping_sub(val).wrapping_sub(carry);
        let half = (a % 16) < (val % 16) + carry;
        let full = (a as u16) < (val as u16) + (carry as u16);
        self.r.f = flag_byte(res == 0, true, half, full);
        self.r.a = res;
    }

    fn and(&mut self, val: u8)
        ensures
            final(self)@ == old(self)@.with_acc(and_spec(old(self).r.a, val)),
    {
        let res = self.r.a & val;
        self.r.f = flag_byte(res == 0, false, true, false);
        self.r.a = res;
    }

    fn xor(&mut self, val: u8)
        ensures
            final(self)@ == old(self)@.with_acc(xor_spec(old(self).r.a, val)),
    {
        let res = self.r.a ^ val;
        self.r.f = flag_byte(res == 0, false, false, false);
        self.r.a = res;
    }

    fn or(&mut self, val: u8)
        ensures
            final(self)@ == old(self)@.with_acc(or_spec(old(self).r.a, val)),
    {
        let res = self.r.a | val;
        self.r.f = flag_byte(res == 0, false, false, false);
        self.r.a = res;
    }

    /// Compares A with val; A is kept.
    fn cp(&mut self, val: u8)
        ensures
            final(self)@ == old(self)@.with_f(cp_flags(old(self).r.a, val)),
    {
        let a = self.r.a;
        self.r.f = flag_byte(a == val, true, a % 16 < val % 16, a < val);
    }

    /// val + 1; the carry flag is kept.
    fn inc(&mut self, val: u8) -> (r: u8)
        ensures
            r == inc_spec(val, old(self).r.f).0,
            final(self)@ == old(self)@.with_f(inc_spec(val, old(self).r.f).1),
    {
        let res = val.wrapping_add(1);
        let carry = self.r.get_flag(Flag::C);
        self.r.f = flag_byte(res == 0, false, val % 16 == 15, carry);
        res
    }

    /// val - 1; the carry flag is kept.
    fn dec(&mut self, val: u8) -> (r: u8)
        ensures
            r == dec_spec(val, old(self).r.f).0,
            final(self)@ == old(self)@.with_f(dec_spec(val, old(self).r.f).1),
    {
        let res = val.wrapping_sub(1);
        let carry = self.r.get_flag(Flag::C);
        self.r.f = flag_byte(res == 0, true, val % 16 == 0, carry);
        res
    }

    fn rl(&mut self, val: u8) -> (r: u8)
        ensures
            r == rl_spec(val, old(self).r.f).0,
            final(self)@ == old(self)@.with_f(rl_spec(val, old(self).r.f).1),
    {
        self.r.rl_op(val)
    }

    fn rlc(&mut self, val: u8) -> (r: u8)
        ensures
            r == rlc_spec(val).0,
            final(self)@ == old(self)@.with_f(rlc_spec(val).1),
    {
        let res = (val % 128) * 2 + val / 128;
        self.r.f = flag_byte(res == 0, false, false, val >= 128);
        res
    }

    fn rr(&mut self, val: u8) -> (r: u8)
        ensures
            r == rr_spec(val, old(self).r.f).0,
            final(self)@ == old(self)@.with_f(rr_spec(val, old(self).r.f).1),
    {
        let carry: u8 = if self.r.get_flag(Flag::C) { 1 } else { 0 };
        let res = val / 2 + carry * 128;
        self.r.f = flag_byte(res == 0, false, false, val % 2 == 1);
        res
    }

    fn rrc(&mut self, val: u8) -> (r: u8)
        ensures
            r == rrc_spec(val).0,
            final(self)@ == old(self)@.with_f(rrc_spec(val).1),
    {
        let res = val / 2 + (val % 2) * 128;
        self.r.f = flag_byte(res == 0, false, false, val % 2 == 1);
        res
    }

    /// lhs + rhs on 16 bits; Z is kept.
    fn add_16(&mut self, lhs: u16, rhs: u16) -> (r: u16)
        ensures
            r == add16_spec(lhs, rhs, old(self).r.f).0,
            final(self)@ == old(self)@.with_f(add16_spec(lhs, rhs, old(self).r.f).1),
    {
        let sum: u32 = lhs as u32 + rhs as u32;
        let zero = self.r.get_flag(Flag::Z);
        self.r.f = flag_byte(zero, false, lhs % 0x1000 + rhs % 0x1000 > 0xFFF, sum > 0xFFFF);
        (sum % 0x10000) as u16
    }

    /// Decimal adjustment of A; see `daa_spec`.
    fn daa(&mut self)
        ensures
            final(self)@ == old(self)@.with_acc(daa_spec(old(self).r.a, old(self).r.f)),
    {
        let a = self.r.a;
        let subtract = self.r.get_flag(Flag::N);
        let low: u8 = if self.r.get_flag(Flag::H) || (!subtract && a % 16 > 9) { 0x06 } else { 0 };
        let high: u8 = if self.r.get_flag(Flag::C) || (!subtract && a > 0x99) { 0x60 } else { 0 };
        let res = if subtract {
            a.wrapping_sub(low + high)
        } else {
            a.wrapping_add(low + high)
        };
        self.r.f = flag_byte(res == 0, subtract, false, high != 0);
        self.r.a = res;
    }

    /// Fetches a signed displacement and adds it to PC (which then points
    /// past the displacement byte).
    fn jr(&mut self)
        ensures
            ({
                let (e, s) = old(self)@.fetch_byte();
                final(self)@ == s.jump_relative(e)
            }),
    {
        let n = self.fetch_byte();
        if n < 128 {
            self.r.pc = self.r.pc.wrapping_add(n as u16);
        } else {
            self.r.pc = self.r.pc.wrapping_sub(256 - n as u16);
        }
    }
}

} // verus!
