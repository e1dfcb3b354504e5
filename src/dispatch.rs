//! Fetch, decode and execute: the engine's step, the primary opcode table
//! and the 0xCB-prefixed table, one handler per addressing-mode family.
use vstd::prelude::*;
use crate::alu::add_sp_spec;
use crate::cpu::{Opcodes, Z80CPU, done, outcome};
use crate::error::EmuError;
use crate::registers::{Flag, flag_byte};
use crate::semantics::{
    accumulator_ops, alu_block, alu_op, call, call_absolute, condition, conditional_calls,
    high_block, indirect_addr, indirect_loads, jump_and_interrupt_switches, jumps_and_far_loads,
    load_block, low_block, pops_and_returns, prefixed, pushes_and_call, reg16, relative_jumps,
    returns_and_high_loads, run_one, set_reg16, shift_op, step, wide_loads, wide_steps,
};

verus! {

broadcast use crate::registers::group_flag_low_nibble;

/// SP plus the signed displacement `e`, and the flags of that addition.
fn add_sp(sp: u16, e: u8) -> (r: (u16, u8))
    ensures
        r == add_sp_spec(sp, e),
{
    let half = sp % 16 + (e % 16) as u16 > 15;
    let carry = sp % 256 + e as u16 > 255;
    let res = if e < 128 {
        sp.wrapping_add(e as u16)
    } else {
        sp.wrapping_sub(256 - e as u16)
    };
    (res, flag_byte(false, false, half, carry))
}

impl Z80CPU {
    /// One machine step: while halted, a one-cycle tick that fetches
    /// nothing; otherwise one instruction. Returns its cycle cost.
    pub fn cycle(&mut self) -> (r: Result<u32, EmuError>)
        requires
            old(self)@.wf(),
        ensures
            final(self)@.wf(),
            outcome(final(self)@, r) == step(old(self)@),
    {
        if self.halted {
            Ok(1)
        } else {
            self.interpret()
        }
    }

    /// Fetches and executes the instruction at PC; returns its cycle cost.
    pub fn interpret(&mut self) -> (r: Result<u32, EmuError>)
        requires
            old(self)@.wf(),
        ensures
            final(self)@.wf(),
            outcome(final(self)@, r) == run_one(old(self)@),
    {
        let at = self.r.pc;
        let op = self.fetch_byte();
        if op == 0x76 {
            self.halted = true;
            Ok(1)
        } else if 0x40 <= op && op < 0x80 {
            self.exec_load_block(op)
        } else if 0x80 <= op && op < 0xC0 {
            self.exec_alu_block(op)
        } else if op < 0x40 {
            self.exec_low_block(op)
        } else if op == 0xCB {
            self.interpret_cb()
        } else {
            self.exec_high_block(op, at)
        }
    }

    /// Fetches and executes a 0xCB-prefixed opcode.
    pub fn interpret_cb(&mut self) -> (r: Result<u32, EmuError>)
        requires
            old(self)@.wf(),
        ensures
            final(self)@.wf(),
            outcome(final(self)@, r) == ({
                let (cb, s) = old(self)@.fetch_byte();
                prefixed(s, cb)
            }),
    {
        let cb = self.fetch_byte();
        self.exec_prefixed(cb)
    }

    fn read_operand(&self, i: u8) -> (v: u8)
        requires
            self@.wf(),
            i < 8,
        ensures
            v == self@.operand(i),
    {
        match i {
            0 => self.r.b,
            1 => self.r.c,
            2 => self.r.d,
            3 => self.r.e,
            4 => self.r.h,
            5 => self.r.l,
            6 => self.m.read_byte(self.r.get_hl()),
            _ => self.r.a,
        }
    }

    fn write_operand(&mut self, i: u8, v: u8) -> (r: Result<(), EmuError>)
        requires
            old(self)@.wf(),
            i < 8,
        ensures
            final(self)@.wf(),
            done(final(self)@, r) == old(self)@.set_operand(i, v),
    {
        match i {
            0 => self.r.b = v,
            1 => self.r.c = v,
            2 => self.r.d = v,
            3 => self.r.e = v,
            4 => self.r.h = v,
            5 => self.r.l = v,
            6 => {
                let hl = self.r.get_hl();
                return self.m.write_byte(hl, v);
            },
            _ => self.r.a = v,
        }
        Ok(())
    }

    fn read_reg16(&self, p: u8) -> (w: u16)
        requires
            p < 4,
        ensures
            w == reg16(self.r, p),
    {
        match p {
            0 => self.r.get_bc(),
            1 => self.r.get_de(),
            2 => self.r.get_hl(),
            _ => self.r.sp,
        }
    }

    fn write_reg16(&mut self, p: u8, w: u16)
        requires
            p < 4,
        ensures
            final(self)@ == old(self)@.with_regs(set_reg16(old(self).r, p, w)),
    {
        match p {
            0 => self.r.set_bc(w),
            1 => self.r.set_de(w),
            2 => self.r.set_hl(w),
            _ => self.r.sp = w,
        }
    }

    fn condition_holds(&self, c: u8) -> (b: bool)
        requires
            c < 4,
        ensures
            b == condition(self.r, c),
    {
        match c {
            0 => !self.r.get_flag(Flag::Z),
            1 => self.r.get_flag(Flag::Z),
            2 => !self.r.get_flag(Flag::C),
            _ => self.r.get_flag(Flag::C),
        }
    }

    /// Accumulator operation `k` with operand `v`.
    fn alu(&mut self, k: u8, v: u8)
        requires
            k < 8,
        ensures
            final(self)@ == old(self)@.with_acc(alu_op(k, old(self).r.a, v, old(self).r.f)),
    {
        match k {
            0 => self.add(v),
            1 => self.adc(v),
            2 => self.sub(v),
            3 => self.sbc(v),
            4 => self.and(v),
            5 => self.xor(v),
            6 => self.or(v),
            _ => self.cp(v),
        }
    }

    /// Rotate or shift `k` of `v`; sets the flags, returns the result.
    fn shift(&mut self, k: u8, v: u8) -> (r: u8)
        requires
            k < 8,
        ensures
            r == shift_op(k, v, old(self).r.f).0,
            final(self)@ == old(self)@.with_f(shift_op(k, v, old(self).r.f).1),
    {
        match k {
            0 => self.rlc(v),
            1 => self.rrc(v),
            2 => self.rl(v),
            3 => self.rr(v),
            _ => {
                let res: u8 = match k {
                    4 => (v % 128) * 2,
                    5 => v / 2 + v / 128 * 128,
                    6 => (v % 16) * 16 + v / 16,
                    _ => v / 2,
                };
                let carry = match k {
                    4 => v >= 128,
                    6 => false,
                    _ => v % 2 == 1,
                };
                self.r.f = flag_byte(res == 0, false, false, carry);
                res
            },
        }
    }

    /// A call to `target`: pushes PC, then jumps.
    fn call_to(&mut self, target: u16) -> (r: Result<(), EmuError>)
        requires
            old(self)@.wf(),
        ensures
            final(self)@.wf(),
            done(final(self)@, r) == call(old(self)@, target),
    {
        let pc = self.r.pc;
        match self.push_stack(pc) {
            Ok(()) => {
                self.r.pc = target;
                Ok(())
            },
            Err(e) => Err(e),
        }
    }

    fn exec_call_absolute(&mut self) -> (r: Result<u32, EmuError>)
        requires
            old(self)@.wf(),
        ensures
            final(self)@.wf(),
            outcome(final(self)@, r) == call_absolute(old(self)@),
    {
        proof {
            reveal(call_absolute);
        }
        let w = self.fetch_word();
        match self.call_to(w) {
            Ok(()) => Ok(6),
            Err(e) => Err(e),
        }
    }

    fn exec_load_block(&mut self, op: u8) -> (r: Result<u32, EmuError>)
        requires
            old(self)@.wf(),
            0x40 <= op < 0x80,
        ensures
            final(self)@.wf(),
            outcome(final(self)@, r) == load_block(old(self)@, op),
    {
        let dst = op / 8 % 8;
        let src = op % 8;
        let v = self.read_operand(src);
        match self.write_operand(dst, v) {
            Ok(()) => Ok(
                if dst == 6 || src == 6 {
                    2
                } else {
                    1
                },
            ),
            Err(e) => Err(e),
        }
    }

    fn exec_alu_block(&mut self, op: u8) -> (r: Result<u32, EmuError>)
        requires
            old(self)@.wf(),
            0x80 <= op < 0xC0,
        ensures
            final(self)@.wf(),
            outcome(final(self)@, r) == alu_block(old(self)@, op),
    {
        let i = op % 8;
        let v = self.read_operand(i);
        self.alu(op / 8 % 8, v);
        Ok(
            if i == 6 {
                2
            } else {
                1
            },
        )
    }

    fn exec_relative_jumps(&mut self, row: u8) -> (r: Result<u32, EmuError>)
        requires
            old(self)@.wf(),
            row < 8,
        ensures
            final(self)@.wf(),
            outcome(final(self)@, r) == relative_jumps(old(self)@, row),
    {
        if row == 0 || row == 2 {
            Ok(1)
        } else if row == 1 {
            let w = self.fetch_word();
            let sp = self.r.sp;
            match self.m.write_word(w, sp) {
                Ok(()) => Ok(5),
                Err(e) => Err(e),
            }
        } else if row == 3 || self.condition_holds(row - 4) {
            self.jr();
            Ok(3)
        } else {
            self.r.pc = self.r.pc.wrapping_add(1);
            Ok(2)
        }
    }

    fn exec_wide_loads(&mut self, row: u8) -> (r: Result<u32, EmuError>)
        requires
            old(self)@.wf(),
            row < 8,
        ensures
            final(self)@.wf(),
            outcome(final(self)@, r) == wide_loads(old(self)@, row),
    {
        let p = row / 2;
        if row % 2 == 0 {
            let w = self.fetch_word();
            self.write_reg16(p, w);
            Ok(3)
        } else {
            let hl = self.r.get_hl();
            let v = self.read_reg16(p);
            let res = self.add_16(hl, v);
            self.r.set_hl(res);
            Ok(2)
        }
    }

    fn step_hl(&mut self, p: u8)
        ensures
            final(self)@ == old(self)@.step_hl(p),
    {
        if p == 2 {
            let hl = self.r.get_hl();
            self.r.set_hl(hl.wrapping_add(1));
        } else if p == 3 {
            let hl = self.r.get_hl();
            self.r.set_hl(hl.wrapping_sub(1));
        }
    }

    fn exec_indirect_loads(&mut self, row: u8) -> (r: Result<u32, EmuError>)
        requires
            old(self)@.wf(),
            row < 8,
        ensures
            final(self)@.wf(),
            outcome(final(self)@, r) == indirect_loads(old(self)@, row),
    {
        let p = row / 2;
        let addr = match p {
            0 => self.r.get_bc(),
            1 => self.r.get_de(),
            _ => self.r.get_hl(),
        };
        assert(addr == indirect_addr(self.r, p));
        if row % 2 == 0 {
            let a = self.r.a;
            match self.m.write_byte(addr, a) {
                Ok(()) => {},
                Err(e) => {
                    return Err(e);
                },
            }
        } else {
            self.r.a = self.m.read_byte(addr);
        }
        self.step_hl(p);
        Ok(2)
    }

    fn exec_wide_steps(&mut self, row: u8) -> (r: Result<u32, EmuError>)
        requires
            old(self)@.wf(),
            row < 8,
        ensures
            final(self)@.wf(),
            outcome(final(self)@, r) == wide_steps(old(self)@, row),
    {
        let p = row / 2;
        let v = self.read_reg16(p);
        let w = if row % 2 == 0 {
            v.wrapping_add(1)
        } else {
            v.wrapping_sub(1)
        };
        self.write_reg16(p, w);
        Ok(2)
    }

    fn exec_accumulator_ops(&mut self, row: u8) -> (r: Result<u32, EmuError>)
        requires
            old(self)@.wf(),
            row < 8,
        ensures
            final(self)@.wf(),
            outcome(final(self)@, r) == accumulator_ops(old(self)@, row),
    {
        let a = self.r.a;
        match row {
            0 => self.r.a = self.rlc(a),
            1 => self.r.a = self.rrc(a),
            2 => self.r.a = self.rl(a),
            3 => self.r.a = self.rr(a),
            4 => self.daa(),
            5 => {
                self.r.a = !a;
                self.r.set_flag(Flag::H, true);
                self.r.set_flag(Flag::N, true);
            },
            6 => {
                self.r.set_flag(Flag::C, true);
                self.r.set_flag(Flag::H, false);
                self.r.set_flag(Flag::N, false);
            },
            _ => {
                let carry = self.r.get_flag(Flag::C);
                self.r.set_flag(Flag::C, !carry);
                self.r.set_flag(Flag::H, false);
                self.r.set_flag(Flag::N, false);
            },
        }
        Ok(1)
    }

    fn exec_low_block(&mut self, op: u8) -> (r: Result<u32, EmuError>)
        requires
            old(self)@.wf(),
            op < 0x40,
        ensures
            final(self)@.wf(),
            outcome(final(self)@, r) == low_block(old(self)@, op),
    {
        let row = op / 8;
        let col = op % 8;
        if col == 0 {
            self.exec_relative_jumps(row)
        } else if col == 1 {
            self.exec_wide_loads(row)
        } else if col == 2 {
            self.exec_indirect_loads(row)
        } else if col == 3 {
            self.exec_wide_steps(row)
        } else if col == 4 || col == 5 {
            let v = self.read_operand(row);
            let res = if col == 4 {
                self.inc(v)
            } else {
                self.dec(v)
            };
            match self.write_operand(row, res) {
                Ok(()) => Ok(
                    if row == 6 {
                        3
                    } else {
                        1
                    },
                ),
                Err(e) => Err(e),
            }
        } else if col == 6 {
            let v = self.fetch_byte();
            match self.write_operand(row, v) {
                Ok(()) => Ok(
                    if row == 6 {
                        3
                    } else {
                        2
                    },
                ),
                Err(e) => Err(e),
            }
        } else {
            self.exec_accumulator_ops(row)
        }
    }

    fn exec_returns_and_high_loads(&mut self, row: u8) -> (r: Result<u32, EmuError>)
        requires
            old(self)@.wf(),
            row < 8,
        ensures
            final(self)@.wf(),
            outcome(final(self)@, r) == returns_and_high_loads(old(self)@, row),
    {
        if row < 4 {
            if self.condition_holds(row) {
                self.r.pc = self.pop_stack();
                Ok(5)
            } else {
                Ok(2)
            }
        } else {
            let n = self.fetch_byte();
            if row == 4 {
                let a = self.r.a;
                match self.m.write_byte(0xFF00 + n as u16, a) {
                    Ok(()) => Ok(3),
                    Err(e) => Err(e),
                }
            } else if row == 5 {
                let (sp, f) = add_sp(self.r.sp, n);
                self.r.sp = sp;
                self.r.f = f;
                Ok(4)
            } else if row == 6 {
                self.r.a = self.m.read_byte(0xFF00 + n as u16);
                Ok(3)
            } else {
                let (w, f) = add_sp(self.r.sp, n);
                self.r.f = f;
                self.r.set_hl(w);
                Ok(3)
            }
        }
    }

    fn exec_pops_and_returns(&mut self, row: u8) -> (r: Result<u32, EmuError>)
        requires
            old(self)@.wf(),
            row < 8,
        ensures
            final(self)@.wf(),
            outcome(final(self)@, r) == pops_and_returns(old(self)@, row),
    {
        if row % 2 == 0 {
            let w = self.pop_stack();
            let p = row / 2;
            if p == 3 {
                self.r.set_af(w);
            } else {
                self.write_reg16(p, w);
            }
            Ok(3)
        } else if row == 1 || row == 3 {
            self.r.pc = self.pop_stack();
            if row == 3 {
                self.ime = true;
            }
            Ok(4)
        } else if row == 5 {
            self.r.pc = self.r.get_hl();
            Ok(1)
        } else {
            self.r.sp = self.r.get_hl();
            Ok(2)
        }
    }

    fn exec_jumps_and_far_loads(&mut self, row: u8) -> (r: Result<u32, EmuError>)
        requires
            old(self)@.wf(),
            row < 8,
        ensures
            final(self)@.wf(),
            outcome(final(self)@, r) == jumps_and_far_loads(old(self)@, row),
    {
        let high_c = 0xFF00 + self.r.c as u16;
        if row < 4 {
            if self.condition_holds(row) {
                self.r.pc = self.fetch_word();
                Ok(4)
            } else {
                self.r.pc = self.r.pc.wrapping_add(2);
                Ok(3)
            }
        } else if row == 4 || row == 5 {
            let addr = if row == 4 {
                high_c
            } else {
                self.fetch_word()
            };
            let a = self.r.a;
            match self.m.write_byte(addr, a) {
                Ok(()) => Ok(
                    if row == 4 {
                        2
                    } else {
                        4
                    },
                ),
                Err(e) => Err(e),
            }
        } else if row == 6 {
            self.r.a = self.m.read_byte(high_c);
            Ok(2)
        } else {
            let w = self.fetch_word();
            self.r.a = self.m.read_byte(w);
            Ok(4)
        }
    }

    fn exec_jump_and_interrupt_switches(&mut self, op: u8, at: u16) -> (r: Result<u32, EmuError>)
        requires
            old(self)@.wf(),
        ensures
            final(self)@.wf(),
            outcome(final(self)@, r) == jump_and_interrupt_switches(old(self)@, op, at),
    {
        let row = op / 8 % 8;
        if row == 0 {
            self.r.pc = self.fetch_word();
            Ok(4)
        } else if row == 6 || row == 7 {
            self.ime = row == 7;
            Ok(1)
        } else {
            Err(EmuError::UnimplementedOpcode { opcode: op, pc: at })
        }
    }

    fn exec_conditional_calls(&mut self, op: u8, at: u16) -> (r: Result<u32, EmuError>)
        requires
            old(self)@.wf(),
        ensures
            final(self)@.wf(),
            outcome(final(self)@, r) == conditional_calls(old(self)@, op, at),
    {
        let row = op / 8 % 8;
        if row >= 4 {
            Err(EmuError::UnimplementedOpcode { opcode: op, pc: at })
        } else if self.condition_holds(row) {
            self.exec_call_absolute()
        } else {
            self.r.pc = self.r.pc.wrapping_add(2);
            Ok(3)
        }
    }

    fn exec_pushes_and_call(&mut self, op: u8, at: u16) -> (r: Result<u32, EmuError>)
        requires
            old(self)@.wf(),
        ensures
            final(self)@.wf(),
            outcome(final(self)@, r) == pushes_and_call(old(self)@, op, at),
    {
        let row = op / 8 % 8;
        if row % 2 == 0 {
            let p = row / 2;
            let w = if p == 3 {
                self.r.get_af()
            } else {
                self.read_reg16(p)
            };
            match self.push_stack(w) {
                Ok(()) => Ok(4),
                Err(e) => Err(e),
            }
        } else if row == 1 {
            self.exec_call_absolute()
        } else {
            Err(EmuError::UnimplementedOpcode { opcode: op, pc: at })
        }
    }

    fn exec_high_block(&mut self, op: u8, at: u16) -> (r: Result<u32, EmuError>)
        requires
            old(self)@.wf(),
            0xC0 <= op,
            op != 0xCB,
        ensures
            final(self)@.wf(),
            outcome(final(self)@, r) == high_block(old(self)@, op, at),
    {
        let row = op / 8 % 8;
        let col = op % 8;
        if col == 0 {
            self.exec_returns_and_high_loads(row)
        } else if col == 1 {
            self.exec_pops_and_returns(row)
        } else if col == 2 {
            self.exec_jumps_and_far_loads(row)
        } else if col == 3 {
            self.exec_jump_and_interrupt_switches(op, at)
        } else if col == 4 {
            self.exec_conditional_calls(op, at)
        } else if col == 5 {
            self.exec_pushes_and_call(op, at)
        } else if col == 6 {
            let v = self.fetch_byte();
            self.alu(row, v);
            Ok(2)
        } else {
            match self.call_to(row as u16 * 8) {
                Ok(()) => Ok(4),
                Err(e) => Err(e),
            }
        }
    }

    fn exec_prefixed(&mut self, op: u8) -> (r: Result<u32, EmuError>)
        requires
            old(self)@.wf(),
        ensures
            final(self)@.wf(),
            outcome(final(self)@, r) == prefixed(old(self)@, op),
    {
        let i = op % 8;
        let k = op / 8 % 8;
        let v = self.read_operand(i);
        let mask: u8 = 1u8 << k;
        if 0x40 <= op && op < 0x80 {
            let carry = self.r.get_flag(Flag::C);
            self.r.f = flag_byte(v & mask == 0, false, true, carry);
            return Ok(
                if i == 6 {
                    3
                } else {
                    2
                },
            );
        }
        let res = if op < 0x40 {
            self.shift(k, v)
        } else if op < 0xC0 {
            v & !mask
        } else {
            v | mask
        };
        match self.write_operand(i, res) {
            Ok(()) => Ok(
                if i == 6 {
                    4
                } else {
                    2
                },
            ),
            Err(e) => Err(e),
        }
    }
}

} // verus!
