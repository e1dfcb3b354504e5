//! What one instruction does to the machine state: the primary opcode table
//! and the 0xCB-prefixed table, grouped by addressing-mode family, with the
//! cycle cost of each outcome.
use vstd::prelude::*;
use crate::alu::{
    adc_spec, add16_spec, add_spec, add_sp_spec, and_spec, bit_flags, bit_mask, cp_flags,
    daa_spec, dec_spec, inc_spec, or_spec, rl_spec, rlc_spec, rr_spec, rrc_spec, sbc_spec,
    sla_spec, sra_spec, srl_spec, sub_spec, swap_spec, xor_spec,
};
use crate::cpu::{CpuView, costed, wrap16};
use crate::error::EmuError;
use crate::registers::{Flag, Registers, flag_set, with_flag};

verus! {

/// 8-bit register operand `i` of an opcode: B, C, D, E, H, L, -, A for 0 to
/// 7 (6 names the byte at HL, which `CpuView::operand` reads).
pub open spec fn reg8(r: Registers, i: u8) -> u8 {
    if i == 0 {
        r.b
    } else if i == 1 {
        r.c
    } else if i == 2 {
        r.d
    } else if i == 3 {
        r.e
    } else if i == 4 {
        r.h
    } else if i == 5 {
        r.l
    } else {
        r.a
    }
}

/// The registers with 8-bit operand `i` set to `v`.
pub open spec fn set_reg8(r: Registers, i: u8, v: u8) -> Registers {
    if i == 0 {
        Registers { b: v, ..r }
    } else if i == 1 {
        Registers { c: v, ..r }
    } else if i == 2 {
        Registers { d: v, ..r }
    } else if i == 3 {
        Registers { e: v, ..r }
    } else if i == 4 {
        Registers { h: v, ..r }
    } else if i == 5 {
        Registers { l: v, ..r }
    } else {
        Registers { a: v, ..r }
    }
}

/// 16-bit register operand `p`: BC, DE, HL, SP for 0 to 3.
pub open spec fn reg16(r: Registers, p: u8) -> u16 {
    if p == 0 {
        r.bc()
    } else if p == 1 {
        r.de()
    } else if p == 2 {
        r.hl()
    } else {
        r.sp
    }
}

/// The registers with 16-bit operand `p` set to `w`.
pub open spec fn set_reg16(r: Registers, p: u8, w: u16) -> Registers {
    if p == 0 {
        r.with_bc(w)
    } else if p == 1 {
        r.with_de(w)
    } else if p == 2 {
        r.with_hl(w)
    } else {
        Registers { sp: w, ..r }
    }
}

/// Branch condition `c`: NZ, Z, NC, C for 0 to 3.
pub open spec fn condition(r: Registers, c: u8) -> bool {
    if c == 0 {
        !r.flag(Flag::Z)
    } else if c == 1 {
        r.flag(Flag::Z)
    } else if c == 2 {
        !r.flag(Flag::C)
    } else {
        r.flag(Flag::C)
    }
}

/// Accumulator operation `k`: ADD, ADC, SUB, SBC, AND, XOR, OR, CP.
pub open spec fn alu_op(k: u8, a: u8, v: u8, f: u8) -> (u8, u8) {
    if k == 0 {
        add_spec(a, v)
    } else if k == 1 {
        adc_spec(a, v, f)
    } else if k == 2 {
        sub_spec(a, v)
    } else if k == 3 {
        sbc_spec(a, v, f)
    } else if k == 4 {
        and_spec(a, v)
    } else if k == 5 {
        xor_spec(a, v)
    } else if k == 6 {
        or_spec(a, v)
    } else {
        (a, cp_flags(a, v))
    }
}

/// Rotate or shift `k` of the prefixed table: RLC, RRC, RL, RR, SLA, SRA,
/// SWAP, SRL.
pub open spec fn shift_op(k: u8, v: u8, f: u8) -> (u8, u8) {
    if k == 0 {
        rlc_spec(v)
    } else if k == 1 {
        rrc_spec(v)
    } else if k == 2 {
        rl_spec(v, f)
    } else if k == 3 {
        rr_spec(v, f)
    } else if k == 4 {
        sla_spec(v)
    } else if k == 5 {
        sra_spec(v)
    } else if k == 6 {
        swap_spec(v)
    } else {
        srl_spec(v)
    }
}

/// The cost of an operation on operand `i`: `mem` when it is the byte at
/// HL, `reg` otherwise.
pub open spec fn operand_cost(i: u8, reg: u32, mem: u32) -> u32 {
    if i == 6 {
        mem
    } else {
        reg
    }
}

impl CpuView {
    /// The value of 8-bit operand `i`.
    pub open spec fn operand(self, i: u8) -> u8 {
        if i == 6 {
            self.read(self.r.hl())
        } else {
            reg8(self.r, i)
        }
    }

    /// The state with 8-bit operand `i` set to `v`.
    pub open spec fn set_operand(self, i: u8, v: u8) -> Result<CpuView, EmuError> {
        if i == 6 {
            self.write(self.r.hl(), v)
        } else {
            Ok(self.with_regs(set_reg8(self.r, i, v)))
        }
    }

    /// HL moved by the post-increment (`p` == 2) or post-decrement (`p` == 3)
    /// of the indirect loads and stores.
    pub open spec fn step_hl(self, p: u8) -> CpuView {
        if p == 2 {
            self.with_regs(self.r.with_hl(wrap16(self.r.hl() + 1)))
        } else if p == 3 {
            self.with_regs(self.r.with_hl(wrap16(self.r.hl() + 0xFFFF)))
        } else {
            self
        }
    }
}

/// The address of indirect operand `p`: (BC), (DE), (HL+), (HL-).
pub open spec fn indirect_addr(r: Registers, p: u8) -> u16 {
    if p == 0 {
        r.bc()
    } else if p == 1 {
        r.de()
    } else {
        r.hl()
    }
}

/// Opcodes 0x40 to 0x7F but 0x76: LD between 8-bit operands.
pub open spec fn load_block(s: CpuView, op: u8) -> Result<(CpuView, u32), EmuError> {
    let dst = (op / 8 % 8) as u8;
    let src = op % 8;
    costed(
        s.set_operand(dst, s.operand(src)),
        if dst == 6 || src == 6 {
            2
        } else {
            1
        },
    )
}

/// Opcodes 0x80 to 0xBF: accumulator operations on 8-bit operands.
pub open spec fn alu_block(s: CpuView, op: u8) -> Result<(CpuView, u32), EmuError> {
    let i = op % 8;
    Ok((s.with_acc(alu_op((op / 8 % 8) as u8, s.r.a, s.operand(i), s.r.f)), operand_cost(i, 1, 2)))
}

/// Column 0 of opcodes 0x00 to 0x3F: NOP, LD (a16),SP, STOP, JR, JR cc.
pub open spec fn relative_jumps(s: CpuView, row: u8) -> Result<(CpuView, u32), EmuError> {
    if row == 0 || row == 2 {
        Ok((s, 1))
    } else if row == 1 {
        let (w, s2) = s.fetch_word();
        costed(s2.write_word(w, s2.r.sp), 5)
    } else if row == 3 || condition(s.r, (row - 4) as u8) {
        let (e, s2) = s.fetch_byte();
        Ok((s2.jump_relative(e), 3))
    } else {
        Ok((s.with_pc(wrap16(s.r.pc + 1)), 2))
    }
}

/// Column 1 of opcodes 0x00 to 0x3F: LD rr,d16 and ADD HL,rr.
pub open spec fn wide_loads(s: CpuView, row: u8) -> Result<(CpuView, u32), EmuError> {
    let p = (row / 2) as u8;
    if row % 2 == 0 {
        let (w, s2) = s.fetch_word();
        Ok((s2.with_regs(set_reg16(s2.r, p, w)), 3))
    } else {
        let (res, f) = add16_spec(s.r.hl(), reg16(s.r, p), s.r.f);
        Ok((s.with_regs(Registers { f, ..s.r }.with_hl(res)), 2))
    }
}

/// Column 2 of opcodes 0x00 to 0x3F: LD (rr),A and LD A,(rr), with HL
/// post-incremented or post-decremented for rows 4 to 7.
pub open spec fn indirect_loads(s: CpuView, row: u8) -> Result<(CpuView, u32), EmuError> {
    let p = (row / 2) as u8;
    let addr = indirect_addr(s.r, p);
    if row % 2 == 0 {
        match s.write(addr, s.r.a) {
            Ok(s2) => Ok((s2.step_hl(p), 2)),
            Err(e) => Err(e),
        }
    } else {
        Ok((s.with_regs(Registers { a: s.read(addr), ..s.r }).step_hl(p), 2))
    }
}

/// Column 3 of opcodes 0x00 to 0x3F: INC rr and DEC rr, flags untouched.
pub open spec fn wide_steps(s: CpuView, row: u8) -> Result<(CpuView, u32), EmuError> {
    let p = (row / 2) as u8;
    let v = reg16(s.r, p);
    let w = if row % 2 == 0 {
        wrap16(v + 1)
    } else {
        wrap16(v + 0xFFFF)
    };
    Ok((s.with_regs(set_reg16(s.r, p, w)), 2))
}

/// Column 7 of opcodes 0x00 to 0x3F: RLCA, RRCA, RLA, RRA, DAA, CPL, SCF,
/// CCF.
pub open spec fn accumulator_ops(s: CpuView, row: u8) -> Result<(CpuView, u32), EmuError> {
    let a = s.r.a;
    let f = s.r.f;
    let next = if row == 0 {
        s.with_acc(rlc_spec(a))
    } else if row == 1 {
        s.with_acc(rrc_spec(a))
    } else if row == 2 {
        s.with_acc(rl_spec(a, f))
    } else if row == 3 {
        s.with_acc(rr_spec(a, f))
    } else if row == 4 {
        s.with_acc(daa_spec(a, f))
    } else if row == 5 {
        s.with_acc((!a, with_flag(with_flag(f, Flag::H, true), Flag::N, true)))
    } else if row == 6 {
        s.with_f(with_flag(with_flag(with_flag(f, Flag::C, true), Flag::H, false), Flag::N, false))
    } else {
        s.with_f(
            with_flag(
                with_flag(with_flag(f, Flag::C, !flag_set(f, Flag::C)), Flag::H, false),
                Flag::N,
                false,
            ),
        )
    };
    Ok((next, 1))
}

/// Opcodes 0x00 to 0x3F.
pub open spec fn low_block(s: CpuView, op: u8) -> Result<(CpuView, u32), EmuError> {
    let row = op / 8;
    let col = op % 8;
    if col == 0 {
        relative_jumps(s, row)
    } else if col == 1 {
        wide_loads(s, row)
    } else if col == 2 {
        indirect_loads(s, row)
    } else if col == 3 {
        wide_steps(s, row)
    } else if col == 4 {
        let (res, f) = inc_spec(s.operand(row), s.r.f);
        costed(s.with_f(f).set_operand(row, res), operand_cost(row, 1, 3))
    } else if col == 5 {
        let (res, f) = dec_spec(s.operand(row), s.r.f);
        costed(s.with_f(f).set_operand(row, res), operand_cost(row, 1, 3))
    } else if col == 6 {
        let (v, s2) = s.fetch_byte();
        costed(s2.set_operand(row, v), operand_cost(row, 2, 3))
    } else {
        accumulator_ops(s, row)
    }
}

/// The state after a call to `target`: the address after the call pushed.
pub open spec fn call(s: CpuView, target: u16) -> Result<CpuView, EmuError> {
    match s.push(s.r.pc) {
        Ok(s2) => Ok(s2.with_pc(target)),
        Err(e) => Err(e),
    }
}

/// CALL a16: fetches the target, pushes the address after it, jumps.
#[verifier::opaque]
pub open spec fn call_absolute(s: CpuView) -> Result<(CpuView, u32), EmuError> {
    let (w, s2) = s.fetch_word();
    costed(call(s2, w), 6)
}

/// Column 0 of opcodes 0xC0 to 0xFF: RET cc, LDH (a8),A, ADD SP,e8,
/// LDH A,(a8), LD HL,SP+e8.
pub open spec fn returns_and_high_loads(s: CpuView, row: u8) -> Result<(CpuView, u32), EmuError> {
    if row < 4 {
        if condition(s.r, row) {
            let (w, s2) = s.pop();
            Ok((s2.with_pc(w), 5))
        } else {
            Ok((s, 2))
        }
    } else {
        let (n, s2) = s.fetch_byte();
        if row == 4 {
            costed(s2.write((0xFF00 + n) as u16, s2.r.a), 3)
        } else if row == 5 {
            let (sp, f) = add_sp_spec(s2.r.sp, n);
            Ok((s2.with_regs(Registers { sp, f, ..s2.r }), 4))
        } else if row == 6 {
            Ok((s2.with_regs(Registers { a: s2.read((0xFF00 + n) as u16), ..s2.r }), 3))
        } else {
            let (w, f) = add_sp_spec(s2.r.sp, n);
            Ok((s2.with_regs(Registers { f, ..s2.r }.with_hl(w)), 3))
        }
    }
}

/// Column 1 of opcodes 0xC0 to 0xFF: POP rr, RET, RETI, JP HL, LD SP,HL.
pub open spec fn pops_and_returns(s: CpuView, row: u8) -> Result<(CpuView, u32), EmuError> {
    if row % 2 == 0 {
        let (w, s2) = s.pop();
        let p = (row / 2) as u8;
        let r = if p == 3 {
            s2.r.with_af(w)
        } else {
            set_reg16(s2.r, p, w)
        };
        Ok((s2.with_regs(r), 3))
    } else if row == 1 || row == 3 {
        let (w, s2) = s.pop();
        Ok((CpuView { ime: s2.ime || row == 3, ..s2.with_pc(w) }, 4))
    } else if row == 5 {
        Ok((s.with_pc(s.r.hl()), 1))
    } else {
        Ok((s.with_sp(s.r.hl()), 2))
    }
}

/// Column 2 of opcodes 0xC0 to 0xFF: JP cc and the loads through (C) and
/// (a16).
pub open spec fn jumps_and_far_loads(s: CpuView, row: u8) -> Result<(CpuView, u32), EmuError> {
    let high_c = (0xFF00 + s.r.c) as u16;
    if row < 4 {
        if condition(s.r, row) {
            let (w, s2) = s.fetch_word();
            Ok((s2.with_pc(w), 4))
        } else {
            Ok((s.with_pc(wrap16(s.r.pc + 2)), 3))
        }
    } else if row == 4 {
        costed(s.write(high_c, s.r.a), 2)
    } else if row == 5 {
        let (w, s2) = s.fetch_word();
        costed(s2.write(w, s2.r.a), 4)
    } else if row == 6 {
        Ok((s.with_regs(Registers { a: s.read(high_c), ..s.r }), 2))
    } else {
        let (w, s2) = s.fetch_word();
        Ok((s2.with_regs(Registers { a: s2.read(w), ..s2.r }), 4))
    }
}

/// Column 3 of opcodes 0xC0 to 0xFF: JP a16, DI, EI; the rest has no
/// handler (0xCB is dispatched before).
pub open spec fn jump_and_interrupt_switches(s: CpuView, op: u8, at: u16) -> Result<(CpuView, u32), EmuError> {
    let row = op / 8 % 8;
    if row == 0 {
        let (w, s2) = s.fetch_word();
        Ok((s2.with_pc(w), 4))
    } else if row == 6 || row == 7 {
        Ok((CpuView { ime: row == 7, ..s }, 1))
    } else {
        Err(EmuError::UnimplementedOpcode { opcode: op, pc: at })
    }
}

/// Column 4 of opcodes 0xC0 to 0xFF: CALL cc in rows 0 to 3, no handler in
/// the others.
pub open spec fn conditional_calls(s: CpuView, op: u8, at: u16) -> Result<(CpuView, u32), EmuError> {
    let row = (op / 8 % 8) as u8;
    if row >= 4 {
        Err(EmuError::UnimplementedOpcode { opcode: op, pc: at })
    } else if condition(s.r, row) {
        call_absolute(s)
    } else {
        Ok((s.with_pc(wrap16(s.r.pc + 2)), 3))
    }
}

/// Column 5 of opcodes 0xC0 to 0xFF: PUSH rr in the even rows, CALL a16,
/// no handler in the other odd rows.
pub open spec fn pushes_and_call(s: CpuView, op: u8, at: u16) -> Result<(CpuView, u32), EmuError> {
    let row = op / 8 % 8;
    if row % 2 == 0 {
        let p = (row / 2) as u8;
        let w = if p == 3 {
            s.r.af()
        } else {
            reg16(s.r, p)
        };
        costed(s.push(w), 4)
    } else if row == 1 {
        call_absolute(s)
    } else {
        Err(EmuError::UnimplementedOpcode { opcode: op, pc: at })
    }
}

/// Opcodes 0xC0 to 0xFF but 0xCB; `at` is the address the opcode was
/// fetched from.
pub open spec fn high_block(s: CpuView, op: u8, at: u16) -> Result<(CpuView, u32), EmuError> {
    let row = (op / 8 % 8) as u8;
    let col = op % 8;
    if col == 0 {
        returns_and_high_loads(s, row)
    } else if col == 1 {
        pops_and_returns(s, row)
    } else if col == 2 {
        jumps_and_far_loads(s, row)
    } else if col == 3 {
        jump_and_interrupt_switches(s, op, at)
    } else if col == 4 {
        conditional_calls(s, op, at)
    } else if col == 5 {
        pushes_and_call(s, op, at)
    } else if col == 6 {
        let (v, s2) = s.fetch_byte();
        Ok((s2.with_acc(alu_op(row, s2.r.a, v, s2.r.f)), 2))
    } else {
        costed(call(s, (row * 8) as u16), 4)
    }
}

/// The 0xCB-prefixed opcodes: rotates and shifts, BIT, RES, SET.
pub open spec fn prefixed(s: CpuView, op: u8) -> Result<(CpuView, u32), EmuError> {
    let i = op % 8;
    let k = (op / 8 % 8) as u8;
    let v = s.operand(i);
    if op < 0x40 {
        let (res, f) = shift_op(k, v, s.r.f);
        costed(s.with_f(f).set_operand(i, res), operand_cost(i, 2, 4))
    } else if op < 0x80 {
        Ok((s.with_f(bit_flags(k, v, s.r.f)), operand_cost(i, 2, 3)))
    } else if op < 0xC0 {
        costed(s.set_operand(i, v & !bit_mask(k)), operand_cost(i, 2, 4))
    } else {
        costed(s.set_operand(i, v | bit_mask(k)), operand_cost(i, 2, 4))
    }
}

/// Executes opcode `op`, fetched from `at`, in state `s` (PC already past
/// the opcode).
pub open spec fn execute(s: CpuView, op: u8, at: u16) -> Result<(CpuView, u32), EmuError> {
    if op == 0x76 {
        Ok((CpuView { halted: true, ..s }, 1))
    } else if 0x40 <= op < 0x80 {
        load_block(s, op)
    } else if 0x80 <= op < 0xC0 {
        alu_block(s, op)
    } else if op < 0x40 {
        low_block(s, op)
    } else if op == 0xCB {
        let (cb, s2) = s.fetch_byte();
        prefixed(s2, cb)
    } else {
        high_block(s, op, at)
    }
}

/// One instruction from state `s` when running.
pub open spec fn run_one(s: CpuView) -> Result<(CpuView, u32), EmuError> {
    let (op, s1) = s.fetch_byte();
    execute(s1, op, s.r.pc)
}

/// One machine step: a one-cycle tick while halted, else one instruction.
pub open spec fn step(s: CpuView) -> Result<(CpuView, u32), EmuError> {
    if s.halted {
        Ok((s, 1))
    } else {
        run_one(s)
    }
}

/// HALT stops the engine: from a running state whose next opcode is 0x76,
/// one step costs one cycle and reaches a halted state with PC just past the
/// opcode; every later step costs one cycle and changes nothing, so PC does
/// not move and nothing more is fetched.
pub proof fn lemma_halt(s: CpuView)
    requires
        !s.halted,
        s.read(s.r.pc) == 0x76,
    ensures
        ({
            let h = CpuView { halted: true, ..s.with_pc(wrap16(s.r.pc + 1)) };
            &&& step(s) == Ok::<(CpuView, u32), EmuError>((h, 1))
            &&& step(h) == Ok::<(CpuView, u32), EmuError>((h, 1))
        }),
{
}

} // verus!
