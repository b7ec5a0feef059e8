//! The SM83 CPU: register file, instruction semantics and interrupt dispatch.
use vstd::prelude::*;
use crate::memory::{Bus, BusModel, bus_read, bus_write};

verus! {

/// Flag bits of F.
pub const Z_FLAG: u8 = 0x80;

pub const N_FLAG: u8 = 0x40;

pub const H_FLAG: u8 = 0x20;

pub const C_FLAG: u8 = 0x10;

/// The register file.
#[derive(Clone, Copy)]
pub struct Registers {
    pub a: u8,
    pub f: u8,
    pub b: u8,
    pub c: u8,
    pub d: u8,
    pub e: u8,
    pub h: u8,
    pub l: u8,
    pub sp: u16,
    pub pc: u16,
}

/// The CPU: registers, the interrupt master enable and the HALT state.
#[derive(Clone, Copy)]
pub struct Cpu {
    pub regs: Registers,
    pub ime: bool,
    pub halted: bool,
}

/// The CPU together with everything behind the bus.
pub struct Machine {
    pub cpu: Cpu,
    pub bus: BusModel,
}

pub open spec fn mach(cpu: Cpu, bus: BusModel) -> Machine {
    Machine { cpu, bus }
}

// ---------------------------------------------------------------------------
// Words, bytes and flags
// ---------------------------------------------------------------------------

/// The 16-bit word with high byte `hi` and low byte `lo`.
pub open spec fn pair(hi: u8, lo: u8) -> u16 {
    ((hi as u16) << 8u16) | (lo as u16)
}

pub open spec fn hi_byte(v: u16) -> u8 {
    (v >> 8u16) as u8
}

pub open spec fn lo_byte(v: u16) -> u8 {
    v as u8
}

/// `x` modulo 256.
pub open spec fn wrap8(x: int) -> u8 {
    (x % 256) as u8
}

/// `a + b` modulo 0x10000.
pub open spec fn add16(a: u16, b: u16) -> u16 {
    if a + b > 0xFFFF { (a + b - 0x10000) as u16 } else { (a + b) as u16 }
}

/// `a - b` modulo 0x10000.
pub open spec fn sub16(a: u16, b: u16) -> u16 {
    if a - b < 0 { (a - b + 0x10000) as u16 } else { (a - b) as u16 }
}

/// `base` plus the two's-complement value of `off`, modulo 0x10000.
pub open spec fn offset16(base: u16, off: u8) -> u16 {
    if off < 128 { add16(base, off as u16) } else { sub16(base, (256 - off) as u16) }
}

/// F with the given Z, N, H and C flags and a zero low nibble.
pub open spec fn flags(z: bool, n: bool, h: bool, c: bool) -> u8 {
    (if z { Z_FLAG } else { 0 }) | (if n { N_FLAG } else { 0 }) | (if h { H_FLAG } else { 0 }) | (if c {
        C_FLAG
    } else {
        0
    })
}

/// Whether flag `mask` is set in `f`.
pub open spec fn flag(f: u8, mask: u8) -> bool {
    f & mask != 0
}

impl Registers {
    pub open spec fn bc(self) -> u16 {
        pair(self.b, self.c)
    }

    pub open spec fn de(self) -> u16 {
        pair(self.d, self.e)
    }

    pub open spec fn hl(self) -> u16 {
        pair(self.h, self.l)
    }

    pub open spec fn af(self) -> u16 {
        pair(self.a, self.f)
    }

    pub open spec fn with_bc(self, v: u16) -> Registers {
        Registers { b: hi_byte(v), c: lo_byte(v), ..self }
    }

    pub open spec fn with_de(self, v: u16) -> Registers {
        Registers { d: hi_byte(v), e: lo_byte(v), ..self }
    }

    pub open spec fn with_hl(self, v: u16) -> Registers {
        Registers { h: hi_byte(v), l: lo_byte(v), ..self }
    }

    /// AF takes the low nibble of F as zero.
    pub open spec fn with_af(self, v: u16) -> Registers {
        Registers { a: hi_byte(v), f: lo_byte(v) & 0xF0, ..self }
    }

    /// BC, DE, HL or SP by the two-bit index of a 16-bit instruction.
    pub open spec fn rr(self, idx: u8) -> u16 {
        if idx == 0 {
            self.bc()
        } else if idx == 1 {
            self.de()
        } else if idx == 2 {
            self.hl()
        } else {
            self.sp
        }
    }

    pub open spec fn with_rr(self, idx: u8, v: u16) -> Registers {
        if idx == 0 {
            self.with_bc(v)
        } else if idx == 1 {
            self.with_de(v)
        } else if idx == 2 {
            self.with_hl(v)
        } else {
            Registers { sp: v, ..self }
        }
    }

    /// BC, DE, HL or AF by the two-bit index of PUSH and POP.
    pub open spec fn qq(self, idx: u8) -> u16 {
        if idx == 3 { self.af() } else { self.rr(idx) }
    }

    pub open spec fn with_qq(self, idx: u8, v: u16) -> Registers {
        if idx == 3 { self.with_af(v) } else { self.with_rr(idx, v) }
    }

    /// Register B, C, D, E, H, L or A by its three-bit code (6 is not a register).
    pub open spec fn reg8(self, code: u8) -> u8 {
        if code == 0 {
            self.b
        } else if code == 1 {
            self.c
        } else if code == 2 {
            self.d
        } else if code == 3 {
            self.e
        } else if code == 4 {
            self.h
        } else if code == 5 {
            self.l
        } else {
            self.a
        }
    }

    pub open spec fn with_reg8(self, code: u8, v: u8) -> Registers {
        if code == 0 {
            Registers { b: v, ..self }
        } else if code == 1 {
            Registers { c: v, ..self }
        } else if code == 2 {
            Registers { d: v, ..self }
        } else if code == 3 {
            Registers { e: v, ..self }
        } else if code == 4 {
            Registers { h: v, ..self }
        } else if code == 5 {
            Registers { l: v, ..self }
        } else {
            Registers { a: v, ..self }
        }
    }
}

// ---------------------------------------------------------------------------
// ALU
// ---------------------------------------------------------------------------

pub open spec fn bit01(b: bool) -> int {
    if b { 1 } else { 0 }
}

/// ADD (`cin` false) and ADC: the new A and F.
pub open spec fn alu_add(a: u8, v: u8, cin: bool) -> (u8, u8) {
    let c = bit01(cin);
    let r = wrap8(a + v + c);
    (r, flags(r == 0, false, (a & 0x0F) + (v & 0x0F) + c > 0x0F, a + v + c > 0xFF))
}

/// SUB (`cin` false) and SBC: the new A and F.
pub open spec fn alu_sub(a: u8, v: u8, cin: bool) -> (u8, u8) {
    let c = bit01(cin);
    let r = wrap8(a - v - c);
    (r, flags(r == 0, true, (a & 0x0F) < (v & 0x0F) + c, a < v + c))
}

/// The eight accumulator operations by their three-bit index
/// (ADD, ADC, SUB, SBC, AND, XOR, OR, CP): the new A and F.
pub open spec fn alu(kind: u8, a: u8, f: u8, v: u8) -> (u8, u8) {
    if kind == 0 {
        alu_add(a, v, false)
    } else if kind == 1 {
        alu_add(a, v, flag(f, C_FLAG))
    } else if kind == 2 {
        alu_sub(a, v, false)
    } else if kind == 3 {
        alu_sub(a, v, flag(f, C_FLAG))
    } else if kind == 4 {
        (a & v, flags(a & v == 0, false, true, false))
    } else if kind == 5 {
        (a ^ v, flags(a ^ v == 0, false, false, false))
    } else if kind == 6 {
        (a | v, flags(a | v == 0, false, false, false))
    } else {
        (a, alu_sub(a, v, false).1)
    }
}

/// INC of an 8-bit value: the result and F (C kept).
pub open spec fn inc8(v: u8, f: u8) -> (u8, u8) {
    let r = wrap8(v + 1);
    (r, flags(r == 0, false, v & 0x0F == 0x0F, flag(f, C_FLAG)))
}

/// DEC of an 8-bit value: the result and F (C kept).
pub open spec fn dec8(v: u8, f: u8) -> (u8, u8) {
    let r = wrap8(v - 1);
    (r, flags(r == 0, true, v & 0x0F == 0, flag(f, C_FLAG)))
}

/// The rotates and shifts by their three-bit index (RLC, RRC, RL, RR, SLA,
/// SRA, SWAP, SRL), with carry in `cin`: the result and the carry out.
pub open spec fn shift(kind: u8, v: u8, cin: bool) -> (u8, bool) {
    let ci: u8 = if cin { 1 } else { 0 };
    if kind == 0 {
        ((v << 1u8) | (v >> 7u8), v & 0x80 != 0)
    } else if kind == 1 {
        ((v >> 1u8) | ((v & 1) << 7u8), v & 1 != 0)
    } else if kind == 2 {
        ((v << 1u8) | ci, v & 0x80 != 0)
    } else if kind == 3 {
        ((v >> 1u8) | (ci << 7u8), v & 1 != 0)
    } else if kind == 4 {
        (v << 1u8, v & 0x80 != 0)
    } else if kind == 5 {
        ((v >> 1u8) | (v & 0x80), v & 1 != 0)
    } else if kind == 6 {
        ((v << 4u8) | (v >> 4u8), false)
    } else {
        (v >> 1u8, v & 1 != 0)
    }
}

/// DAA: A adjusted to packed BCD after an addition or subtraction, and F.
pub open spec fn daa(a: u8, f: u8) -> (u8, u8) {
    let n = flag(f, N_FLAG);
    let lo = flag(f, H_FLAG) || (!n && (a & 0x0F) > 9);
    let hi = flag(f, C_FLAG) || (!n && a > 0x99);
    let adjust: u8 = (if lo { 0x06u8 } else { 0 }) | (if hi { 0x60u8 } else { 0 });
    let r = if n { wrap8(a - adjust) } else { wrap8(a + adjust) };
    (r, flags(r == 0, n, false, flag(f, C_FLAG) || hi))
}

/// ADD HL,rr: the new HL and F (Z kept).
pub open spec fn add_hl16(hl: u16, v: u16, f: u8) -> (u16, u8) {
    (add16(hl, v), flags(flag(f, Z_FLAG), false, (hl & 0x0FFF) + (v & 0x0FFF) > 0x0FFF, hl + v > 0xFFFF))
}

/// SP plus a signed byte, as ADD SP,e and LD HL,SP+e compute it: the sum and F.
pub open spec fn sp_offset(sp: u16, e: u8) -> (u16, u8) {
    (offset16(sp, e), flags(false, false, (sp & 0x0F) + (e & 0x0F) > 0x0F, (sp & 0xFF) + e > 0xFF))
}

/// Condition code by its two-bit index: NZ, Z, NC, C.
pub open spec fn cond(f: u8, cc: u8) -> bool {
    if cc == 0 {
        !flag(f, Z_FLAG)
    } else if cc == 1 {
        flag(f, Z_FLAG)
    } else if cc == 2 {
        !flag(f, C_FLAG)
    } else {
        flag(f, C_FLAG)
    }
}

// ---------------------------------------------------------------------------
// Machine steps
// ---------------------------------------------------------------------------

pub open spec fn rd(s: Machine, addr: u16) -> u8 {
    bus_read(s.bus, addr)
}

pub open spec fn wr(s: Machine, addr: u16, v: u8) -> Machine {
    Machine { bus: bus_write(s.bus, addr, v), ..s }
}

pub open spec fn with_regs(s: Machine, r: Registers) -> Machine {
    Machine { cpu: Cpu { regs: r, ..s.cpu }, ..s }
}

/// The byte at PC.
pub open spec fn imm8(s: Machine) -> u8 {
    rd(s, s.cpu.regs.pc)
}

/// The little-endian word at PC.
pub open spec fn imm16(s: Machine) -> u16 {
    pair(rd(s, add16(s.cpu.regs.pc, 1)), rd(s, s.cpu.regs.pc))
}

/// PC moved past one byte.
pub open spec fn skip1(s: Machine) -> Machine {
    with_regs(s, Registers { pc: add16(s.cpu.regs.pc, 1), ..s.cpu.regs })
}

pub open spec fn skip2(s: Machine) -> Machine {
    skip1(skip1(s))
}

/// The operand by three-bit code: a register, or the byte at HL for 6.
pub open spec fn operand(s: Machine, code: u8) -> u8 {
    if code == 6 { rd(s, s.cpu.regs.hl()) } else { s.cpu.regs.reg8(code) }
}

/// Stores into the operand by three-bit code.
pub open spec fn store(s: Machine, code: u8, v: u8) -> Machine {
    if code == 6 { wr(s, s.cpu.regs.hl(), v) } else { with_regs(s, s.cpu.regs.with_reg8(code, v)) }
}

pub open spec fn with_a_f(s: Machine, af: (u8, u8)) -> Machine {
    with_regs(s, Registers { a: af.0, f: af.1, ..s.cpu.regs })
}

pub open spec fn with_f(s: Machine, f: u8) -> Machine {
    with_regs(s, Registers { f, ..s.cpu.regs })
}

pub open spec fn with_pc(s: Machine, pc: u16) -> Machine {
    with_regs(s, Registers { pc, ..s.cpu.regs })
}

/// PUSH: high byte at SP - 1, low byte at SP - 2, and SP lowered by two.
pub open spec fn push(s: Machine, v: u16) -> Machine {
    let sp1 = sub16(s.cpu.regs.sp, 1);
    let sp2 = sub16(sp1, 1);
    let s1 = wr(s, sp1, hi_byte(v));
    let s2 = wr(s1, sp2, lo_byte(v));
    with_regs(s2, Registers { sp: sp2, ..s.cpu.regs })
}

/// The word that POP takes from the stack.
pub open spec fn pop_value(s: Machine) -> u16 {
    pair(rd(s, add16(s.cpu.regs.sp, 1)), rd(s, s.cpu.regs.sp))
}

/// SP after POP.
pub open spec fn pop_sp(s: Machine) -> Machine {
    with_regs(s, Registers { sp: add16(add16(s.cpu.regs.sp, 1), 1), ..s.cpu.regs })
}

/// CALL: the target word is read, and where `taken` the return address is pushed.
pub open spec fn call_spec(s: Machine, taken: bool) -> (Machine, u32) {
    let s1 = skip2(s);
    if taken {
        (with_pc(push(s1, s1.cpu.regs.pc), imm16(s)), 6)
    } else {
        (s1, 3)
    }
}

/// RET: where `taken`, PC is popped.
pub open spec fn ret_spec(s: Machine, taken: bool) -> (Machine, u32) {
    if taken {
        (with_pc(pop_sp(s), pop_value(s)), 4)
    } else {
        (s, 2)
    }
}

/// JP nn: the target word is read, and taken where `taken`.
pub open spec fn jp_spec(s: Machine, taken: bool) -> (Machine, u32) {
    let s1 = skip2(s);
    if taken {
        (with_pc(s1, imm16(s)), 4)
    } else {
        (s1, 3)
    }
}

/// JR e: the offset is read, and added to PC where `taken`.
pub open spec fn jr_spec(s: Machine, taken: bool) -> (Machine, u32) {
    let s1 = skip1(s);
    if taken {
        (with_pc(s1, offset16(s1.cpu.regs.pc, imm8(s))), 3)
    } else {
        (s1, 2)
    }
}

/// RST: PC pushed, then PC at `addr`.
pub open spec fn rst_spec(s: Machine, addr: u16) -> Machine {
    with_pc(push(s, s.cpu.regs.pc), addr)
}

/// The 16-bit index of an opcode (bits 5..4).
pub open spec fn rr_index(op: u8) -> u8 {
    (op >> 4u8) & 0x03
}

/// The destination / operation code of an opcode (bits 5..3).
pub open spec fn mid_code(op: u8) -> u8 {
    (op >> 3u8) & 0x07
}

/// The condition code of a conditional jump, call or return (bits 4..3).
pub open spec fn cc_code(op: u8) -> u8 {
    (op >> 3u8) & 0x03
}

/// Opcodes 0x00..=0x3F, with PC past the opcode.
pub open spec fn exec_block0(s: Machine, op: u8) -> (Machine, u32) {
    let r = s.cpu.regs;
    let low = op & 0x0F;
    let lo3 = op & 0x07;
    if op == 0x00 {
        (s, 1)
    } else if op == 0x10 {
        (skip1(s), 1)
    } else if low == 0x01 {
        let s1 = skip2(s);
        (with_regs(s1, s1.cpu.regs.with_rr(rr_index(op), imm16(s))), 3)
    } else if op == 0x02 {
        (wr(s, r.bc(), r.a), 2)
    } else if op == 0x12 {
        (wr(s, r.de(), r.a), 2)
    } else if op == 0x0A {
        (with_regs(s, Registers { a: rd(s, r.bc()), ..r }), 2)
    } else if op == 0x1A {
        (with_regs(s, Registers { a: rd(s, r.de()), ..r }), 2)
    } else if op == 0x22 {
        (with_regs(wr(s, r.hl(), r.a), r.with_hl(add16(r.hl(), 1))), 2)
    } else if op == 0x2A {
        (with_regs(s, Registers { a: rd(s, r.hl()), ..r }.with_hl(add16(r.hl(), 1))), 2)
    } else if op == 0x32 {
        (with_regs(wr(s, r.hl(), r.a), r.with_hl(sub16(r.hl(), 1))), 2)
    } else if op == 0x3A {
        (with_regs(s, Registers { a: rd(s, r.hl()), ..r }.with_hl(sub16(r.hl(), 1))), 2)
    } else if low == 0x03 {
        (with_regs(s, r.with_rr(rr_index(op), add16(r.rr(rr_index(op)), 1))), 2)
    } else if low == 0x0B {
        (with_regs(s, r.with_rr(rr_index(op), sub16(r.rr(rr_index(op)), 1))), 2)
    } else if lo3 == 0x04 {
        let res = inc8(operand(s, mid_code(op)), r.f);
        (store(with_f(s, res.1), mid_code(op), res.0), if mid_code(op) == 6 { 3u32 } else { 1u32 })
    } else if lo3 == 0x05 {
        let res = dec8(operand(s, mid_code(op)), r.f);
        (store(with_f(s, res.1), mid_code(op), res.0), if mid_code(op) == 6 { 3u32 } else { 1u32 })
    } else if lo3 == 0x06 {
        (store(skip1(s), mid_code(op), imm8(s)), if mid_code(op) == 6 { 3u32 } else { 2u32 })
    } else if lo3 == 0x07 && op <= 0x1F {
        let res = shift(mid_code(op), r.a, flag(r.f, C_FLAG));
        (with_a_f(s, (res.0, flags(false, false, false, res.1))), 1)
    } else if op == 0x08 {
        let s1 = skip2(s);
        let addr = imm16(s);
        (wr(wr(s1, addr, lo_byte(r.sp)), add16(addr, 1), hi_byte(r.sp)), 5)
    } else if low == 0x09 {
        let res = add_hl16(r.hl(), r.rr(rr_index(op)), r.f);
        (with_regs(s, Registers { f: res.1, ..r }.with_hl(res.0)), 2)
    } else if op == 0x18 || op == 0x20 || op == 0x28 || op == 0x30 || op == 0x38 {
        jr_spec(s, op == 0x18 || cond(r.f, cc_code(op)))
    } else if op == 0x27 {
        (with_a_f(s, daa(r.a, r.f)), 1)
    } else if op == 0x2F {
        (with_a_f(s, (!r.a, flags(flag(r.f, Z_FLAG), true, true, flag(r.f, C_FLAG)))), 1)
    } else if op == 0x37 {
        (with_f(s, flags(flag(r.f, Z_FLAG), false, false, true)), 1)
    } else {
        // 0x3F: CCF
        (with_f(s, flags(flag(r.f, Z_FLAG), false, false, !flag(r.f, C_FLAG))), 1)
    }
}

/// Opcodes 0x40..=0x7F: register-to-register loads, and HALT at 0x76.
pub open spec fn exec_block1(s: Machine, op: u8) -> (Machine, u32) {
    if op == 0x76 {
        (Machine { cpu: Cpu { halted: true, ..s.cpu }, ..s }, 1)
    } else {
        let src = op & 0x07;
        let dst = mid_code(op);
        (store(s, dst, operand(s, src)), if src == 6 || dst == 6 { 2u32 } else { 1u32 })
    }
}

/// Opcodes 0x80..=0xBF: accumulator operations on a register or (HL).
pub open spec fn exec_block2(s: Machine, op: u8) -> (Machine, u32) {
    let r = s.cpu.regs;
    (with_a_f(s, alu(mid_code(op), r.a, r.f, operand(s, op & 0x07))), 1)
}

/// CB-prefixed opcodes, with PC at the second byte.
pub open spec fn exec_cb(s: Machine) -> (Machine, u32) {
    let op = imm8(s);
    let s1 = skip1(s);
    let code = op & 0x07;
    let v = operand(s1, code);
    let f = s1.cpu.regs.f;
    let bit = mid_code(op);
    let slow = code == 6;
    if op < 0x40 {
        let res = shift(bit, v, flag(f, C_FLAG));
        (store(with_f(s1, flags(res.0 == 0, false, false, res.1)), code, res.0), if slow { 4u32 } else { 2u32 })
    } else if op < 0x80 {
        (with_f(s1, flags(v & (1u8 << bit) == 0, false, true, flag(f, C_FLAG))), if slow { 3u32 } else { 2u32 })
    } else if op < 0xC0 {
        (store(s1, code, v & !(1u8 << bit)), if slow { 4u32 } else { 2u32 })
    } else {
        (store(s1, code, v | (1u8 << bit)), if slow { 4u32 } else { 2u32 })
    }
}

/// Opcodes 0xC0..=0xFF, with PC past the opcode.
pub open spec fn exec_block3(s: Machine, op: u8) -> (Machine, u32) {
    let r = s.cpu.regs;
    let low = op & 0x0F;
    let lo3 = op & 0x07;
    if op == 0xC0 || op == 0xC8 || op == 0xD0 || op == 0xD8 || op == 0xC9 {
        ret_spec(s, op == 0xC9 || cond(r.f, cc_code(op)))
    } else if op == 0xD9 {
        let s1 = with_pc(pop_sp(s), pop_value(s));
        (Machine { cpu: Cpu { ime: true, ..s1.cpu }, ..s1 }, 4)
    } else if low == 0x01 {
        let s1 = pop_sp(s);
        (with_regs(s1, s1.cpu.regs.with_qq(rr_index(op), pop_value(s))), 3)
    } else if low == 0x05 {
        (push(s, r.qq(rr_index(op))), 4)
    } else if op == 0xC2 || op == 0xCA || op == 0xD2 || op == 0xDA || op == 0xC3 {
        jp_spec(s, op == 0xC3 || cond(r.f, cc_code(op)))
    } else if op == 0xC4 || op == 0xCC || op == 0xD4 || op == 0xDC || op == 0xCD {
        call_spec(s, op == 0xCD || cond(r.f, cc_code(op)))
    } else if lo3 == 0x06 {
        (with_a_f(skip1(s), alu(mid_code(op), r.a, r.f, imm8(s))), 2)
    } else if lo3 == 0x07 {
        (rst_spec(s, (op & 0x38) as u16), 4)
    } else if op == 0xCB {
        exec_cb(s)
    } else if op == 0xE0 {
        (wr(skip1(s), add16(0xFF00, imm8(s) as u16), r.a), 3)
    } else if op == 0xF0 {
        let s1 = skip1(s);
        (with_regs(s1, Registers { a: rd(s, add16(0xFF00, imm8(s) as u16)), ..s1.cpu.regs }), 3)
    } else if op == 0xE2 {
        (wr(s, add16(0xFF00, r.c as u16), r.a), 2)
    } else if op == 0xF2 {
        (with_regs(s, Registers { a: rd(s, add16(0xFF00, r.c as u16)), ..r }), 2)
    } else if op == 0xEA {
        (wr(skip2(s), imm16(s), r.a), 4)
    } else if op == 0xFA {
        let s1 = skip2(s);
        (with_regs(s1, Registers { a: rd(s, imm16(s)), ..s1.cpu.regs }), 4)
    } else if op == 0xE8 {
        let s1 = skip1(s);
        let res = sp_offset(r.sp, imm8(s));
        (with_regs(s1, Registers { sp: res.0, f: res.1, ..s1.cpu.regs }), 4)
    } else if op == 0xF8 {
        let s1 = skip1(s);
        let res = sp_offset(r.sp, imm8(s));
        (with_regs(s1, Registers { f: res.1, ..s1.cpu.regs }.with_hl(res.0)), 3)
    } else if op == 0xE9 {
        (with_pc(s, r.hl()), 1)
    } else if op == 0xF9 {
        (with_regs(s, Registers { sp: r.hl(), ..r }), 2)
    } else if op == 0xF3 {
        (Machine { cpu: Cpu { ime: false, ..s.cpu }, ..s }, 1)
    } else if op == 0xFB {
        (Machine { cpu: Cpu { ime: true, ..s.cpu }, ..s }, 1)
    } else {
        // Opcodes without an instruction run as NOP.
        (s, 1)
    }
}

/// Executes opcode `op`, with PC already past it: the new state and the
/// machine cycles taken.
pub open spec fn execute(s: Machine, op: u8) -> (Machine, u32) {
    if op < 0x40 {
        exec_block0(s, op)
    } else if op < 0x80 {
        exec_block1(s, op)
    } else if op < 0xC0 {
        exec_block2(s, op)
    } else {
        exec_block3(s, op)
    }
}

/// Interrupts that are both requested and enabled.
pub open spec fn pending(b: BusModel) -> u8 {
    b.iflag & b.ie & 0x1F
}

/// Interrupt dispatch: IME off, PC pushed, the highest-priority pending
/// source's IF bit cleared and PC at its vector.
pub open spec fn dispatch(s: Machine) -> Machine {
    let fired = s.bus.iflag & s.bus.ie;
    let s1 = push(Machine { cpu: Cpu { ime: false, halted: false, ..s.cpu }, ..s }, s.cpu.regs.pc);
    let (vector, bit): (u16, u8) = if fired & 0x01 != 0 {
        (0x40, 0x01)
    } else if fired & 0x02 != 0 {
        (0x48, 0x02)
    } else if fired & 0x04 != 0 {
        (0x50, 0x04)
    } else if fired & 0x08 != 0 {
        (0x58, 0x08)
    } else {
        (0x60, 0x10)
    };
    Machine {
        cpu: Cpu { regs: Registers { pc: vector, ..s1.cpu.regs }, ..s1.cpu },
        bus: BusModel { iflag: s1.bus.iflag & !bit, ..s1.bus },
    }
}

/// One CPU step: a HALT cycle, an interrupt dispatch, or one instruction.
#[verifier::opaque]
pub open spec fn step_spec(s: Machine) -> (Machine, u32) {
    let wake = s.cpu.ime && pending(s.bus) != 0;
    if s.cpu.halted && !wake {
        (s, 1)
    } else {
        let s1 = Machine { cpu: Cpu { halted: false, ..s.cpu }, ..s };
        if wake {
            (dispatch(s1), 5)
        } else {
            execute(skip1(s1), imm8(s1))
        }
    }
}

// ---------------------------------------------------------------------------
// Implementation
// ---------------------------------------------------------------------------

/// F from the four flags.
fn make_flags(z: bool, n: bool, h: bool, c: bool) -> (r: u8)
    ensures
        r == flags(z, n, h, c),
{
    (if z { Z_FLAG } else { 0 }) | (if n { N_FLAG } else { 0 }) | (if h { H_FLAG } else { 0 }) | (if c {
        C_FLAG
    } else {
        0
    })
}

/// A rotate or shift by its three-bit index (see `shift`).
fn shift_op(kind: u8, v: u8, cin: bool) -> (r: (u8, bool))
    ensures
        r == shift(kind, v, cin),
{
    let ci: u8 = if cin { 1 } else { 0 };
    if kind == 0 {
        ((v << 1u8) | (v >> 7u8), v & 0x80 != 0)
    } else if kind == 1 {
        ((v >> 1u8) | ((v & 1) << 7u8), v & 1 != 0)
    } else if kind == 2 {
        ((v << 1u8) | ci, v & 0x80 != 0)
    } else if kind == 3 {
        ((v >> 1u8) | (ci << 7u8), v & 1 != 0)
    } else if kind == 4 {
        (v << 1u8, v & 0x80 != 0)
    } else if kind == 5 {
        ((v >> 1u8) | (v & 0x80), v & 1 != 0)
    } else if kind == 6 {
        ((v << 4u8) | (v >> 4u8), false)
    } else {
        (v >> 1u8, v & 1 != 0)
    }
}

/// `base` plus the two's-complement value of `off`, wrapping.
fn add_signed(base: u16, off: u8) -> (r: u16)
    ensures
        r == offset16(base, off),
{
    if off < 128 {
        base.wrapping_add(off as u16)
    } else {
        base.wrapping_sub(256 - off as u16)
    }
}

impl Registers {
    /// The register file as the boot ROM leaves it.
    pub fn new() -> (r: Registers)
        ensures
            r == (Registers {
                a: 0x01,
                f: 0xB0,
                b: 0x00,
                c: 0x13,
                d: 0x00,
                e: 0xD8,
                h: 0x01,
                l: 0x4D,
                sp: 0xFFFE,
                pc: 0x0100,
            }),
    {
        Registers { a: 0x01, f: 0xB0, b: 0x00, c: 0x13, d: 0x00, e: 0xD8, h: 0x01, l: 0x4D, sp: 0xFFFE, pc: 0x0100 }
    }

    pub fn get_bc(&self) -> (r: u16)
        ensures
            r == self.bc(),
    {
        ((self.b as u16) << 8u16) | (self.c as u16)
    }

    pub fn set_bc(&mut self, val: u16)
        ensures
            *final(self) == old(self).with_bc(val),
    {
        self.b = (val >> 8u16) as u8;
        self.c = val as u8;
    }

    pub fn get_de(&self) -> (r: u16)
        ensures
            r == self.de(),
    {
        ((self.d as u16) << 8u16) | (self.e as u16)
    }

    pub fn set_de(&mut self, val: u16)
        ensures
            *final(self) == old(self).with_de(val),
    {
        self.d = (val >> 8u16) as u8;
        self.e = val as u8;
    }

    pub fn get_hl(&self) -> (r: u16)
        ensures
            r == self.hl(),
    {
        ((self.h as u16) << 8u16) | (self.l as u16)
    }

    pub fn set_hl(&mut self, val: u16)
        ensures
            *final(self) == old(self).with_hl(val),
    {
        self.h = (val >> 8u16) as u8;
        self.l = val as u8;
    }

    pub fn get_af(&self) -> (r: u16)
        ensures
            r == self.af(),
    {
        ((self.a as u16) << 8u16) | (self.f as u16)
    }

    /// Sets AF; the low nibble of F stays zero.
    pub fn set_af(&mut self, val: u16)
        ensures
            *final(self) == old(self).with_af(val),
    {
        self.a = (val >> 8u16) as u8;
        self.f = (val as u8) & 0xF0;
    }

    fn get_rr(&self, idx: u8) -> (r: u16)
        ensures
            r == self.rr(idx),
    {
        if idx == 0 {
            self.get_bc()
        } else if idx == 1 {
            self.get_de()
        } else if idx == 2 {
            self.get_hl()
        } else {
            self.sp
        }
    }

    fn set_rr(&mut self, idx: u8, val: u16)
        ensures
            *final(self) == old(self).with_rr(idx, val),
    {
        if idx == 0 {
            self.set_bc(val);
        } else if idx == 1 {
            self.set_de(val);
        } else if idx == 2 {
            self.set_hl(val);
        } else {
            self.sp = val;
        }
    }

    fn get_qq(&self, idx: u8) -> (r: u16)
        ensures
            r == self.qq(idx),
    {
        if idx == 3 {
            self.get_af()
        } else {
            self.get_rr(idx)
        }
    }

    fn set_qq(&mut self, idx: u8, val: u16)
        ensures
            *final(self) == old(self).with_qq(idx, val),
    {
        if idx == 3 {
            self.set_af(val);
        } else {
            self.set_rr(idx, val);
        }
    }
}

/// The CPU with A and F replaced.
pub open spec fn cpu_with_af(c: Cpu, af: (u8, u8)) -> Cpu {
    Cpu { regs: Registers { a: af.0, f: af.1, ..c.regs }, ..c }
}

impl Cpu {
    /// The CPU as the boot ROM leaves it: interrupts off, running.
    pub fn new() -> (r: Cpu)
        ensures
            r.regs == (Registers {
                a: 0x01,
                f: 0xB0,
                b: 0x00,
                c: 0x13,
                d: 0x00,
                e: 0xD8,
                h: 0x01,
                l: 0x4D,
                sp: 0xFFFE,
                pc: 0x0100,
            }),
            !r.ime,
            !r.halted,
    {
        Cpu { regs: Registers::new(), ime: false, halted: false }
    }

    fn get_flag(&self, mask: u8) -> (r: bool)
        ensures
            r == flag(self.regs.f, mask),
    {
        (self.regs.f & mask) != 0
    }

    fn add(&mut self, val: u8)
        ensures
            *final(self) == cpu_with_af(*old(self), alu(0, old(self).regs.a, old(self).regs.f, val)),
    {
        let a = self.regs.a;
        let sum: u16 = a as u16 + val as u16;
        let res = (sum % 256) as u8;
        let half = (a & 0x0F) as u16 + (val & 0x0F) as u16 > 0x0F;
        self.regs.a = res;
        self.regs.f = make_flags(res == 0, false, half, sum > 0xFF);
    }

    fn adc(&mut self, val: u8)
        ensures
            *final(self) == cpu_with_af(*old(self), alu(1, old(self).regs.a, old(self).regs.f, val)),
    {
        let c: u16 = if self.get_flag(C_FLAG) { 1 } else { 0 };
        let a = self.regs.a;
        let sum: u16 = a as u16 + val as u16 + c;
        let res = (sum % 256) as u8;
        let half = (a & 0x0F) as u16 + (val & 0x0F) as u16 + c > 0x0F;
        self.regs.a = res;
        self.regs.f = make_flags(res == 0, false, half, sum > 0xFF);
    }

    /// A - val - carry_in: the result and F.
    fn subtract(&self, val: u8, carry_in: bool) -> (r: (u8, u8))
        ensures
            r == alu_sub(self.regs.a, val, carry_in),
    {
        let c: u16 = if carry_in { 1 } else { 0 };
        let a = self.regs.a;
        let diff: u16 = a as u16 + 256 - val as u16 - c;
        let res = (diff % 256) as u8;
        let half = ((a & 0x0F) as u16) < (val & 0x0F) as u16 + c;
        let borrow = (a as u16) < val as u16 + c;
        (res, make_flags(res == 0, true, half, borrow))
    }

    fn sub(&mut self, val: u8)
        ensures
            *final(self) == cpu_with_af(*old(self), alu(2, old(self).regs.a, old(self).regs.f, val)),
    {
        let (res, f) = self.subtract(val, false);
        self.regs.a = res;
        self.regs.f = f;
    }

    fn sbc(&mut self, val: u8)
        ensures
            *final(self) == cpu_with_af(*old(self), alu(3, old(self).regs.a, old(self).regs.f, val)),
    {
        let c = self.get_flag(C_FLAG);
        let (res, f) = self.subtract(val, c);
        self.regs.a = res;
        self.regs.f = f;
    }

    fn and(&mut self, val: u8)
        ensures
            *final(self) == cpu_with_af(*old(self), alu(4, old(self).regs.a, old(self).regs.f, val)),
    {
        self.regs.a = self.regs.a & val;
        self.regs.f = make_flags(self.regs.a == 0, false, true, false);
    }

    fn xor(&mut self, val: u8)
        ensures
            *final(self) == cpu_with_af(*old(self), alu(5, old(self).regs.a, old(self).regs.f, val)),
    {
        self.regs.a = self.regs.a ^ val;
        self.regs.f = make_flags(self.regs.a == 0, false, false, false);
    }

    fn or(&mut self, val: u8)
        ensures
            *final(self) == cpu_with_af(*old(self), alu(6, old(self).regs.a, old(self).regs.f, val)),
    {
        self.regs.a = self.regs.a | val;
        self.regs.f = make_flags(self.regs.a == 0, false, false, false);
    }

    fn cp(&mut self, val: u8)
        ensures
            *final(self) == cpu_with_af(*old(self), alu(7, old(self).regs.a, old(self).regs.f, val)),
    {
        let (_res, f) = self.subtract(val, false);
        self.regs.f = f;
    }

    /// The accumulator operation of three-bit index `kind` on `val`.
    fn alu_op(&mut self, kind: u8, val: u8)
        ensures
            *final(self) == cpu_with_af(*old(self), alu(kind, old(self).regs.a, old(self).regs.f, val)),
    {
        if kind == 0 {
            self.add(val);
        } else if kind == 1 {
            self.adc(val);
        } else if kind == 2 {
            self.sub(val);
        } else if kind == 3 {
            self.sbc(val);
        } else if kind == 4 {
            self.and(val);
        } else if kind == 5 {
            self.xor(val);
        } else if kind == 6 {
            self.or(val);
        } else {
            self.cp(val);
        }
    }

    fn inc(&mut self, val: u8) -> (r: u8)
        ensures
            (r, final(self).regs.f) == inc8(val, old(self).regs.f),
            *final(self) == (Cpu { regs: Registers { f: final(self).regs.f, ..old(self).regs }, ..*old(self) }),
    {
        let res = val.wrapping_add(1);
        let c = self.get_flag(C_FLAG);
        self.regs.f = make_flags(res == 0, false, (val & 0x0F) == 0x0F, c);
        res
    }

    fn dec(&mut self, val: u8) -> (r: u8)
        ensures
            (r, final(self).regs.f) == dec8(val, old(self).regs.f),
            *final(self) == (Cpu { regs: Registers { f: final(self).regs.f, ..old(self).regs }, ..*old(self) }),
    {
        let res = val.wrapping_sub(1);
        let c = self.get_flag(C_FLAG);
        self.regs.f = make_flags(res == 0, true, (val & 0x0F) == 0, c);
        res
    }

    fn add_hl(&mut self, val: u16)
        ensures
            *final(self) == (Cpu {
                regs: Registers { f: add_hl16(old(self).regs.hl(), val, old(self).regs.f).1, ..old(self).regs }.with_hl(
                    add_hl16(old(self).regs.hl(), val, old(self).regs.f).0,
                ),
                ..*old(self)
            }),
    {
        let hl = self.regs.get_hl();
        let res = hl.wrapping_add(val);
        let half = (hl & 0x0FFF) as u32 + (val & 0x0FFF) as u32 > 0x0FFF;
        let carry = hl as u32 + val as u32 > 0xFFFF;
        let z = self.get_flag(Z_FLAG);
        self.regs.f = make_flags(z, false, half, carry);
        self.regs.set_hl(res);
    }

    fn daa(&mut self)
        ensures
            *final(self) == cpu_with_af(*old(self), daa(old(self).regs.a, old(self).regs.f)),
    {
        let a = self.regs.a;
        let n = self.get_flag(N_FLAG);
        let c = self.get_flag(C_FLAG);
        let lo = self.get_flag(H_FLAG) || (!n && (a & 0x0F) > 9);
        let hi = c || (!n && a > 0x99);
        let adjust: u8 = (if lo { 0x06u8 } else { 0 }) | (if hi { 0x60u8 } else { 0 });
        let res = if n { a.wrapping_sub(adjust) } else { a.wrapping_add(adjust) };
        self.regs.a = res;
        self.regs.f = make_flags(res == 0, n, false, c || hi);
    }

    /// SP plus a signed byte: the sum and F, for ADD SP,e and LD HL,SP+e.
    fn sp_plus(&self, e: u8) -> (r: (u16, u8))
        ensures
            r == sp_offset(self.regs.sp, e),
    {
        let sp = self.regs.sp;
        let half = (sp & 0x0F) as u32 + (e & 0x0F) as u32 > 0x0F;
        let carry = (sp & 0xFF) as u32 + e as u32 > 0xFF;
        (add_signed(sp, e), make_flags(false, false, half, carry))
    }

    // --- memory access ---
    fn fetch(&mut self, bus: &Bus) -> (r: u8)
        requires
            bus.wf(),
        ensures
            r == imm8(mach(*old(self), bus@)),
            *final(self) == skip1(mach(*old(self), bus@)).cpu,
    {
        let v = bus.read(self.regs.pc);
        self.regs.pc = self.regs.pc.wrapping_add(1);
        v
    }

    fn fetch_u16(&mut self, bus: &Bus) -> (r: u16)
        requires
            bus.wf(),
        ensures
            r == imm16(mach(*old(self), bus@)),
            *final(self) == skip2(mach(*old(self), bus@)).cpu,
    {
        let l = self.fetch(bus) as u16;
        let h = self.fetch(bus) as u16;
        (h << 8u16) | l
    }

    fn push(&mut self, bus: &mut Bus, val: u16)
        requires
            old(bus).wf(),
        ensures
            final(bus).wf(),
            mach(*final(self), final(bus)@) == push(mach(*old(self), old(bus)@), val),
    {
        self.regs.sp = self.regs.sp.wrapping_sub(1);
        bus.write(self.regs.sp, (val >> 8u16) as u8);
        self.regs.sp = self.regs.sp.wrapping_sub(1);
        bus.write(self.regs.sp, val as u8);
    }

    fn pop(&mut self, bus: &Bus) -> (r: u16)
        requires
            bus.wf(),
        ensures
            r == pop_value(mach(*old(self), bus@)),
            *final(self) == pop_sp(mach(*old(self), bus@)).cpu,
    {
        let l = bus.read(self.regs.sp) as u16;
        self.regs.sp = self.regs.sp.wrapping_add(1);
        let h = bus.read(self.regs.sp) as u16;
        self.regs.sp = self.regs.sp.wrapping_add(1);
        (h << 8u16) | l
    }

    fn get_reg_from_code(&self, code: u8, bus: &Bus) -> (r: u8)
        requires
            bus.wf(),
        ensures
            r == operand(mach(*self, bus@), code),
    {
        if code == 0 {
            self.regs.b
        } else if code == 1 {
            self.regs.c
        } else if code == 2 {
            self.regs.d
        } else if code == 3 {
            self.regs.e
        } else if code == 4 {
            self.regs.h
        } else if code == 5 {
            self.regs.l
        } else if code == 6 {
            bus.read(self.regs.get_hl())
        } else {
            self.regs.a
        }
    }

    fn write_reg_cb(&mut self, bus: &mut Bus, idx: u8, val: u8)
        requires
            old(bus).wf(),
        ensures
            final(bus).wf(),
            mach(*final(self), final(bus)@) == store(mach(*old(self), old(bus)@), idx, val),
    {
        if idx == 0 {
            self.regs.b = val;
        } else if idx == 1 {
            self.regs.c = val;
        } else if idx == 2 {
            self.regs.d = val;
        } else if idx == 3 {
            self.regs.e = val;
        } else if idx == 4 {
            self.regs.h = val;
        } else if idx == 5 {
            self.regs.l = val;
        } else if idx == 6 {
            bus.write(self.regs.get_hl(), val);
        } else {
            self.regs.a = val;
        }
    }
}

/// F built from flags, or loaded into AF, has a zero low nibble.
pub proof fn lemma_flags_nibble()
    ensures
        forall|z: bool, n: bool, h: bool, c: bool| #[trigger] flags(z, n, h, c) & 0x0F == 0,
        forall|v: u16| #[trigger] (lo_byte(v) & 0xF0) & 0x0F == 0,
{
    assert forall|z: bool, n: bool, h: bool, c: bool| #[trigger] flags(z, n, h, c) & 0x0F == 0 by {
        let zb: u8 = if z { Z_FLAG } else { 0 };
        let nb: u8 = if n { N_FLAG } else { 0 };
        let hb: u8 = if h { H_FLAG } else { 0 };
        let cb: u8 = if c { C_FLAG } else { 0 };
        assert((zb == 0 || zb == 0x80) && (nb == 0 || nb == 0x40) && (hb == 0 || hb == 0x20) && (cb == 0
            || cb == 0x10) ==> (zb | nb | hb | cb) & 0x0F == 0) by (bit_vector);
    }
    assert forall|v: u16| #[trigger] (lo_byte(v) & 0xF0) & 0x0F == 0 by {
        let b = lo_byte(v);
        assert((b & 0xF0) & 0x0F == 0) by (bit_vector);
    }
}

proof fn lemma_block0_nibble(s: Machine, op: u8)
    requires
        s.cpu.regs.f & 0x0F == 0,
        op < 0x40,
    ensures
        exec_block0(s, op).0.cpu.regs.f & 0x0F == 0,
{
    lemma_flags_nibble();
    lemma_opcode_fields();
}

proof fn lemma_block3_nibble(s: Machine, op: u8)
    requires
        s.cpu.regs.f & 0x0F == 0,
        op >= 0xC0,
    ensures
        exec_block3(s, op).0.cpu.regs.f & 0x0F == 0,
{
    lemma_flags_nibble();
    lemma_opcode_fields();
    if op == 0xCB {
        assert(skip1(s).cpu.regs.f == s.cpu.regs.f);
    }
}

/// Every instruction, dispatch and HALT cycle leaves the low nibble of F zero
/// when it was zero before.
pub proof fn lemma_step_keeps_flag_nibble(s: Machine)
    requires
        s.cpu.regs.f & 0x0F == 0,
    ensures
        step_spec(s).0.cpu.regs.f & 0x0F == 0,
{
    reveal(step_spec);
    lemma_flags_nibble();
    lemma_opcode_fields();
    let s1 = Machine { cpu: Cpu { halted: false, ..s.cpu }, ..s };
    let op = imm8(s1);
    let t = skip1(s1);
    if op < 0x40 {
        lemma_block0_nibble(t, op);
    } else if op >= 0xC0 {
        lemma_block3_nibble(t, op);
    }
}

/// Whether `addr` is plain memory that reads back what was written: VRAM,
/// work RAM and its echo, OAM, or high RAM.
pub open spec fn is_plain_ram(addr: u16) -> bool {
    (0x8000 <= addr <= 0x9FFF) || (0xC000 <= addr <= 0xFDFF) || (0xFE00 <= addr <= 0xFE9F) || (0xFF80 <= addr
        <= 0xFFFE)
}

/// A word split into bytes and joined again is the same word; through AF the
/// low nibble of F is lost.
pub proof fn lemma_word_bytes(v: u16)
    ensures
        pair(hi_byte(v), lo_byte(v)) == v,
        pair(hi_byte(v), lo_byte(v) & 0xF0) == v & 0xFFF0,
{
    assert(((((v >> 8u16) as u8) as u16) << 8u16) | ((v as u8) as u16) == v) by (bit_vector);
    assert(((((v >> 8u16) as u8) as u16) << 8u16) | (((v as u8) & 0xF0) as u16) == v & 0xFFF0) by (bit_vector);
}

/// PUSH then POP with no change of SP between them gives back the pushed
/// word and the old SP, where both stack bytes lie in plain memory.
pub proof fn lemma_push_pop_round_trip(s: Machine, v: u16)
    requires
        crate::memory::bus_wf(s.bus),
        is_plain_ram(sub16(s.cpu.regs.sp, 1)),
        is_plain_ram(sub16(s.cpu.regs.sp, 2)),
    ensures
        pop_value(push(s, v)) == v,
        pop_sp(push(s, v)).cpu.regs.sp == s.cpu.regs.sp,
{
    let sp1 = sub16(s.cpu.regs.sp, 1);
    let sp2 = sub16(sp1, 1);
    assert(sp2 == sub16(s.cpu.regs.sp, 2));
    let s1 = wr(s, sp1, hi_byte(v));
    crate::memory::lemma_read_after_write(s.bus, sp1, hi_byte(v));
    crate::memory::lemma_write_other(s1.bus, sp2, lo_byte(v), sp1);
    crate::memory::lemma_write_keeps_wf(s.bus, sp1, hi_byte(v));
    crate::memory::lemma_read_after_write(s1.bus, sp2, lo_byte(v));
    lemma_word_bytes(v);
}

/// POP into AF keeps the high byte and F with its low nibble cleared.
pub proof fn lemma_af_round_trip(r: Registers, v: u16)
    ensures
        r.with_af(v).af() == v & 0xFFF0,
        r.with_qq(3, v).qq(3) == v & 0xFFF0,
{
    lemma_word_bytes(v);
}

/// A register pair written and read back by the same index gives the word
/// written; through AF the low nibble of F reads back as zero.
pub proof fn lemma_qq_round_trip(r: Registers, j: u8, v: u16)
    requires
        j < 4,
    ensures
        r.with_qq(j, v).qq(j) == (if j == 3 { v & 0xFFF0 } else { v }),
{
    lemma_word_bytes(v);
}

/// Two CPU steps, PUSH rr then POP rr', with no interrupt taken and both
/// stack bytes in plain memory: rr' receives the value of rr (through AF
/// with the low nibble of F cleared) and SP is back where it was.
pub proof fn lemma_push_pop_steps(s: Machine, push_op: u8, pop_op: u8)
    requires
        crate::memory::bus_wf(s.bus),
        !s.cpu.halted,
        !(s.cpu.ime && pending(s.bus) != 0),
        push_op == 0xC5 || push_op == 0xD5 || push_op == 0xE5 || push_op == 0xF5,
        pop_op == 0xC1 || pop_op == 0xD1 || pop_op == 0xE1 || pop_op == 0xF1,
        imm8(s) == push_op,
        imm8(step_spec(s).0) == pop_op,
        is_plain_ram(sub16(s.cpu.regs.sp, 1)),
        is_plain_ram(sub16(s.cpu.regs.sp, 2)),
    ensures
        step_spec(s).1 == 4,
        step_spec(step_spec(s).0).1 == 3,
        step_spec(step_spec(s).0).0.cpu.regs.qq(rr_index(pop_op)) == (if rr_index(pop_op) == 3 {
            s.cpu.regs.qq(rr_index(push_op)) & 0xFFF0
        } else {
            s.cpu.regs.qq(rr_index(push_op))
        }),
        step_spec(step_spec(s).0).0.cpu.regs.sp == s.cpu.regs.sp,
{
    reveal(step_spec);
    assert(0xC5u8 & 0x0Fu8 == 5u8 && 0xD5u8 & 0x0Fu8 == 5u8 && 0xE5u8 & 0x0Fu8 == 5u8 && 0xF5u8 & 0x0Fu8
        == 5u8 && 0xC5u8 & 0x07u8 == 5u8 && 0xD5u8 & 0x07u8 == 5u8 && 0xE5u8 & 0x07u8 == 5u8 && 0xF5u8
        & 0x07u8 == 5u8 && 0xC1u8 & 0x0Fu8 == 1u8 && 0xD1u8 & 0x0Fu8 == 1u8 && 0xE1u8 & 0x0Fu8 == 1u8
        && 0xF1u8 & 0x0Fu8 == 1u8 && 0xC1u8 & 0x07u8 == 1u8 && 0xD1u8 & 0x07u8 == 1u8 && 0xE1u8 & 0x07u8
        == 1u8 && 0xF1u8 & 0x07u8 == 1u8 && (0xC5u8 >> 4u8) & 0x03u8 == 0u8 && (0xD5u8 >> 4u8) & 0x03u8
        == 1u8 && (0xE5u8 >> 4u8) & 0x03u8 == 2u8 && (0xF5u8 >> 4u8) & 0x03u8 == 3u8 && (0xC1u8 >> 4u8)
        & 0x03u8 == 0u8 && (0xD1u8 >> 4u8) & 0x03u8 == 1u8 && (0xE1u8 >> 4u8) & 0x03u8 == 2u8 && (0xF1u8
        >> 4u8) & 0x03u8 == 3u8) by (bit_vector);
    lemma_opcode_fields();
    let s0 = Machine { cpu: Cpu { halted: false, ..s.cpu }, ..s };
    assert(s0 == s);
    let t = skip1(s);
    let v = s.cpu.regs.qq(rr_index(push_op));
    assert(t.cpu.regs.qq(rr_index(push_op)) == v);
    assert(step_spec(s) == exec_block3(t, push_op));
    assert(exec_block3(t, push_op) == (push(t, v), 4u32));
    let s1 = push(t, v);
    lemma_push_pop_round_trip(t, v);
    assert(s1.bus.iflag == s.bus.iflag && s1.bus.ie == s.bus.ie);
    let u = skip1(s1);
    assert(pop_value(u) == v);
    assert(step_spec(s1) == exec_block3(u, pop_op));
    lemma_qq_round_trip(pop_sp(u).cpu.regs, rr_index(pop_op), v);
}

/// EI then DI leaves interrupts disabled; DI then EI leaves them enabled.
pub proof fn lemma_ei_di(s: Machine)
    ensures
        !execute(execute(s, 0xFB).0, 0xF3).0.cpu.ime,
        execute(execute(s, 0xF3).0, 0xFB).0.cpu.ime,
{
    assert(0xFBu8 & 0x0Fu8 == 0x0Bu8 && 0xFBu8 & 0x07u8 == 3u8 && 0xF3u8 & 0x0Fu8 == 3u8 && 0xF3u8 & 0x07u8
        == 3u8) by (bit_vector);
}

/// The opcode fields stay within their widths.
proof fn lemma_opcode_fields()
    ensures
        forall|op: u8| #[trigger] mid_code(op) < 8,
        forall|op: u8| #[trigger] rr_index(op) < 4,
        forall|op: u8| #[trigger] cc_code(op) < 4,
        forall|op: u8| #[trigger] (op & 0x07) < 8,
{
    assert forall|op: u8| #[trigger] mid_code(op) < 8 by {
        assert((op >> 3u8) & 0x07 < 8) by (bit_vector);
    }
    assert forall|op: u8| #[trigger] rr_index(op) < 4 by {
        assert((op >> 4u8) & 0x03 < 4) by (bit_vector);
    }
    assert forall|op: u8| #[trigger] cc_code(op) < 4 by {
        assert((op >> 3u8) & 0x03 < 4) by (bit_vector);
    }
    assert forall|op: u8| #[trigger] (op & 0x07) < 8 by {
        assert(op & 0x07 < 8) by (bit_vector);
    }
}

impl Cpu {
    fn condition(&self, cc: u8) -> (r: bool)
        ensures
            r == cond(self.regs.f, cc),
    {
        if cc == 0 {
            !self.get_flag(Z_FLAG)
        } else if cc == 1 {
            self.get_flag(Z_FLAG)
        } else if cc == 2 {
            !self.get_flag(C_FLAG)
        } else {
            self.get_flag(C_FLAG)
        }
    }

    fn call(&mut self, bus: &mut Bus, cond: bool) -> (r: u32)
        requires
            old(bus).wf(),
        ensures
            final(bus).wf(),
            (mach(*final(self), final(bus)@), r) == call_spec(mach(*old(self), old(bus)@), cond),
    {
        let addr = self.fetch_u16(bus);
        if cond {
            let pc = self.regs.pc;
            self.push(bus, pc);
            self.regs.pc = addr;
            6
        } else {
            3
        }
    }

    fn ret(&mut self, bus: &Bus, cond: bool) -> (r: u32)
        requires
            bus.wf(),
        ensures
            (mach(*final(self), bus@), r) == ret_spec(mach(*old(self), bus@), cond),
    {
        if cond {
            self.regs.pc = self.pop(bus);
            4
        } else {
            2
        }
    }

    fn jp(&mut self, bus: &Bus, cond: bool) -> (r: u32)
        requires
            bus.wf(),
        ensures
            (mach(*final(self), bus@), r) == jp_spec(mach(*old(self), bus@), cond),
    {
        let addr = self.fetch_u16(bus);
        if cond {
            self.regs.pc = addr;
            4
        } else {
            3
        }
    }

    fn jr(&mut self, bus: &Bus, cond: bool) -> (r: u32)
        requires
            bus.wf(),
        ensures
            (mach(*final(self), bus@), r) == jr_spec(mach(*old(self), bus@), cond),
    {
        let off = self.fetch(bus);
        if cond {
            self.regs.pc = add_signed(self.regs.pc, off);
            3
        } else {
            2
        }
    }

    fn rst(&mut self, bus: &mut Bus, addr: u16)
        requires
            old(bus).wf(),
        ensures
            final(bus).wf(),
            mach(*final(self), final(bus)@) == rst_spec(mach(*old(self), old(bus)@), addr),
    {
        let pc = self.regs.pc;
        self.push(bus, pc);
        self.regs.pc = addr;
    }

    /// LD r,r' for opcodes 0x40..=0x7F other than HALT.
    fn execute_load_8bit(&mut self, opcode: u8, bus: &mut Bus) -> (r: u32)
        requires
            old(bus).wf(),
            0x40 <= opcode < 0x80,
            opcode != 0x76,
        ensures
            final(bus).wf(),
            (mach(*final(self), final(bus)@), r) == exec_block1(mach(*old(self), old(bus)@), opcode),
    {
        let src = opcode & 0x07;
        let dst = (opcode >> 3u8) & 0x07;
        let val = self.get_reg_from_code(src, bus);
        self.write_reg_cb(bus, dst, val);
        if src == 6 || dst == 6 {
            2
        } else {
            1
        }
    }

    /// The CB-prefixed instructions, with PC at the second opcode byte.
    fn execute_cb(&mut self, bus: &mut Bus) -> (r: u32)
        requires
            old(bus).wf(),
        ensures
            final(bus).wf(),
            (mach(*final(self), final(bus)@), r) == exec_cb(mach(*old(self), old(bus)@)),
    {
        proof {
            lemma_opcode_fields();
        }
        let opcode = self.fetch(bus);
        let code = opcode & 0x07;
        let val = self.get_reg_from_code(code, bus);
        let bit = (opcode >> 3u8) & 0x07;
        let slow = code == 6;
        if opcode < 0x40 {
            let c = self.get_flag(C_FLAG);
            let (res, carry) = shift_op(bit, val, c);
            self.regs.f = make_flags(res == 0, false, false, carry);
            self.write_reg_cb(bus, code, res);
            if slow {
                4
            } else {
                2
            }
        } else if opcode < 0x80 {
            let c = self.get_flag(C_FLAG);
            self.regs.f = make_flags((val & (1u8 << bit)) == 0, false, true, c);
            if slow {
                3
            } else {
                2
            }
        } else if opcode < 0xC0 {
            self.write_reg_cb(bus, code, val & !(1u8 << bit));
            if slow {
                4
            } else {
                2
            }
        } else {
            self.write_reg_cb(bus, code, val | (1u8 << bit));
            if slow {
                4
            } else {
                2
            }
        }
    }

    /// Opcodes 0x00..=0x3F.
    #[verifier::spinoff_prover]
    #[verifier::rlimit(100)]
    fn execute_block0(&mut self, opcode: u8, bus: &mut Bus) -> (r: u32)
        requires
            old(bus).wf(),
            opcode < 0x40,
        ensures
            final(bus).wf(),
            (mach(*final(self), final(bus)@), r) == exec_block0(mach(*old(self), old(bus)@), opcode),
    {
        proof {
            lemma_opcode_fields();
        }
        let op = opcode;
        let low = op & 0x0F;
        let lo3 = op & 0x07;
        if op == 0x00 {
            1
        } else if op == 0x10 {
            self.fetch(bus);
            1
        } else if low == 0x01 {
            let v = self.fetch_u16(bus);
            self.regs.set_rr((op >> 4u8) & 0x03, v);
            3
        } else if op == 0x02 {
            bus.write(self.regs.get_bc(), self.regs.a);
            2
        } else if op == 0x12 {
            bus.write(self.regs.get_de(), self.regs.a);
            2
        } else if op == 0x0A {
            self.regs.a = bus.read(self.regs.get_bc());
            2
        } else if op == 0x1A {
            self.regs.a = bus.read(self.regs.get_de());
            2
        } else if op == 0x22 {
            let hl = self.regs.get_hl();
            bus.write(hl, self.regs.a);
            self.regs.set_hl(hl.wrapping_add(1));
            2
        } else if op == 0x2A {
            let hl = self.regs.get_hl();
            self.regs.a = bus.read(hl);
            self.regs.set_hl(hl.wrapping_add(1));
            2
        } else if op == 0x32 {
            let hl = self.regs.get_hl();
            bus.write(hl, self.regs.a);
            self.regs.set_hl(hl.wrapping_sub(1));
            2
        } else if op == 0x3A {
            let hl = self.regs.get_hl();
            self.regs.a = bus.read(hl);
            self.regs.set_hl(hl.wrapping_sub(1));
            2
        } else if low == 0x03 {
            let idx = (op >> 4u8) & 0x03;
            let v = self.regs.get_rr(idx);
            self.regs.set_rr(idx, v.wrapping_add(1));
            2
        } else if low == 0x0B {
            let idx = (op >> 4u8) & 0x03;
            let v = self.regs.get_rr(idx);
            self.regs.set_rr(idx, v.wrapping_sub(1));
            2
        } else if lo3 == 0x04 {
            let code = (op >> 3u8) & 0x07;
            let v = self.get_reg_from_code(code, bus);
            let res = self.inc(v);
            self.write_reg_cb(bus, code, res);
            if code == 6 {
                3
            } else {
                1
            }
        } else if lo3 == 0x05 {
            let code = (op >> 3u8) & 0x07;
            let v = self.get_reg_from_code(code, bus);
            let res = self.dec(v);
            self.write_reg_cb(bus, code, res);
            if code == 6 {
                3
            } else {
                1
            }
        } else if lo3 == 0x06 {
            let code = (op >> 3u8) & 0x07;
            let v = self.fetch(bus);
            self.write_reg_cb(bus, code, v);
            if code == 6 {
                3
            } else {
                2
            }
        } else if lo3 == 0x07 && op <= 0x1F {
            let c = self.get_flag(C_FLAG);
            let (res, carry) = shift_op((op >> 3u8) & 0x07, self.regs.a, c);
            self.regs.a = res;
            self.regs.f = make_flags(false, false, false, carry);
            1
        } else if op == 0x08 {
            let addr = self.fetch_u16(bus);
            let sp = self.regs.sp;
            bus.write(addr, sp as u8);
            bus.write(addr.wrapping_add(1), (sp >> 8u16) as u8);
            5
        } else if low == 0x09 {
            let v = self.regs.get_rr((op >> 4u8) & 0x03);
            self.add_hl(v);
            2
        } else if op == 0x18 || op == 0x20 || op == 0x28 || op == 0x30 || op == 0x38 {
            let taken = op == 0x18 || self.condition((op >> 3u8) & 0x03);
            self.jr(bus, taken)
        } else if op == 0x27 {
            self.daa();
            1
        } else if op == 0x2F {
            let z = self.get_flag(Z_FLAG);
            let c = self.get_flag(C_FLAG);
            self.regs.a = !self.regs.a;
            self.regs.f = make_flags(z, true, true, c);
            1
        } else if op == 0x37 {
            let z = self.get_flag(Z_FLAG);
            self.regs.f = make_flags(z, false, false, true);
            1
        } else {
            let z = self.get_flag(Z_FLAG);
            let c = self.get_flag(C_FLAG);
            self.regs.f = make_flags(z, false, false, !c);
            1
        }
    }

    /// Opcodes 0xC0..=0xFF.
    fn execute_block3(&mut self, opcode: u8, bus: &mut Bus) -> (r: u32)
        requires
            old(bus).wf(),
            opcode >= 0xC0,
        ensures
            final(bus).wf(),
            (mach(*final(self), final(bus)@), r) == exec_block3(mach(*old(self), old(bus)@), opcode),
    {
        proof {
            lemma_opcode_fields();
        }
        let op = opcode;
        let low = op & 0x0F;
        let lo3 = op & 0x07;
        if op == 0xC0 || op == 0xC8 || op == 0xD0 || op == 0xD8 || op == 0xC9 {
            let taken = op == 0xC9 || self.condition((op >> 3u8) & 0x03);
            self.ret(bus, taken)
        } else if op == 0xD9 {
            self.regs.pc = self.pop(bus);
            self.ime = true;
            4
        } else if low == 0x01 {
            let v = self.pop(bus);
            self.regs.set_qq((op >> 4u8) & 0x03, v);
            3
        } else if low == 0x05 {
            let v = self.regs.get_qq((op >> 4u8) & 0x03);
            self.push(bus, v);
            4
        } else if op == 0xC2 || op == 0xCA || op == 0xD2 || op == 0xDA || op == 0xC3 {
            let taken = op == 0xC3 || self.condition((op >> 3u8) & 0x03);
            self.jp(bus, taken)
        } else if op == 0xC4 || op == 0xCC || op == 0xD4 || op == 0xDC || op == 0xCD {
            let taken = op == 0xCD || self.condition((op >> 3u8) & 0x03);
            self.call(bus, taken)
        } else if lo3 == 0x06 {
            let v = self.fetch(bus);
            self.alu_op((op >> 3u8) & 0x07, v);
            2
        } else if lo3 == 0x07 {
            self.rst(bus, (op & 0x38) as u16);
            4
        } else if op == 0xCB {
            self.execute_cb(bus)
        } else if op == 0xE0 {
            let off = self.fetch(bus) as u16;
            bus.write(0xFF00 + off, self.regs.a);
            3
        } else if op == 0xF0 {
            let off = self.fetch(bus) as u16;
            self.regs.a = bus.read(0xFF00 + off);
            3
        } else if op == 0xE2 {
            bus.write(0xFF00 + self.regs.c as u16, self.regs.a);
            2
        } else if op == 0xF2 {
            self.regs.a = bus.read(0xFF00 + self.regs.c as u16);
            2
        } else if op == 0xEA {
            let addr = self.fetch_u16(bus);
            bus.write(addr, self.regs.a);
            4
        } else if op == 0xFA {
            let addr = self.fetch_u16(bus);
            self.regs.a = bus.read(addr);
            4
        } else if op == 0xE8 {
            let e = self.fetch(bus);
            let (res, f) = self.sp_plus(e);
            self.regs.sp = res;
            self.regs.f = f;
            4
        } else if op == 0xF8 {
            let e = self.fetch(bus);
            let (res, f) = self.sp_plus(e);
            self.regs.f = f;
            self.regs.set_hl(res);
            3
        } else if op == 0xE9 {
            self.regs.pc = self.regs.get_hl();
            1
        } else if op == 0xF9 {
            self.regs.sp = self.regs.get_hl();
            2
        } else if op == 0xF3 {
            self.ime = false;
            1
        } else if op == 0xFB {
            self.ime = true;
            1
        } else {
            1
        }
    }

    /// Executes `opcode`, with PC already past it; returns the machine cycles.
    fn execute(&mut self, opcode: u8, bus: &mut Bus) -> (r: u32)
        requires
            old(bus).wf(),
        ensures
            final(bus).wf(),
            (mach(*final(self), final(bus)@), r) == execute(mach(*old(self), old(bus)@), opcode),
    {
        if opcode < 0x40 {
            self.execute_block0(opcode, bus)
        } else if opcode < 0x80 {
            if opcode == 0x76 {
                self.halted = true;
                1
            } else {
                self.execute_load_8bit(opcode, bus)
            }
        } else if opcode < 0xC0 {
            proof {
                lemma_opcode_fields();
            }
            let v = self.get_reg_from_code(opcode & 0x07, bus);
            self.alu_op((opcode >> 3u8) & 0x07, v);
            1
        } else {
            self.execute_block3(opcode, bus)
        }
    }

    /// One step: a HALT cycle, an interrupt dispatch, or one instruction.
    /// Returns the machine cycles taken (a HALT cycle 1, a dispatch 5).
    #[verifier::spinoff_prover]
    #[verifier::rlimit(60)]
    pub fn step(&mut self, bus: &mut Bus) -> (r: u32)
        requires
            old(bus).wf(),
        ensures
            final(bus).wf(),
            (mach(*final(self), final(bus)@), r) == step_spec(mach(*old(self), old(bus)@)),
            1 <= r <= 6,
            old(self).regs.f & 0x0F == 0 ==> final(self).regs.f & 0x0F == 0,
    {
        proof {
            reveal(step_spec);
            if self.regs.f & 0x0F == 0 {
                lemma_step_keeps_flag_nibble(mach(*self, bus@));
            }
        }
        let wake = self.ime && (bus.interrupt_flag & bus.interrupt_enable & 0x1F) != 0;
        if self.halted {
            if wake {
                self.halted = false;
            } else {
                return 1;
            }
        }
        if wake {
            self.ime = false;
            self.halted = false;
            let fired = bus.interrupt_flag & bus.interrupt_enable;
            let pc = self.regs.pc;
            self.push(bus, pc);
            if (fired & 0x01) != 0 {
                self.regs.pc = 0x0040;
                bus.interrupt_flag = bus.interrupt_flag & !0x01u8;
            } else if (fired & 0x02) != 0 {
                self.regs.pc = 0x0048;
                bus.interrupt_flag = bus.interrupt_flag & !0x02u8;
            } else if (fired & 0x04) != 0 {
                self.regs.pc = 0x0050;
                bus.interrupt_flag = bus.interrupt_flag & !0x04u8;
            } else if (fired & 0x08) != 0 {
                self.regs.pc = 0x0058;
                bus.interrupt_flag = bus.interrupt_flag & !0x08u8;
            } else {
                self.regs.pc = 0x0060;
                bus.interrupt_flag = bus.interrupt_flag & !0x10u8;
            }
            return 5;
        }
        let opcode = self.fetch(bus);
        self.execute(opcode, bus)
    }
}

} // verus!
