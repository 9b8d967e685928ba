//! The instruction set of the SM83, stated as spec functions over an abstract machine.
//!
//! A [`Machine`] is the whole architectural state: the registers, the flags byte,
//! the program counter and stack pointer, the interrupt-enable flag, the number of
//! M-cycles elapsed and the memory. [`Machine::step`] says what one instruction does
//! to it; the executable interpreter in [`crate::cpu`] is proved to do exactly that.

use crate::cpu::TickResult;
use vstd::prelude::*;

verus! {

/// `x` reduced to a byte, wrapping around.
pub open spec fn w8(x: int) -> u8 {
    (x % 256) as u8
}

/// `x` reduced to 16 bits, wrapping around.
pub open spec fn w16(x: int) -> u16 {
    (x % 65536) as u16
}

/// The 16-bit value whose high byte is `hi` and low byte is `lo`.
pub open spec fn pair(hi: u8, lo: u8) -> u16 {
    (hi * 256 + lo) as u16
}

pub open spec fn high(v: u16) -> u8 {
    (v / 256) as u8
}

pub open spec fn low(v: u16) -> u8 {
    (v % 256) as u8
}

/// A byte read as a two's complement offset.
pub open spec fn signed(v: u8) -> int {
    if v < 128 {
        v as int
    } else {
        v - 256
    }
}

pub open spec fn bit_as(b: bool, v: u8) -> u8 {
    if b {
        v
    } else {
        0
    }
}

/// The Zero flag of a flags byte (bit 7).
pub open spec fn flag_z(f: u8) -> bool {
    f & 0x80 != 0
}

/// The Negative (subtract) flag of a flags byte (bit 6).
pub open spec fn flag_n(f: u8) -> bool {
    f & 0x40 != 0
}

/// The Half-carry flag of a flags byte (bit 5).
pub open spec fn flag_h(f: u8) -> bool {
    f & 0x20 != 0
}

/// The Carry flag of a flags byte (bit 4).
pub open spec fn flag_c(f: u8) -> bool {
    f & 0x10 != 0
}

/// The flags byte with the four given flags and a zero low nibble.
pub open spec fn pack_flags(z: bool, n: bool, h: bool, c: bool) -> u8 {
    bit_as(z, 0x80) | bit_as(n, 0x40) | bit_as(h, 0x20) | bit_as(c, 0x10)
}

/// The result of 8-bit addition with carry-in, and its flags.
pub open spec fn add8(a: u8, b: u8, carry: bool) -> (u8, u8) {
    let cin: int = if carry {
        1
    } else {
        0
    };
    let r = w8(a + b + cin);
    (r, pack_flags(r == 0, false, a % 16 + b % 16 + cin > 15, a + b + cin > 255))
}

/// The result of 8-bit subtraction with borrow-in, and its flags.
pub open spec fn sub8(a: u8, b: u8, carry: bool) -> (u8, u8) {
    let cin: int = if carry {
        1
    } else {
        0
    };
    let r = w8(a - b - cin);
    (r, pack_flags(r == 0, true, a % 16 < b % 16 + cin, a < b + cin))
}

/// The rotate and shift family, by its index in the prefixed opcode space
/// (rlc, rrc, rl, rr, sla, sra, swap, srl): the result and the bit shifted out.
pub open spec fn shifted(kind: int, v: u8, carry: bool) -> (u8, bool) {
    let cin: int = if carry {
        1
    } else {
        0
    };
    if kind == 0 {
        (((v % 128) * 2 + v / 128) as u8, v >= 128)
    } else if kind == 1 {
        ((v / 2 + (v % 2) * 128) as u8, v % 2 == 1)
    } else if kind == 2 {
        (((v % 128) * 2 + cin) as u8, v >= 128)
    } else if kind == 3 {
        ((v / 2 + cin * 128) as u8, v % 2 == 1)
    } else if kind == 4 {
        (((v % 128) * 2) as u8, v >= 128)
    } else if kind == 5 {
        ((v / 2 + (v / 128) * 128) as u8, v % 2 == 1)
    } else if kind == 6 {
        (((v % 16) * 16 + v / 16) as u8, false)
    } else {
        ((v / 2) as u8, v % 2 == 1)
    }
}

/// The architectural state of the CPU and the memory it sees.
pub struct Machine {
    pub a: u8,
    pub f: u8,
    pub b: u8,
    pub c: u8,
    pub d: u8,
    pub e: u8,
    pub h: u8,
    pub l: u8,
    pub pc: u16,
    pub sp: u16,
    pub ime: bool,
    /// M-cycles elapsed.
    pub cycles: int,
    pub mem: Map<u16, u8>,
    /// Addresses whose writes take effect.
    pub writable: Set<u16>,
}

impl Machine {
    pub open spec fn af(self) -> u16 {
        pair(self.a, self.f)
    }

    pub open spec fn bc(self) -> u16 {
        pair(self.b, self.c)
    }

    pub open spec fn de(self) -> u16 {
        pair(self.d, self.e)
    }

    pub open spec fn hl(self) -> u16 {
        pair(self.h, self.l)
    }

    /// Loads AF; the low nibble of F always reads as zero.
    pub open spec fn with_af(self, v: u16) -> Machine {
        Machine { a: high(v), f: low(v) & 0xF0, ..self }
    }

    pub open spec fn with_bc(self, v: u16) -> Machine {
        Machine { b: high(v), c: low(v), ..self }
    }

    pub open spec fn with_de(self, v: u16) -> Machine {
        Machine { d: high(v), e: low(v), ..self }
    }

    pub open spec fn with_hl(self, v: u16) -> Machine {
        Machine { h: high(v), l: low(v), ..self }
    }

    pub open spec fn with_f(self, f: u8) -> Machine {
        Machine { f, ..self }
    }

    pub open spec fn with_a(self, a: u8) -> Machine {
        Machine { a, ..self }
    }

    pub open spec fn with_pc(self, pc: u16) -> Machine {
        Machine { pc, ..self }
    }

    pub open spec fn with_sp(self, sp: u16) -> Machine {
        Machine { sp, ..self }
    }

    pub open spec fn with_ime(self, ime: bool) -> Machine {
        Machine { ime, ..self }
    }

    /// The 16-bit register of an index in the encoding: BC, DE, HL, SP.
    pub open spec fn r16(self, id: int) -> u16 {
        if id == 0 {
            self.bc()
        } else if id == 1 {
            self.de()
        } else if id == 2 {
            self.hl()
        } else {
            self.sp
        }
    }

    pub open spec fn with_r16(self, id: int, v: u16) -> Machine {
        if id == 0 {
            self.with_bc(v)
        } else if id == 1 {
            self.with_de(v)
        } else if id == 2 {
            self.with_hl(v)
        } else {
            self.with_sp(v)
        }
    }

    /// `n` more M-cycles have elapsed.
    pub open spec fn elapse(self, n: int) -> Machine {
        Machine { cycles: self.cycles + n, ..self }
    }

    /// A write of `v` at `addr`, through the memory's write contract.
    pub open spec fn store(self, addr: u16, v: u8) -> Machine {
        Machine {
            mem: if self.writable.contains(addr) {
                self.mem.insert(addr, v)
            } else {
                self.mem
            },
            ..self
        }
    }

    /// Reads the byte at PC and advances PC, in one M-cycle.
    pub open spec fn fetch(self) -> (Machine, u8) {
        (Machine { pc: w16(self.pc + 1), cycles: self.cycles + 1, ..self }, self.mem[self.pc])
    }

    /// Reads a 16-bit little-endian immediate operand.
    pub open spec fn fetch16(self) -> (Machine, u16) {
        let (s1, lo) = self.fetch();
        let (s2, hi) = s1.fetch();
        (s2, pair(hi, lo))
    }

    /// The 8-bit operand of an index in the encoding: B, C, D, E, H, L, [HL], A.
    /// `[HL]` costs one M-cycle.
    pub open spec fn r8(self, id: int) -> (Machine, u8) {
        if id == 0 {
            (self, self.b)
        } else if id == 1 {
            (self, self.c)
        } else if id == 2 {
            (self, self.d)
        } else if id == 3 {
            (self, self.e)
        } else if id == 4 {
            (self, self.h)
        } else if id == 5 {
            (self, self.l)
        } else if id == 6 {
            (self.elapse(1), self.mem[self.hl()])
        } else {
            (self, self.a)
        }
    }

    pub open spec fn with_r8(self, id: int, v: u8) -> Machine {
        if id == 0 {
            Machine { b: v, ..self }
        } else if id == 1 {
            Machine { c: v, ..self }
        } else if id == 2 {
            Machine { d: v, ..self }
        } else if id == 3 {
            Machine { e: v, ..self }
        } else if id == 4 {
            Machine { h: v, ..self }
        } else if id == 5 {
            Machine { l: v, ..self }
        } else if id == 6 {
            self.elapse(1).store(self.hl(), v)
        } else {
            Machine { a: v, ..self }
        }
    }

    /// Pushes a 16-bit value, high byte at the lower address, in three M-cycles.
    pub open spec fn push(self, v: u16) -> Machine {
        let sp1 = w16(self.sp - 1);
        let sp2 = w16(self.sp - 2);
        self.store(sp1, low(v)).store(sp2, high(v)).with_sp(sp2).elapse(3)
    }

    /// Pops a 16-bit value pushed by [`Machine::push`], in two M-cycles.
    pub open spec fn pop(self) -> (Machine, u16) {
        let v = pair(self.mem[self.sp], self.mem[w16(self.sp + 1)]);
        (self.with_sp(w16(self.sp + 2)).elapse(2), v)
    }

    pub open spec fn carry(self) -> bool {
        flag_c(self.f)
    }

    pub open spec fn add_a(self, v: u8, carry: bool) -> Machine {
        let (r, f) = add8(self.a, v, carry);
        Machine { a: r, f, ..self }
    }

    pub open spec fn sub_a(self, v: u8, carry: bool) -> Machine {
        let (r, f) = sub8(self.a, v, carry);
        Machine { a: r, f, ..self }
    }

    pub open spec fn and_a(self, v: u8) -> Machine {
        let r = self.a & v;
        Machine { a: r, f: pack_flags(r == 0, false, true, false), ..self }
    }

    pub open spec fn xor_a(self, v: u8) -> Machine {
        let r = self.a ^ v;
        Machine { a: r, f: pack_flags(r == 0, false, false, false), ..self }
    }

    pub open spec fn or_a(self, v: u8) -> Machine {
        let r = self.a | v;
        Machine { a: r, f: pack_flags(r == 0, false, false, false), ..self }
    }

    /// Compares A with `v`: the flags of `sub`, A unchanged.
    pub open spec fn cp_a(self, v: u8) -> Machine {
        let (_, f) = sub8(self.a, v, false);
        Machine { f, ..self }
    }

    /// The arithmetic and logic group, by its index in the encoding:
    /// add, adc, sub, sbc, and, xor, or, cp.
    pub open spec fn alu(self, kind: int, v: u8) -> Machine {
        if kind == 0 {
            self.add_a(v, false)
        } else if kind == 1 {
            self.add_a(v, self.carry())
        } else if kind == 2 {
            self.sub_a(v, false)
        } else if kind == 3 {
            self.sub_a(v, self.carry())
        } else if kind == 4 {
            self.and_a(v)
        } else if kind == 5 {
            self.xor_a(v)
        } else if kind == 6 {
            self.or_a(v)
        } else {
            self.cp_a(v)
        }
    }

    /// `ADD HL, v`: Z kept, N cleared, H from bit 11, C from bit 15; one M-cycle.
    pub open spec fn add_hl(self, v: u16) -> Machine {
        let hl = self.hl();
        let f = pack_flags(
            flag_z(self.f),
            false,
            hl % 4096 + v % 4096 > 4095,
            hl + v > 65535,
        );
        self.with_hl(w16(hl + v)).with_f(f).elapse(1)
    }

    /// A rotate or shift of an 8-bit operand (see [`shifted`]).
    /// Z is set by the result; SWAP clears the other flags.
    pub open spec fn shift(self, kind: int, id: int) -> Machine {
        let (s1, v) = self.r8(id);
        let (r, out) = shifted(kind, v, flag_c(self.f));
        s1.with_r8(id, r).with_f(pack_flags(r == 0, false, false, out))
    }

    /// The short accumulator forms (RLCA, RRCA, RLA, RRA) always clear Z.
    pub open spec fn shift_a(self, kind: int) -> Machine {
        let s1 = self.shift(kind, 7);
        s1.with_f(pack_flags(false, false, false, flag_c(s1.f)))
    }

    /// `BIT n, r`: Z is set when the bit is clear; N cleared, H set, C kept.
    pub open spec fn test_bit(self, n: u8, id: int) -> Machine {
        let (s1, v) = self.r8(id);
        s1.with_f(pack_flags(v & (1u8 << n) == 0, false, true, flag_c(self.f)))
    }

    pub open spec fn res_bit(self, n: u8, id: int) -> Machine {
        let (s1, v) = self.r8(id);
        s1.with_r8(id, v & !(1u8 << n))
    }

    pub open spec fn set_bit(self, n: u8, id: int) -> Machine {
        let (s1, v) = self.r8(id);
        s1.with_r8(id, v | (1u8 << n))
    }

    pub open spec fn inc8(self, id: int) -> Machine {
        let (s1, v) = self.r8(id);
        let r = w8(v + 1);
        s1.with_r8(id, r).with_f(pack_flags(r == 0, false, v % 16 == 15, flag_c(self.f)))
    }

    pub open spec fn dec8(self, id: int) -> Machine {
        let (s1, v) = self.r8(id);
        let r = w8(v - 1);
        s1.with_r8(id, r).with_f(pack_flags(r == 0, true, v % 16 == 0, flag_c(self.f)))
    }

    /// Decimal adjustment of A after a BCD addition or subtraction.
    pub open spec fn daa(self) -> Machine {
        let n = flag_n(self.f);
        let c = flag_c(self.f) || (!n && self.a >= 0x9A);
        let h = flag_h(self.f) || (!n && self.a % 16 >= 10);
        let adjust = bit_as(h, 0x06) + bit_as(c, 0x60);
        let r = if n {
            w8(self.a - adjust)
        } else {
            w8(self.a + adjust)
        };
        Machine { a: r, f: pack_flags(r == 0, n, false, c), ..self }
    }

    /// `ADD SP, e8` and `LD HL, SP + e8`: the sum of SP and the signed offset,
    /// with H and C from the unsigned addition of the low byte, Z and N cleared.
    pub open spec fn sp_offset(self, v: u8) -> (u16, u8) {
        let r = w16(self.sp + signed(v));
        (r, pack_flags(false, false, self.sp % 16 + v % 16 > 15, self.sp % 256 + v > 255))
    }

    pub open spec fn jr(self, taken: bool) -> Machine {
        let (s1, off) = self.fetch();
        if taken {
            s1.with_pc(w16(s1.pc + signed(off))).elapse(1)
        } else {
            s1
        }
    }

    pub open spec fn jp(self, taken: bool) -> Machine {
        let (s1, target) = self.fetch16();
        if taken {
            s1.with_pc(target).elapse(1)
        } else {
            s1
        }
    }

    pub open spec fn call(self, taken: bool) -> Machine {
        let (s1, target) = self.fetch16();
        if taken {
            s1.push(s1.pc).with_pc(target)
        } else {
            s1
        }
    }

    /// Unconditional return: the pop and one internal M-cycle.
    pub open spec fn ret(self) -> Machine {
        let (s1, target) = self.pop();
        s1.with_pc(target).elapse(1)
    }

    /// Conditional return: one M-cycle to test the condition, then a return if taken.
    pub open spec fn ret_if(self, taken: bool) -> Machine {
        if taken {
            self.elapse(1).ret()
        } else {
            self.elapse(1)
        }
    }

    /// The condition of a conditional branch, by its index in the encoding:
    /// NZ, Z, NC, C.
    pub open spec fn condition(self, id: int) -> bool {
        if id == 0 {
            !flag_z(self.f)
        } else if id == 1 {
            flag_z(self.f)
        } else if id == 2 {
            !flag_c(self.f)
        } else {
            flag_c(self.f)
        }
    }

    /// One instruction: the opcode is fetched, then executed.
    #[verifier::opaque]
    pub open spec fn step(self) -> (Machine, TickResult) {
        let (s, op) = self.fetch();
        if op < 0x40 {
            s.step_block0(op)
        } else if op < 0x80 {
            s.step_load(op)
        } else if op < 0xC0 {
            let (s1, v) = s.r8((op % 8) as int);
            (s1.alu(((op / 8) % 8) as int, v), TickResult::Continue)
        } else {
            s.step_block3(op)
        }
    }

    /// Opcodes 0x40 to 0x7F: register-to-register loads, with `ld b, b` a
    /// breakpoint, `ld d, d` a debug marker and `ld [hl], [hl]` the halt.
    pub open spec fn step_load(self, op: u8) -> (Machine, TickResult) {
        if op == 0x40 {
            (self, TickResult::Break)
        } else if op == 0x52 {
            (self, TickResult::Debug)
        } else if op == 0x76 {
            (self, TickResult::Halt)
        } else {
            let (s1, v) = self.r8((op % 8) as int);
            (s1.with_r8(((op / 8) % 8) as int, v), TickResult::Continue)
        }
    }

    /// Opcodes 0x00 to 0x3F, after the fetch, by column (the low three bits).
    pub open spec fn step_block0(self, op: u8) -> (Machine, TickResult) {
        let col = op % 8;
        let row = (op / 8) as int;
        if op == 0x10 {
            (self.fetch().0, TickResult::Stop)
        } else {
            (
                if col == 0 {
                    self.column0(op)
                } else if col == 1 {
                    if op % 16 == 1 {
                        let (s1, v) = self.fetch16();
                        s1.with_r16((op / 16) as int, v)
                    } else {
                        self.add_hl(self.r16((op / 16) as int))
                    }
                } else if col == 2 {
                    self.column2(op)
                } else if col == 3 {
                    let id = (op / 16) as int;
                    if op % 16 == 3 {
                        self.with_r16(id, w16(self.r16(id) + 1)).elapse(1)
                    } else {
                        self.with_r16(id, w16(self.r16(id) - 1)).elapse(1)
                    }
                } else if col == 4 {
                    self.inc8(row)
                } else if col == 5 {
                    self.dec8(row)
                } else if col == 6 {
                    let (s1, v) = self.fetch();
                    s1.with_r8(row, v)
                } else {
                    self.column7(op)
                },
                TickResult::Continue,
            )
        }
    }

    /// `nop`, `ld [u16], sp` and the relative jumps.
    pub open spec fn column0(self, op: u8) -> Machine {
        if op == 0x00 {
            self
        } else if op == 0x08 {
            let (s1, p) = self.fetch16();
            s1.store(p, low(self.sp)).store(w16(p + 1), high(self.sp)).elapse(2)
        } else if op == 0x18 {
            self.jr(true)
        } else {
            self.jr(self.condition((op / 8) as int - 4))
        }
    }

    /// Loads between A and the memory that BC, DE or HL (then incremented or
    /// decremented) points to.
    pub open spec fn column2(self, op: u8) -> Machine {
        if op == 0x02 {
            self.store(self.bc(), self.a).elapse(1)
        } else if op == 0x12 {
            self.store(self.de(), self.a).elapse(1)
        } else if op == 0x22 {
            self.store(self.hl(), self.a).with_hl(w16(self.hl() + 1)).elapse(1)
        } else if op == 0x32 {
            self.store(self.hl(), self.a).with_hl(w16(self.hl() - 1)).elapse(1)
        } else if op == 0x0A {
            self.with_a(self.mem[self.bc()]).elapse(1)
        } else if op == 0x1A {
            self.with_a(self.mem[self.de()]).elapse(1)
        } else if op == 0x2A {
            self.with_a(self.mem[self.hl()]).with_hl(w16(self.hl() + 1)).elapse(1)
        } else {
            self.with_a(self.mem[self.hl()]).with_hl(w16(self.hl() - 1)).elapse(1)
        }
    }

    /// The accumulator rotates, `daa`, `cpl`, `scf` and `ccf`.
    pub open spec fn column7(self, op: u8) -> Machine {
        if op < 0x20 {
            self.shift_a((op / 8) as int)
        } else if op == 0x27 {
            self.daa()
        } else if op == 0x2F {
            self.with_a(!self.a).with_f(pack_flags(flag_z(self.f), true, true, flag_c(self.f)))
        } else if op == 0x37 {
            self.with_f(pack_flags(flag_z(self.f), false, false, true))
        } else {
            self.with_f(pack_flags(flag_z(self.f), false, false, !flag_c(self.f)))
        }
    }

    /// The opcodes that no SM83 instruction has.
    pub open spec fn is_invalid(op: u8) -> bool {
        op == 0xD3 || op == 0xDB || op == 0xDD || op == 0xE3 || op == 0xE4 || op == 0xEB
            || op == 0xEC || op == 0xED || op == 0xF4 || op == 0xFC || op == 0xFD
    }

    /// Opcodes 0xC0 to 0xFF, after the fetch.
    pub open spec fn step_block3(self, op: u8) -> (Machine, TickResult) {
        let low3 = op % 8;
        let row = ((op / 8) % 8) as int;
        if Self::is_invalid(op) {
            (self, TickResult::InvalidOpcode)
        } else if op == 0xCB {
            let (s1, op2) = self.fetch();
            (s1.step_prefixed(op2), TickResult::Continue)
        } else {
            (
                if op == 0xC9 {
                    self.ret()
                } else if op == 0xD9 {
                    self.ret().with_ime(true)
                } else if op == 0xC3 {
                    self.jp(true)
                } else if op == 0xCD {
                    self.call(true)
                } else if low3 == 0 && row < 4 {
                    self.ret_if(self.condition(row))
                } else if low3 == 2 && row < 4 {
                    self.jp(self.condition(row))
                } else if low3 == 4 && row < 4 {
                    self.call(self.condition(row))
                } else if low3 == 6 {
                    let (s1, v) = self.fetch();
                    s1.alu(row, v)
                } else if low3 == 7 {
                    self.push(self.pc).with_pc((op - 0xC7) as u16)
                } else if op % 16 == 1 {
                    let (s1, v) = self.pop();
                    if op == 0xF1 {
                        s1.with_af(v)
                    } else {
                        s1.with_r16((op - 0xC0) / 16, v)
                    }
                } else if op % 16 == 5 {
                    self.push(
                        if op == 0xF5 {
                            self.af()
                        } else {
                            self.r16((op - 0xC0) / 16)
                        },
                    )
                } else if op == 0xE0 {
                    let (s1, v) = self.fetch();
                    s1.store((0xFF00 + v) as u16, self.a).elapse(1)
                } else if op == 0xE2 {
                    self.store((0xFF00 + self.c) as u16, self.a).elapse(1)
                } else if op == 0xF0 {
                    let (s1, v) = self.fetch();
                    s1.with_a(s1.mem[(0xFF00 + v) as u16]).elapse(1)
                } else if op == 0xF2 {
                    self.with_a(self.mem[(0xFF00 + self.c) as u16]).elapse(1)
                } else if op == 0xE8 {
                    let (s1, v) = self.fetch();
                    let (r, f) = s1.sp_offset(v);
                    s1.with_sp(r).with_f(f).elapse(2)
                } else if op == 0xF8 {
                    let (s1, v) = self.fetch();
                    let (r, f) = s1.sp_offset(v);
                    s1.with_hl(r).with_f(f).elapse(1)
                } else if op == 0xE9 {
                    self.with_pc(self.hl())
                } else if op == 0xF9 {
                    self.with_sp(self.hl()).elapse(1)
                } else if op == 0xEA {
                    let (s1, p) = self.fetch16();
                    s1.store(p, self.a).elapse(1)
                } else if op == 0xFA {
                    let (s1, p) = self.fetch16();
                    s1.with_a(s1.mem[p]).elapse(1)
                } else if op == 0xF3 {
                    self.with_ime(false)
                } else {
                    // 0xFB, ei
                    self.with_ime(true)
                },
                TickResult::Continue,
            )
        }
    }

    /// The opcode space after the 0xCB prefix, after its fetch.
    pub open spec fn step_prefixed(self, op: u8) -> Machine {
        let id = (op % 8) as int;
        let n = ((op / 8) % 8) as u8;
        if op < 0x40 {
            self.shift((op / 8) as int, id)
        } else if op < 0x80 {
            self.test_bit(n, id)
        } else if op < 0xC0 {
            self.res_bit(n, id)
        } else {
            self.set_bit(n, id)
        }
    }
}

/// The unprefixed opcodes 0x00 to 0x3F never lower the cycle count.
proof fn lemma_block0_cycles(m: Machine, op: u8)
    requires
        op < 0x40,
    ensures
        m.step_block0(op).0.cycles >= m.cycles,
{
}

/// The opcodes 0xC0 to 0xFF, the prefixed ones among them, never lower the cycle count.
proof fn lemma_block3_cycles(m: Machine, op: u8)
    requires
        op >= 0xC0,
    ensures
        m.step_block3(op).0.cycles >= m.cycles,
{
}

/// Every instruction takes at least the M-cycle of its opcode fetch.
pub proof fn lemma_step_advances(m: Machine)
    ensures
        m.step().0.cycles > m.cycles,
{
    reveal(Machine::step);
    let (s, op) = m.fetch();
    if op < 0x40 {
        lemma_block0_cycles(s, op);
    } else if op >= 0xC0 {
        lemma_block3_cycles(s, op);
    }
}

/// The opcode 0xD3 is no instruction: the step fetches it and reports it.
pub proof fn lemma_invalid_opcode(m: Machine)
    requires
        m.mem[m.pc] == 0xD3,
    ensures
        m.step() == (m.fetch().0, TickResult::InvalidOpcode),
{
    reveal(Machine::step);
}

/// Writing a register pair and reading it back gives the value written; writing
/// back what was read changes nothing. AF is the exception in one direction: the
/// low nibble of F always reads as zero, so AF reads back without it, and a state
/// is unchanged by writing back its AF when that nibble is zero.
pub proof fn lemma_pair_round_trip(m: Machine, v: u16)
    ensures
        m.with_bc(v).bc() == v,
        m.with_de(v).de() == v,
        m.with_hl(v).hl() == v,
        m.with_bc(m.bc()) == m,
        m.with_de(m.de()) == m,
        m.with_hl(m.hl()) == m,
        m.with_af(v).af() == v - v % 16,
        m.f % 16 == 0 ==> m.with_af(m.af()) == m,
{
    let lo = low(v);
    assert(lo & 0xF0 == lo - lo % 16) by (bit_vector);
    let f = m.f;
    assert(f % 16 == 0 ==> f & 0xF0 == f) by (bit_vector);
}

} // verus!
