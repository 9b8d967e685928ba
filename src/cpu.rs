//! The CPU simulator.
//!
//! Instructions are atomic: reading from a "dynamic" location (typically, a hardware
//! register) will not see the exact cycle at which the read happens, since the
//! [`AddressSpace`] does not know the cycle count. This is a choice made for
//! simplicity and speed.

use crate::bus::AddressSpace;
use crate::isa;
use crate::isa::Machine;
use vstd::prelude::*;

verus! {

/// The CPU's flags register.
pub struct Flags {
    /// The raw 8-bit value.
    pub value: u8,
}

proof fn lemma_set_z(v: u8, b: u8)
    requires
        b == 0 || b == 0x80,
    ensures
        v & 0x70 | b == isa::pack_flags(b != 0, isa::flag_n(v), isa::flag_h(v), isa::flag_c(v)),
{
    assert(v & 0x70 | b == isa::bit_as(b != 0, 0x80) | isa::bit_as(v & 0x40 != 0, 0x40)
        | isa::bit_as(v & 0x20 != 0, 0x20) | isa::bit_as(v & 0x10 != 0, 0x10)) by (bit_vector)
        requires
            b == 0 || b == 0x80,
    ;
}

proof fn lemma_set_n(v: u8, b: u8)
    requires
        b == 0 || b == 0x40,
    ensures
        v & 0xB0 | b == isa::pack_flags(isa::flag_z(v), b != 0, isa::flag_h(v), isa::flag_c(v)),
{
    assert(v & 0xB0 | b == isa::bit_as(v & 0x80 != 0, 0x80) | isa::bit_as(b != 0, 0x40)
        | isa::bit_as(v & 0x20 != 0, 0x20) | isa::bit_as(v & 0x10 != 0, 0x10)) by (bit_vector)
        requires
            b == 0 || b == 0x40,
    ;
}

proof fn lemma_set_h(v: u8, b: u8)
    requires
        b == 0 || b == 0x20,
    ensures
        v & 0xD0 | b == isa::pack_flags(isa::flag_z(v), isa::flag_n(v), b != 0, isa::flag_c(v)),
{
    assert(v & 0xD0 | b == isa::bit_as(v & 0x80 != 0, 0x80) | isa::bit_as(v & 0x40 != 0, 0x40)
        | isa::bit_as(b != 0, 0x20) | isa::bit_as(v & 0x10 != 0, 0x10)) by (bit_vector)
        requires
            b == 0 || b == 0x20,
    ;
}

proof fn lemma_set_c(v: u8, b: u8)
    requires
        b == 0 || b == 0x10,
    ensures
        v & 0xE0 | b == isa::pack_flags(isa::flag_z(v), isa::flag_n(v), isa::flag_h(v), b != 0),
{
    assert(v & 0xE0 | b == isa::bit_as(v & 0x80 != 0, 0x80) | isa::bit_as(v & 0x40 != 0, 0x40)
        | isa::bit_as(v & 0x20 != 0, 0x20) | isa::bit_as(b != 0, 0x10)) by (bit_vector)
        requires
            b == 0 || b == 0x10,
    ;
}

/// Each flag of a packed flags byte reads back as packed, and its low nibble is zero.
pub proof fn lemma_pack_flags(z: bool, n: bool, h: bool, c: bool)
    ensures
        isa::flag_z(isa::pack_flags(z, n, h, c)) == z,
        isa::flag_n(isa::pack_flags(z, n, h, c)) == n,
        isa::flag_h(isa::pack_flags(z, n, h, c)) == h,
        isa::flag_c(isa::pack_flags(z, n, h, c)) == c,
        isa::pack_flags(z, n, h, c) % 16 == 0,
{
    let bz = isa::bit_as(z, 0x80);
    let bn = isa::bit_as(n, 0x40);
    let bh = isa::bit_as(h, 0x20);
    let bc = isa::bit_as(c, 0x10);
    assert(((bz | bn | bh | bc) & 0x80 != 0 <==> bz != 0)
        && ((bz | bn | bh | bc) & 0x40 != 0 <==> bn != 0)
        && ((bz | bn | bh | bc) & 0x20 != 0 <==> bh != 0)
        && ((bz | bn | bh | bc) & 0x10 != 0 <==> bc != 0)
        && (bz | bn | bh | bc) % 16 == 0) by (bit_vector)
        requires
            bz == 0 || bz == 0x80,
            bn == 0 || bn == 0x40,
            bh == 0 || bh == 0x20,
            bc == 0 || bc == 0x10,
    ;
}

impl Flags {
    /// Gets the Z flag's value.
    pub fn get_z(&self) -> (r: bool)
        ensures
            r == isa::flag_z(self.value),
    {
        self.value & 0x80 != 0
    }

    /// Gets the N flag's value.
    pub fn get_n(&self) -> (r: bool)
        ensures
            r == isa::flag_n(self.value),
    {
        self.value & 0x40 != 0
    }

    /// Gets the H flag's value.
    pub fn get_h(&self) -> (r: bool)
        ensures
            r == isa::flag_h(self.value),
    {
        self.value & 0x20 != 0
    }

    /// Gets the C flag's value.
    pub fn get_c(&self) -> (r: bool)
        ensures
            r == isa::flag_c(self.value),
    {
        self.value & 0x10 != 0
    }

    /// Sets the Z flag's value, keeping the other flags and clearing the low nibble.
    pub fn set_z(&mut self, value: bool)
        ensures
            final(self).value == isa::pack_flags(
                value,
                isa::flag_n(old(self).value),
                isa::flag_h(old(self).value),
                isa::flag_c(old(self).value),
            ),
    {
        let b: u8 = if value { 0x80 } else { 0 };
        proof {
            lemma_set_z(self.value, b);
        }
        self.value = self.value & 0x70 | b;
    }

    /// Sets the N flag's value, keeping the other flags and clearing the low nibble.
    pub fn set_n(&mut self, value: bool)
        ensures
            final(self).value == isa::pack_flags(
                isa::flag_z(old(self).value),
                value,
                isa::flag_h(old(self).value),
                isa::flag_c(old(self).value),
            ),
    {
        let b: u8 = if value { 0x40 } else { 0 };
        proof {
            lemma_set_n(self.value, b);
        }
        self.value = self.value & 0xB0 | b;
    }

    /// Sets the H flag's value, keeping the other flags and clearing the low nibble.
    pub fn set_h(&mut self, value: bool)
        ensures
            final(self).value == isa::pack_flags(
                isa::flag_z(old(self).value),
                isa::flag_n(old(self).value),
                value,
                isa::flag_c(old(self).value),
            ),
    {
        let b: u8 = if value { 0x20 } else { 0 };
        proof {
            lemma_set_h(self.value, b);
        }
        self.value = self.value & 0xD0 | b;
    }

    /// Sets the C flag's value, keeping the other flags and clearing the low nibble.
    pub fn set_c(&mut self, value: bool)
        ensures
            final(self).value == isa::pack_flags(
                isa::flag_z(old(self).value),
                isa::flag_n(old(self).value),
                isa::flag_h(old(self).value),
                value,
            ),
    {
        let b: u8 = if value { 0x10 } else { 0 };
        proof {
            lemma_set_c(self.value, b);
        }
        self.value = self.value & 0xE0 | b;
    }

    /// Sets all four flags at once and clears the low nibble.
    pub fn set_all(&mut self, z: bool, n: bool, h: bool, c: bool)
        ensures
            final(self).value == isa::pack_flags(z, n, h, c),
    {
        self.set_z(z);
        self.set_n(n);
        self.set_h(h);
        proof {
            lemma_pack_flags(z, n, h, isa::flag_c(old(self).value));
            lemma_pack_flags(z, n, isa::flag_h(old(self).value), isa::flag_c(old(self).value));
            lemma_pack_flags(
                z,
                isa::flag_n(old(self).value),
                isa::flag_h(old(self).value),
                isa::flag_c(old(self).value),
            );
        }
        self.set_c(c);
    }
}

/// A tick's possible results.
#[derive(Debug, PartialEq, Eq, Structural)]
pub enum TickResult {
    /// Nothing noteworthy happened.
    Continue,
    /// A `ld b, b` instruction was executed.
    Break,
    /// A `ld d, d` instruction was executed.
    Debug,
    /// A `halt` instruction was executed.
    Halt,
    /// A `stop` instruction was executed.
    Stop,
    /// An invalid opcode was executed.
    InvalidOpcode,
}

/// The CPU's state, which is what gets ticked.
pub struct State<S: AddressSpace> {
    pub a: u8,
    pub f: Flags,
    pub b: u8,
    pub c: u8,
    pub d: u8,
    pub e: u8,
    pub h: u8,
    pub l: u8,
    pub pc: u16,
    pub sp: u16,
    pub ime: bool,
    /// Total number of M-cycles that have passed during this CPU's life.
    pub cycles_elapsed: usize,
    /// The address space the CPU is communicating with.
    pub address_space: S,
}

/// The most M-cycles that one instruction takes.
pub const MAX_TICK_CYCLES: usize = 6;

impl<S: AddressSpace> View for State<S> {
    type V = Machine;

    open spec fn view(&self) -> Machine {
        Machine {
            a: self.a,
            f: self.f.value,
            b: self.b,
            c: self.c,
            d: self.d,
            e: self.e,
            h: self.h,
            l: self.l,
            pc: self.pc,
            sp: self.sp,
            ime: self.ime,
            cycles: self.cycles_elapsed as int,
            mem: self.address_space.contents(),
            writable: self.address_space.writable(),
        }
    }
}

impl<S: AddressSpace> State<S> {
    /// A fresh CPU: registers and flags cleared, interrupts enabled, and SP at the
    /// top of work RAM, out of the way of what a test sets up.
    pub fn new(address_space: S) -> (r: Self)
        ensures
            r.a == 0 && r.b == 0 && r.c == 0 && r.d == 0 && r.e == 0 && r.h == 0 && r.l == 0,
            r.f.value == 0,
            r.pc == 0,
            r.sp == 0xE000,
            r.ime,
            r.cycles_elapsed == 0,
            r.address_space == address_space,
    {
        State {
            a: 0,
            f: Flags { value: 0 },
            b: 0,
            c: 0,
            d: 0,
            e: 0,
            h: 0,
            l: 0,
            pc: 0,
            sp: 0xE000,
            ime: true,
            cycles_elapsed: 0,
            address_space,
        }
    }

    pub fn get_af(&self) -> (r: u16)
        ensures
            r == self@.af(),
    {
        self.a as u16 * 256 + self.f.value as u16
    }

    pub fn get_bc(&self) -> (r: u16)
        ensures
            r == self@.bc(),
    {
        self.b as u16 * 256 + self.c as u16
    }

    pub fn get_de(&self) -> (r: u16)
        ensures
            r == self@.de(),
    {
        self.d as u16 * 256 + self.e as u16
    }

    pub fn get_hl(&self) -> (r: u16)
        ensures
            r == self@.hl(),
    {
        self.h as u16 * 256 + self.l as u16
    }

    /// Loads AF; the low nibble of F is cleared, as the hardware does.
    pub fn set_af(&mut self, value: u16)
        ensures
            final(self)@ == old(self)@.with_af(value),
    {
        self.a = (value / 256) as u8;
        self.f.value = (value % 256) as u8 & 0xF0;
    }

    pub fn set_bc(&mut self, value: u16)
        ensures
            final(self)@ == old(self)@.with_bc(value),
    {
        self.b = (value / 256) as u8;
        self.c = (value % 256) as u8;
    }

    pub fn set_de(&mut self, value: u16)
        ensures
            final(self)@ == old(self)@.with_de(value),
    {
        self.d = (value / 256) as u8;
        self.e = (value % 256) as u8;
    }

    pub fn set_hl(&mut self, value: u16)
        ensures
            final(self)@ == old(self)@.with_hl(value),
    {
        self.h = (value / 256) as u8;
        self.l = (value % 256) as u8;
    }

    /// Reads the 8-bit operand of an index in the encoding (B, C, D, E, H, L, [HL], A);
    /// `[HL]` costs one M-cycle.
    pub fn get_r8_by_id(&mut self, id: u8) -> (r: u8)
        requires
            id < 8,
            old(self).cycles_elapsed < usize::MAX,
        ensures
            (final(self)@, r) == old(self)@.r8(id as int),
    {
        match id {
            0 => self.b,
            1 => self.c,
            2 => self.d,
            3 => self.e,
            4 => self.h,
            5 => self.l,
            6 => {
                self.cycles_elapsed += 1;
                self.read(self.get_hl())
            },
            _ => self.a,
        }
    }

    /// Writes the 8-bit operand of an index in the encoding (B, C, D, E, H, L, [HL], A);
    /// `[HL]` costs one M-cycle.
    pub fn set_r8_by_id(&mut self, id: u8, value: u8)
        requires
            id < 8,
            old(self).cycles_elapsed < usize::MAX,
        ensures
            final(self)@ == old(self)@.with_r8(id as int, value),
    {
        match id {
            0 => self.b = value,
            1 => self.c = value,
            2 => self.d = value,
            3 => self.e = value,
            4 => self.h = value,
            5 => self.l = value,
            6 => {
                self.cycles_elapsed += 1;
                let address = self.get_hl();
                self.write(address, value)
            },
            _ => self.a = value,
        }
    }

    /// Reads the byte at `address` from the address space.
    pub fn read(&self, address: u16) -> (r: u8)
        ensures
            r == self@.mem[address],
    {
        self.address_space.read(address)
    }

    /// Writes a byte to the address space.
    pub fn write(&mut self, address: u16, value: u8)
        ensures
            final(self)@ == old(self)@.store(address, value),
    {
        self.address_space.write(address, value);
    }

    /// Reads the byte at PC and advances PC.
    fn read_pc(&mut self) -> (r: u8)
        requires
            old(self).cycles_elapsed < usize::MAX,
        ensures
            (final(self)@, r) == old(self)@.fetch(),
    {
        let value = self.address_space.read(self.pc);
        self.pc = if self.pc == 0xFFFF { 0 } else { self.pc + 1 };
        self.cycles_elapsed += 1;
        value
    }

    /// Reads a 16-bit little-endian operand at PC.
    fn read_pc16(&mut self) -> (r: u16)
        requires
            old(self).cycles_elapsed < usize::MAX - 1,
        ensures
            (final(self)@, r) == old(self)@.fetch16(),
    {
        let lo = self.read_pc();
        let hi = self.read_pc();
        hi as u16 * 256 + lo as u16
    }

    fn push(&mut self, value: u16)
        requires
            old(self).cycles_elapsed <= usize::MAX - 3,
        ensures
            final(self)@ == old(self)@.push(value),
    {
        let sp1 = if self.sp == 0 { 0xFFFF } else { self.sp - 1 };
        self.write(sp1, (value % 256) as u8);
        let sp2 = if sp1 == 0 { 0xFFFF } else { sp1 - 1 };
        self.write(sp2, (value / 256) as u8);
        self.sp = sp2;
        self.cycles_elapsed += 3;
    }

    fn pop(&mut self) -> (r: u16)
        requires
            old(self).cycles_elapsed < usize::MAX - 2,
        ensures
            (final(self)@, r) == old(self)@.pop(),
    {
        let hi = self.read(self.sp);
        self.sp = if self.sp == 0xFFFF { 0 } else { self.sp + 1 };
        let lo = self.read(self.sp);
        self.sp = if self.sp == 0xFFFF { 0 } else { self.sp + 1 };
        self.cycles_elapsed += 2;
        hi as u16 * 256 + lo as u16
    }

    /// Reads the 16-bit register of an index in the encoding: BC, DE, HL, SP.
    fn get_r16(&self, id: u8) -> (r: u16)
        requires
            id < 4,
        ensures
            r == self@.r16(id as int),
    {
        match id {
            0 => self.get_bc(),
            1 => self.get_de(),
            2 => self.get_hl(),
            _ => self.sp,
        }
    }

    fn set_r16(&mut self, id: u8, value: u16)
        requires
            id < 4,
        ensures
            final(self)@ == old(self)@.with_r16(id as int, value),
    {
        match id {
            0 => self.set_bc(value),
            1 => self.set_de(value),
            2 => self.set_hl(value),
            _ => self.sp = value,
        }
    }

    /// `ADD HL, operand`: H is the carry out of bit 11, C out of bit 15, N is cleared
    /// and Z kept.
    pub fn add_hl_r16(&mut self, operand: u16)
        requires
            old(self).cycles_elapsed < usize::MAX,
        ensures
            final(self)@ == old(self)@.add_hl(operand),
            final(self)@.hl() as int == (old(self)@.hl() + operand) % 65536,
    {
        let hl = self.get_hl();
        let sum: u32 = hl as u32 + operand as u32;
        let h = hl % 4096 + operand % 4096 > 4095;
        let z = self.f.get_z();
        self.set_hl((sum % 65536) as u16);
        self.f.set_all(z, false, h, sum > 65535);
        self.cycles_elapsed += 1;
    }

    /// Adds `operand` and the carry-in to A.
    pub fn add(&mut self, operand: u8, carry_in: bool)
        ensures
            final(self)@ == old(self)@.add_a(operand, carry_in),
            final(self).a as int == (old(self).a + operand + (if carry_in { 1int } else { 0 }))
                % 256,
            isa::flag_z(final(self).f.value) == (final(self).a == 0),
            !isa::flag_n(final(self).f.value),
            isa::flag_h(final(self).f.value) == ((old(self).a & 0xF) + (operand & 0xF) + (if carry_in {
                1int
            } else {
                0
            }) > 0xF),
            isa::flag_c(final(self).f.value) == (old(self).a + operand + (if carry_in { 1int } else { 0 })
                > 0xFF),
    {
        let cin: u16 = if carry_in { 1 } else { 0 };
        let sum: u16 = self.a as u16 + operand as u16 + cin;
        let h = (self.a % 16) as u16 + (operand % 16) as u16 + cin > 15;
        let r = (sum % 256) as u8;
        proof {
            lemma_low_nibble(self.a);
            lemma_low_nibble(operand);
            lemma_pack_flags(r == 0, false, h, sum > 255);
        }
        self.f.set_all(r == 0, false, h, sum > 255);
        self.a = r;
    }

    /// Subtracts `operand` and the carry-in (borrow) from A.
    pub fn sub(&mut self, operand: u8, carry_in: bool)
        ensures
            final(self)@ == old(self)@.sub_a(operand, carry_in),
            final(self).a as int == (old(self).a - operand - (if carry_in { 1int } else { 0 }))
                % 256,
            isa::flag_z(final(self).f.value) == (final(self).a == 0),
            isa::flag_n(final(self).f.value),
            isa::flag_h(final(self).f.value) == ((old(self).a & 0xF) < (operand & 0xF) + (if carry_in {
                1int
            } else {
                0
            })),
            isa::flag_c(final(self).f.value) == (old(self).a < operand + (if carry_in { 1int } else { 0 })),
    {
        let cin: u16 = if carry_in { 1 } else { 0 };
        let h = ((self.a % 16) as u16) < (operand % 16) as u16 + cin;
        let c = (self.a as u16) < operand as u16 + cin;
        let r = ((self.a as u16 + 256 - operand as u16 - cin) % 256) as u8;
        proof {
            lemma_low_nibble(self.a);
            lemma_low_nibble(operand);
            lemma_pack_flags(r == 0, true, h, c);
            assert((self.a + 256 - operand - cin) % 256 == (self.a - operand - cin) % 256) by {
                vstd::arithmetic::div_mod::lemma_mod_add_multiples_vanish(
                    self.a - operand - cin,
                    256,
                );
            }
        }
        self.f.set_all(r == 0, true, h, c);
        self.a = r;
    }

    /// A AND operand; H is always set.
    pub fn and(&mut self, operand: u8)
        ensures
            final(self)@ == old(self)@.and_a(operand),
    {
        self.a = self.a & operand;
        self.f.set_all(self.a == 0, false, true, false);
    }

    /// A XOR operand; H and C are cleared.
    pub fn xor(&mut self, operand: u8)
        ensures
            final(self)@ == old(self)@.xor_a(operand),
    {
        self.a = self.a ^ operand;
        self.f.set_all(self.a == 0, false, false, false);
    }

    /// A OR operand; H and C are cleared.
    pub fn or(&mut self, operand: u8)
        ensures
            final(self)@ == old(self)@.or_a(operand),
    {
        self.a = self.a | operand;
        self.f.set_all(self.a == 0, false, false, false);
    }

    /// Compares A with `operand`: the flags of a subtraction, A unchanged.
    pub fn cp(&mut self, operand: u8)
        ensures
            final(self)@ == old(self)@.cp_a(operand),
            final(self).a == old(self).a,
    {
        let h = self.a % 16 < operand % 16;
        let r = ((self.a as u16 + 256 - operand as u16) % 256) as u8;
        proof {
            assert((self.a + 256 - operand) % 256 == (self.a - operand) % 256) by {
                vstd::arithmetic::div_mod::lemma_mod_add_multiples_vanish(self.a - operand, 256);
            }
        }
        self.f.set_all(r == 0, true, h, self.a < operand);
    }

    /// Runs one of the arithmetic and logic group by its index in the encoding:
    /// add, adc, sub, sbc, and, xor, or, cp.
    fn alu(&mut self, kind: u8, operand: u8)
        requires
            kind < 8,
        ensures
            final(self)@ == old(self)@.alu(kind as int, operand),
    {
        match kind {
            0 => self.add(operand, false),
            1 => {
                let c = self.f.get_c();
                self.add(operand, c)
            },
            2 => self.sub(operand, false),
            3 => {
                let c = self.f.get_c();
                self.sub(operand, c)
            },
            4 => self.and(operand),
            5 => self.xor(operand),
            6 => self.or(operand),
            _ => self.cp(operand),
        }
    }

    /// Stores the result of a rotate or shift and sets Z by it and C to the bit
    /// shifted out.
    fn finish_shift(&mut self, reg_id: u8, value: u8, out: bool)
        requires
            reg_id < 8,
            old(self).cycles_elapsed < usize::MAX,
        ensures
            final(self)@ == old(self)@.with_r8(reg_id as int, value).with_f(
                isa::pack_flags(value == 0, false, false, out),
            ),
    {
        self.set_r8_by_id(reg_id, value);
        self.f.set_all(value == 0, false, false, out);
    }

    /// Rotates left; bit 7 goes to C and to bit 0.
    pub fn rlc(&mut self, reg_id: u8)
        requires
            reg_id < 8,
            old(self).cycles_elapsed < usize::MAX - 1,
        ensures
            final(self)@ == old(self)@.shift(0, reg_id as int),
    {
        let value = self.get_r8_by_id(reg_id);
        self.finish_shift(reg_id, (value % 128) * 2 + value / 128, value >= 128);
    }

    /// Rotates right; bit 0 goes to C and to bit 7.
    pub fn rrc(&mut self, reg_id: u8)
        requires
            reg_id < 8,
            old(self).cycles_elapsed < usize::MAX - 1,
        ensures
            final(self)@ == old(self)@.shift(1, reg_id as int),
    {
        let value = self.get_r8_by_id(reg_id);
        self.finish_shift(reg_id, value / 2 + (value % 2) * 128, value % 2 == 1);
    }

    /// Rotates left through the carry.
    pub fn rl(&mut self, reg_id: u8)
        requires
            reg_id < 8,
            old(self).cycles_elapsed < usize::MAX - 1,
        ensures
            final(self)@ == old(self)@.shift(2, reg_id as int),
    {
        let cin: u8 = if self.f.get_c() { 1 } else { 0 };
        let value = self.get_r8_by_id(reg_id);
        self.finish_shift(reg_id, (value % 128) * 2 + cin, value >= 128);
    }

    /// Rotates right through the carry.
    pub fn rr(&mut self, reg_id: u8)
        requires
            reg_id < 8,
            old(self).cycles_elapsed < usize::MAX - 1,
        ensures
            final(self)@ == old(self)@.shift(3, reg_id as int),
    {
        let cin: u8 = if self.f.get_c() { 1 } else { 0 };
        let value = self.get_r8_by_id(reg_id);
        self.finish_shift(reg_id, value / 2 + cin * 128, value % 2 == 1);
    }

    /// Shifts left; bit 7 goes to C.
    pub fn sla(&mut self, reg_id: u8)
        requires
            reg_id < 8,
            old(self).cycles_elapsed < usize::MAX - 1,
        ensures
            final(self)@ == old(self)@.shift(4, reg_id as int),
    {
        let value = self.get_r8_by_id(reg_id);
        self.finish_shift(reg_id, (value % 128) * 2, value >= 128);
    }

    /// Shifts right, keeping bit 7; bit 0 goes to C.
    pub fn sra(&mut self, reg_id: u8)
        requires
            reg_id < 8,
            old(self).cycles_elapsed < usize::MAX - 1,
        ensures
            final(self)@ == old(self)@.shift(5, reg_id as int),
    {
        let value = self.get_r8_by_id(reg_id);
        self.finish_shift(reg_id, value / 2 + (value / 128) * 128, value % 2 == 1);
    }

    /// Exchanges the two nibbles; every flag but Z is cleared.
    pub fn swap(&mut self, reg_id: u8)
        requires
            reg_id < 8,
            old(self).cycles_elapsed < usize::MAX - 1,
        ensures
            final(self)@ == old(self)@.shift(6, reg_id as int),
    {
        let value = self.get_r8_by_id(reg_id);
        self.finish_shift(reg_id, (value % 16) * 16 + value / 16, false);
    }

    /// Shifts right; bit 0 goes to C.
    pub fn srl(&mut self, reg_id: u8)
        requires
            reg_id < 8,
            old(self).cycles_elapsed < usize::MAX - 1,
        ensures
            final(self)@ == old(self)@.shift(7, reg_id as int),
    {
        let value = self.get_r8_by_id(reg_id);
        self.finish_shift(reg_id, value / 2, value % 2 == 1);
    }

    /// Runs one of the rotate and shift family by its index in the encoding.
    fn shift(&mut self, kind: u8, reg_id: u8)
        requires
            kind < 8,
            reg_id < 8,
            old(self).cycles_elapsed < usize::MAX - 1,
        ensures
            final(self)@ == old(self)@.shift(kind as int, reg_id as int),
    {
        match kind {
            0 => self.rlc(reg_id),
            1 => self.rrc(reg_id),
            2 => self.rl(reg_id),
            3 => self.rr(reg_id),
            4 => self.sla(reg_id),
            5 => self.sra(reg_id),
            6 => self.swap(reg_id),
            _ => self.srl(reg_id),
        }
    }

    /// `PC + offset`, the offset read as a signed byte.
    fn relative(&self, offset: u8) -> (r: u16)
        ensures
            r == isa::w16(self.pc + isa::signed(offset)),
    {
        if offset < 128 {
            ((self.pc as u32 + offset as u32) % 65536) as u16
        } else {
            proof {
                vstd::arithmetic::div_mod::lemma_mod_add_multiples_vanish(
                    self.pc + offset - 256,
                    65536,
                );
            }
            ((self.pc as u32 + 65280 + offset as u32) % 65536) as u16
        }
    }

    /// Relative jump, taken if `condition` holds.
    fn jr_cc(&mut self, condition: bool)
        requires
            old(self).cycles_elapsed < usize::MAX - 1,
        ensures
            final(self)@ == old(self)@.jr(condition),
    {
        let offset = self.read_pc();
        if condition {
            self.pc = self.relative(offset);
            self.cycles_elapsed += 1;
        }
    }

    /// Absolute jump, taken if `condition` holds.
    fn jp_cc(&mut self, condition: bool)
        requires
            old(self).cycles_elapsed < usize::MAX - 2,
        ensures
            final(self)@ == old(self)@.jp(condition),
    {
        let target = self.read_pc16();
        if condition {
            self.pc = target;
            self.cycles_elapsed += 1;
        }
    }

    /// Call, taken if `condition` holds: the address after the operand is pushed.
    fn call_cc(&mut self, condition: bool)
        requires
            old(self).cycles_elapsed <= usize::MAX - 5,
        ensures
            final(self)@ == old(self)@.call(condition),
    {
        let target = self.read_pc16();
        if condition {
            let pc = self.pc;
            self.push(pc);
            self.pc = target;
        }
    }

    /// Unconditional return.
    fn ret(&mut self)
        requires
            old(self).cycles_elapsed < usize::MAX - 3,
        ensures
            final(self)@ == old(self)@.ret(),
    {
        self.pc = self.pop();
        self.cycles_elapsed += 1;
    }

    /// Conditional return, taken if `condition` holds.
    fn ret_cc(&mut self, condition: bool)
        requires
            old(self).cycles_elapsed < usize::MAX - 4,
        ensures
            final(self)@ == old(self)@.ret_if(condition),
    {
        self.cycles_elapsed += 1;
        if condition {
            self.ret();
        }
    }

    /// The condition of a conditional branch by its index: NZ, Z, NC, C.
    fn condition(&self, id: u8) -> (r: bool)
        requires
            id < 4,
        ensures
            r == self@.condition(id as int),
    {
        match id {
            0 => !self.f.get_z(),
            1 => self.f.get_z(),
            2 => !self.f.get_c(),
            _ => self.f.get_c(),
        }
    }

    /// `SP + offset`, the offset read as a signed byte, and the flags of
    /// `ADD SP, e8`.
    fn sp_offset(&self, offset: u8) -> (r: (u16, bool, bool))
        ensures
            (r.0, isa::pack_flags(false, false, r.1, r.2)) == self@.sp_offset(offset),
    {
        let target = if offset < 128 {
            ((self.sp as u32 + offset as u32) % 65536) as u16
        } else {
            proof {
                vstd::arithmetic::div_mod::lemma_mod_add_multiples_vanish(
                    self.sp + offset - 256,
                    65536,
                );
            }
            ((self.sp as u32 + 65280 + offset as u32) % 65536) as u16
        };
        (target, self.sp % 16 + (offset % 16) as u16 > 15, self.sp % 256 + offset as u16 > 255)
    }

    /// Decimal adjustment of A after a BCD addition or subtraction.
    fn daa(&mut self)
        ensures
            final(self)@ == old(self)@.daa(),
    {
        let n = self.f.get_n();
        let c = self.f.get_c() || (!n && self.a >= 0x9A);
        let h = self.f.get_h() || (!n && self.a % 16 >= 10);
        let adjust: u8 = (if h { 0x06u8 } else { 0 }) + (if c { 0x60u8 } else { 0 });
        let r = if n {
            proof {
                vstd::arithmetic::div_mod::lemma_mod_add_multiples_vanish(self.a - adjust, 256);
            }
            ((self.a as u16 + 256 - adjust as u16) % 256) as u8
        } else {
            ((self.a as u16 + adjust as u16) % 256) as u8
        };
        self.a = r;
        self.f.set_all(r == 0, n, false, c);
    }

    /// `INC r8`: H is set when the low nibble rolls over; C is kept.
    fn inc_r8(&mut self, reg_id: u8)
        requires
            reg_id < 8,
            old(self).cycles_elapsed < usize::MAX - 1,
        ensures
            final(self)@ == old(self)@.inc8(reg_id as int),
    {
        let value = self.get_r8_by_id(reg_id);
        let r = if value == 255 { 0 } else { value + 1 };
        self.set_r8_by_id(reg_id, r);
        let c = self.f.get_c();
        self.f.set_all(r == 0, false, value % 16 == 15, c);
    }

    /// `DEC r8`: H is set when the low nibble borrows; C is kept.
    fn dec_r8(&mut self, reg_id: u8)
        requires
            reg_id < 8,
            old(self).cycles_elapsed < usize::MAX - 1,
        ensures
            final(self)@ == old(self)@.dec8(reg_id as int),
    {
        let value = self.get_r8_by_id(reg_id);
        let r = if value == 0 { 255 } else { value - 1 };
        self.set_r8_by_id(reg_id, r);
        let c = self.f.get_c();
        self.f.set_all(r == 0, true, value % 16 == 0, c);
    }

    /// Steps the CPU forward by one instruction; `cycles_elapsed` counts the M-cycles
    /// that it takes.
    pub fn tick(&mut self) -> (r: TickResult)
        requires
            old(self).cycles_elapsed <= usize::MAX - MAX_TICK_CYCLES,
        ensures
            (final(self)@, r) == old(self)@.step(),
    {
        proof {
            reveal(Machine::step);
        }
        let opcode = self.read_pc();
        if opcode < 0x40 {
            self.tick_block0(opcode)
        } else if opcode < 0x80 {
            self.tick_load(opcode)
        } else if opcode < 0xC0 {
            let value = self.get_r8_by_id(opcode % 8);
            self.alu((opcode / 8) % 8, value);
            TickResult::Continue
        } else {
            self.tick_block3(opcode)
        }
    }

    /// Opcodes 0x40 to 0x7F: `ld r8, r8`, with the self-loads of B and D as
    /// breakpoint and debug markers and `ld [hl], [hl]` as `halt`.
    fn tick_load(&mut self, opcode: u8) -> (r: TickResult)
        requires
            0x40 <= opcode < 0x80,
            old(self).cycles_elapsed <= usize::MAX - MAX_TICK_CYCLES + 1,
        ensures
            (final(self)@, r) == old(self)@.step_load(opcode),
    {
        match opcode {
            0x40 => TickResult::Break,
            0x52 => TickResult::Debug,
            0x76 => TickResult::Halt,
            _ => {
                let value = self.get_r8_by_id(opcode % 8);
                self.set_r8_by_id((opcode / 8) % 8, value);
                TickResult::Continue
            },
        }
    }

    /// Opcodes 0x00 to 0x3F.
    fn tick_block0(&mut self, opcode: u8) -> (r: TickResult)
        requires
            opcode < 0x40,
            old(self).cycles_elapsed <= usize::MAX - MAX_TICK_CYCLES + 1,
        ensures
            (final(self)@, r) == old(self)@.step_block0(opcode),
    {
        let row = opcode / 8;
        match opcode % 8 {
            0 => {
                if opcode == 0x10 {
                    /* stop */
                    self.read_pc();
                    return TickResult::Stop;
                }
                self.tick_column0(opcode);
            },
            1 => {
                if opcode % 16 == 1 {
                    /* ld r16, u16 */
                    let value = self.read_pc16();
                    self.set_r16(opcode / 16, value);
                } else {
                    /* add hl, r16 */
                    let value = self.get_r16(opcode / 16);
                    self.add_hl_r16(value);
                }
            },
            2 => self.tick_column2(opcode),
            3 => {
                let value = self.get_r16(opcode / 16);
                if opcode % 16 == 3 {
                    /* inc r16 */
                    self.set_r16(opcode / 16, if value == 0xFFFF { 0 } else { value + 1 });
                } else {
                    /* dec r16 */
                    self.set_r16(opcode / 16, if value == 0 { 0xFFFF } else { value - 1 });
                }
                self.cycles_elapsed += 1;
            },
            /* inc r8 */
            4 => self.inc_r8(row),
            /* dec r8 */
            5 => self.dec_r8(row),
            /* ld r8, u8 */
            6 => {
                let value = self.read_pc();
                self.set_r8_by_id(row, value);
            },
            _ => self.tick_column7(opcode),
        }
        TickResult::Continue
    }

    fn tick_column0(&mut self, opcode: u8)
        requires
            opcode < 0x40,
            opcode % 8 == 0,
            opcode != 0x10,
            old(self).cycles_elapsed <= usize::MAX - MAX_TICK_CYCLES + 1,
        ensures
            final(self)@ == old(self)@.column0(opcode),
    {
        match opcode {
            /* nop */
            0x00 => {},
            /* ld [u16], sp */
            0x08 => {
                let pointer = self.read_pc16();
                let sp = self.sp;
                self.write(pointer, (sp % 256) as u8);
                self.write(if pointer == 0xFFFF { 0 } else { pointer + 1 }, (sp / 256) as u8);
                self.cycles_elapsed += 2;
            },
            /* jr u8 */
            0x18 => self.jr_cc(true),
            /* jr nz, jr z, jr nc, jr c */
            _ => {
                let condition = self.condition(opcode / 8 - 4);
                self.jr_cc(condition);
            },
        }
    }

    fn tick_column2(&mut self, opcode: u8)
        requires
            opcode < 0x40,
            opcode % 8 == 2,
            old(self).cycles_elapsed <= usize::MAX - MAX_TICK_CYCLES + 1,
        ensures
            final(self)@ == old(self)@.column2(opcode),
    {
        match opcode {
            /* ld [bc], a */
            0x02 => {
                let address = self.get_bc();
                self.write(address, self.a);
            },
            /* ld [de], a */
            0x12 => {
                let address = self.get_de();
                self.write(address, self.a);
            },
            /* ld [hli], a */
            0x22 => {
                let address = self.get_hl();
                self.write(address, self.a);
                self.set_hl(if address == 0xFFFF { 0 } else { address + 1 });
            },
            /* ld [hld], a */
            0x32 => {
                let address = self.get_hl();
                self.write(address, self.a);
                self.set_hl(if address == 0 { 0xFFFF } else { address - 1 });
            },
            /* ld a, [bc] */
            0x0A => self.a = self.read(self.get_bc()),
            /* ld a, [de] */
            0x1A => self.a = self.read(self.get_de()),
            /* ld a, [hli] */
            0x2A => {
                let address = self.get_hl();
                self.a = self.read(address);
                self.set_hl(if address == 0xFFFF { 0 } else { address + 1 });
            },
            /* ld a, [hld] */
            _ => {
                let address = self.get_hl();
                self.a = self.read(address);
                self.set_hl(if address == 0 { 0xFFFF } else { address - 1 });
            },
        }
        self.cycles_elapsed += 1;
    }

    fn tick_column7(&mut self, opcode: u8)
        requires
            opcode < 0x40,
            opcode % 8 == 7,
            old(self).cycles_elapsed <= usize::MAX - MAX_TICK_CYCLES + 1,
        ensures
            final(self)@ == old(self)@.column7(opcode),
    {
        match opcode {
            /* rlca, rrca, rla, rra */
            0x07 | 0x0F | 0x17 | 0x1F => {
                self.shift(opcode / 8, 7);
                let c = self.f.get_c();
                self.f.set_all(false, false, false, c);
            },
            /* daa */
            0x27 => self.daa(),
            /* cpl */
            0x2F => {
                self.a = !self.a;
                let (z, c) = (self.f.get_z(), self.f.get_c());
                self.f.set_all(z, true, true, c);
            },
            /* scf */
            0x37 => {
                let z = self.f.get_z();
                self.f.set_all(z, false, false, true);
            },
            /* ccf */
            _ => {
                let (z, c) = (self.f.get_z(), self.f.get_c());
                self.f.set_all(z, false, false, !c);
            },
        }
    }

    /// Opcodes 0xC0 to 0xFF.
    #[verifier::rlimit(40)]
    fn tick_block3(&mut self, opcode: u8) -> (r: TickResult)
        requires
            0xC0 <= opcode,
            old(self).cycles_elapsed <= usize::MAX - MAX_TICK_CYCLES + 1,
        ensures
            (final(self)@, r) == old(self)@.step_block3(opcode),
    {
        let row = (opcode / 8) % 8;
        match opcode {
            /* ret */
            0xC9 => self.ret(),
            /* reti */
            0xD9 => {
                self.ret();
                self.ime = true;
            },
            /* jp u16 */
            0xC3 => self.jp_cc(true),
            /* call u16 */
            0xCD => self.call_cc(true),
            /* ret cc */
            0xC0 | 0xC8 | 0xD0 | 0xD8 => {
                let condition = self.condition(row);
                self.ret_cc(condition);
            },
            /* jp cc, u16 */
            0xC2 | 0xCA | 0xD2 | 0xDA => {
                let condition = self.condition(row);
                self.jp_cc(condition);
            },
            /* call cc, u16 */
            0xC4 | 0xCC | 0xD4 | 0xDC => {
                let condition = self.condition(row);
                self.call_cc(condition);
            },
            /* alu a, u8 */
            0xC6 | 0xCE | 0xD6 | 0xDE | 0xE6 | 0xEE | 0xF6 | 0xFE => {
                let value = self.read_pc();
                self.alu(row, value);
            },
            /* rst */
            0xC7 | 0xCF | 0xD7 | 0xDF | 0xE7 | 0xEF | 0xF7 | 0xFF => {
                let pc = self.pc;
                self.push(pc);
                self.pc = (opcode - 0xC7) as u16;
            },
            /* pop r16 */
            0xC1 | 0xD1 | 0xE1 => {
                let value = self.pop();
                self.set_r16((opcode - 0xC0) / 16, value);
            },
            /* pop af */
            0xF1 => {
                let value = self.pop();
                self.set_af(value);
            },
            /* push r16 */
            0xC5 | 0xD5 | 0xE5 => {
                let value = self.get_r16((opcode - 0xC0) / 16);
                self.push(value);
            },
            /* push af */
            0xF5 => {
                let value = self.get_af();
                self.push(value);
            },
            /* prefix byte */
            0xCB => {
                let prefixed = self.read_pc();
                self.tick_prefixed(prefixed);
            },
            /* ldh [u8], a */
            0xE0 => {
                let value = self.read_pc();
                self.write(0xFF00 + value as u16, self.a);
                self.cycles_elapsed += 1;
            },
            /* ldh [c], a */
            0xE2 => {
                self.write(0xFF00 + self.c as u16, self.a);
                self.cycles_elapsed += 1;
            },
            /* ldh a, [u8] */
            0xF0 => {
                let value = self.read_pc();
                self.a = self.read(0xFF00 + value as u16);
                self.cycles_elapsed += 1;
            },
            /* ldh a, [c] */
            0xF2 => {
                self.a = self.read(0xFF00 + self.c as u16);
                self.cycles_elapsed += 1;
            },
            /* add sp, e8 */
            0xE8 => {
                let value = self.read_pc();
                let (sp, h, c) = self.sp_offset(value);
                self.sp = sp;
                self.f.set_all(false, false, h, c);
                self.cycles_elapsed += 2;
            },
            /* ld hl, sp + e8 */
            0xF8 => {
                let value = self.read_pc();
                let (hl, h, c) = self.sp_offset(value);
                self.set_hl(hl);
                self.f.set_all(false, false, h, c);
                self.cycles_elapsed += 1;
            },
            /* jp hl */
            0xE9 => self.pc = self.get_hl(),
            /* ld sp, hl */
            0xF9 => {
                self.sp = self.get_hl();
                self.cycles_elapsed += 1;
            },
            /* ld [u16], a */
            0xEA => {
                let address = self.read_pc16();
                self.write(address, self.a);
                self.cycles_elapsed += 1;
            },
            /* ld a, [u16] */
            0xFA => {
                let address = self.read_pc16();
                self.a = self.read(address);
                self.cycles_elapsed += 1;
            },
            /* di */
            0xF3 => self.ime = false,
            /* ei */
            0xFB => self.ime = true,
            /* no instruction has these encodings */
            _ => return TickResult::InvalidOpcode,
        }
        TickResult::Continue
    }

    /// The opcode space after the 0xCB prefix: rotates and shifts, then BIT, RES
    /// and SET on each bit of each 8-bit operand.
    fn tick_prefixed(&mut self, opcode: u8)
        requires
            old(self).cycles_elapsed <= usize::MAX - 4,
        ensures
            final(self)@ == old(self)@.step_prefixed(opcode),
    {
        let reg_id = opcode % 8;
        let mask: u8 = 1u8 << ((opcode / 8) % 8);
        if opcode < 0x40 {
            self.shift(opcode / 8, reg_id);
        } else if opcode < 0x80 {
            let value = self.get_r8_by_id(reg_id);
            let c = self.f.get_c();
            self.f.set_all(value & mask == 0, false, true, c);
        } else if opcode < 0xC0 {
            let value = self.get_r8_by_id(reg_id);
            self.set_r8_by_id(reg_id, value & !mask);
        } else {
            let value = self.get_r8_by_id(reg_id);
            self.set_r8_by_id(reg_id, value | mask);
        }
    }
}

/// A byte's low nibble, as a mask and as a remainder.
proof fn lemma_low_nibble(x: u8)
    ensures
        x & 0xF == x % 16,
{
    assert(x & 0xF == x % 16) by (bit_vector);
}

} // verus!
