//! A sparse description of CPU state, used both to set a test up and to check its
//! result.

use crate::bus::AddressSpace;
use crate::cpu::State;
use crate::isa;
use crate::isa::Machine;
use crate::Error;
use vstd::prelude::*;

verus! {

/// A piece of CPU state that a [`Registers`] can constrain.
#[derive(Clone, Copy, Debug, PartialEq, Eq, Structural)]
pub enum Field {
    A,
    B,
    C,
    D,
    E,
    H,
    L,
    Zf,
    Nf,
    Hf,
    Cf,
    Bc,
    De,
    Hl,
    Sp,
    Pc,
}

/// Where a mismatch was found: a register or flag, or a memory address.
#[derive(Clone, Copy, Debug, PartialEq, Eq, Structural)]
pub enum CompareSource {
    Register(Field),
    Address(u16),
}

/// One value that differs from what was expected. Flags are 0 or 1.
#[derive(Clone, Copy, Debug, PartialEq, Eq, Structural)]
pub struct Mismatch {
    pub source: CompareSource,
    pub actual: u16,
    pub expected: u16,
}

/// Every mismatch that a comparison found, in the order the fields were checked.
#[derive(Clone, Debug)]
pub struct CompareResult {
    pub contents: Vec<Mismatch>,
}

/// A partial description of CPU state: each field is optional, and only the fields
/// that are present take part in configuration or comparison.
#[derive(Clone, Debug)]
pub struct Registers {
    pub a: Option<u8>,
    pub b: Option<u8>,
    pub c: Option<u8>,
    pub d: Option<u8>,
    pub e: Option<u8>,
    pub h: Option<u8>,
    pub l: Option<u8>,
    // F is split into its four flags so that each can be set or checked alone.
    pub zf: Option<bool>,
    pub nf: Option<bool>,
    pub hf: Option<bool>,
    pub cf: Option<bool>,
    pub bc: Option<u16>,
    pub de: Option<u16>,
    pub hl: Option<u16>,
    pub pc: Option<u16>,
    pub sp: Option<u16>,
    /// Bytes of memory, by address.
    pub memory: Vec<(u16, u8)>,
}

pub open spec fn byte_or(o: Option<u8>, v: u8) -> u8 {
    match o {
        Some(x) => x,
        None => v,
    }
}

pub open spec fn word_or(o: Option<u16>, v: u16) -> u16 {
    match o {
        Some(x) => x,
        None => v,
    }
}

pub open spec fn flag_value(b: bool) -> u16 {
    if b {
        1
    } else {
        0
    }
}

/// The mismatch of one value, if it is constrained and differs.
pub open spec fn check(source: CompareSource, expected: Option<u16>, actual: u16) -> Seq<Mismatch> {
    match expected {
        Some(v) => if v != actual {
            seq![Mismatch { source, actual, expected: v }]
        } else {
            seq![]
        },
        None => seq![],
    }
}

pub open spec fn widen(o: Option<u8>) -> Option<u16> {
    match o {
        Some(x) => Some(x as u16),
        None => None,
    }
}

pub open spec fn flag_widen(o: Option<bool>) -> Option<u16> {
    match o {
        Some(x) => Some(flag_value(x)),
        None => None,
    }
}

/// The mismatches of a list of expected memory bytes, in list order.
pub open spec fn memory_mismatches(entries: Seq<(u16, u8)>, mem: Map<u16, u8>) -> Seq<Mismatch>
    decreases entries.len(),
{
    if entries.len() == 0 {
        seq![]
    } else {
        let (address, value) = entries.last();
        memory_mismatches(entries.drop_last(), mem) + check(
            CompareSource::Address(address),
            Some(value as u16),
            mem[address] as u16,
        )
    }
}

/// The machine after writing a list of memory bytes, in list order.
pub open spec fn store_all(m: Machine, entries: Seq<(u16, u8)>) -> Machine
    decreases entries.len(),
{
    if entries.len() == 0 {
        m
    } else {
        let (address, value) = entries.last();
        store_all(m, entries.drop_last()).store(address, value)
    }
}

impl Registers {
    /// The flags byte after setting the flags that are present.
    pub open spec fn configured_flags(&self, f: u8) -> u8 {
        let f1 = match self.zf {
            Some(v) => isa::pack_flags(v, isa::flag_n(f), isa::flag_h(f), isa::flag_c(f)),
            None => f,
        };
        let f2 = match self.nf {
            Some(v) => isa::pack_flags(isa::flag_z(f1), v, isa::flag_h(f1), isa::flag_c(f1)),
            None => f1,
        };
        let f3 = match self.hf {
            Some(v) => isa::pack_flags(isa::flag_z(f2), isa::flag_n(f2), v, isa::flag_c(f2)),
            None => f2,
        };
        match self.cf {
            Some(v) => isa::pack_flags(isa::flag_z(f3), isa::flag_n(f3), isa::flag_h(f3), v),
            None => f3,
        }
    }

    /// The machine after [`Registers::configure`]: the 8-bit registers, the flags,
    /// BC, DE, HL, PC and SP that are present, in that order, then the memory
    /// bytes in list order.
    pub open spec fn configured(&self, m: Machine) -> Machine {
        store_all(self.configured_fields(m), self.memory@)
    }

    /// The machine after writing the present fields alone.
    pub open spec fn configured_fields(&self, m: Machine) -> Machine {
        let m1 = Machine {
            a: byte_or(self.a, m.a),
            b: byte_or(self.b, m.b),
            c: byte_or(self.c, m.c),
            d: byte_or(self.d, m.d),
            e: byte_or(self.e, m.e),
            h: byte_or(self.h, m.h),
            l: byte_or(self.l, m.l),
            f: self.configured_flags(m.f),
            ..m
        };
        let m2 = match self.bc {
            Some(v) => m1.with_bc(v),
            None => m1,
        };
        let m3 = match self.de {
            Some(v) => m2.with_de(v),
            None => m2,
        };
        let m4 = match self.hl {
            Some(v) => m3.with_hl(v),
            None => m3,
        };
        Machine { pc: word_or(self.pc, m4.pc), sp: word_or(self.sp, m4.sp), ..m4 }
    }

    /// Every constrained value of `m` that differs from this description: the
    /// 8-bit registers, the flags, BC, DE, HL, SP, PC, then the memory bytes.
    pub open spec fn mismatches(&self, m: Machine) -> Seq<Mismatch> {
        check(CompareSource::Register(Field::A), widen(self.a), m.a as u16)
            + check(CompareSource::Register(Field::B), widen(self.b), m.b as u16)
            + check(CompareSource::Register(Field::C), widen(self.c), m.c as u16)
            + check(CompareSource::Register(Field::D), widen(self.d), m.d as u16)
            + check(CompareSource::Register(Field::E), widen(self.e), m.e as u16)
            + check(CompareSource::Register(Field::H), widen(self.h), m.h as u16)
            + check(CompareSource::Register(Field::L), widen(self.l), m.l as u16)
            + check(
                CompareSource::Register(Field::Zf),
                flag_widen(self.zf),
                flag_value(isa::flag_z(m.f)),
            )
            + check(
                CompareSource::Register(Field::Nf),
                flag_widen(self.nf),
                flag_value(isa::flag_n(m.f)),
            )
            + check(
                CompareSource::Register(Field::Hf),
                flag_widen(self.hf),
                flag_value(isa::flag_h(m.f)),
            )
            + check(
                CompareSource::Register(Field::Cf),
                flag_widen(self.cf),
                flag_value(isa::flag_c(m.f)),
            )
            + check(CompareSource::Register(Field::Bc), self.bc, m.bc())
            + check(CompareSource::Register(Field::De), self.de, m.de())
            + check(CompareSource::Register(Field::Hl), self.hl, m.hl())
            + check(CompareSource::Register(Field::Sp), self.sp, m.sp)
            + check(CompareSource::Register(Field::Pc), self.pc, m.pc)
            + memory_mismatches(self.memory@, m.mem)
    }

    /// Whether no field and no memory byte is constrained.
    pub open spec fn is_unconstrained(&self) -> bool {
        self.a is None
            && self.b is None
            && self.c is None
            && self.d is None
            && self.e is None
            && self.h is None
            && self.l is None
            && self.zf is None
            && self.nf is None
            && self.hf is None
            && self.cf is None
            && self.bc is None
            && self.de is None
            && self.hl is None
            && self.pc is None
            && self.sp is None
            && self.memory@.len() == 0
    }

    /// A description with no field present and no memory bytes.
    #[must_use]
    pub fn new() -> (r: Self)
        ensures
            r.is_unconstrained(),
    {
        Registers {
            a: None,
            b: None,
            c: None,
            d: None,
            e: None,
            h: None,
            l: None,
            zf: None,
            nf: None,
            hf: None,
            cf: None,
            bc: None,
            de: None,
            hl: None,
            pc: None,
            sp: None,
            memory: Vec::new(),
        }
    }

    #[must_use]
    pub fn with_a(self, value: u8) -> (r: Self)
        ensures
            r == (Registers { a: Some(value), ..self }),
    {
        Registers { a: Some(value), ..self }
    }

    #[must_use]
    pub fn with_b(self, value: u8) -> (r: Self)
        ensures
            r == (Registers { b: Some(value), ..self }),
    {
        Registers { b: Some(value), ..self }
    }

    #[must_use]
    pub fn with_c(self, value: u8) -> (r: Self)
        ensures
            r == (Registers { c: Some(value), ..self }),
    {
        Registers { c: Some(value), ..self }
    }

    #[must_use]
    pub fn with_d(self, value: u8) -> (r: Self)
        ensures
            r == (Registers { d: Some(value), ..self }),
    {
        Registers { d: Some(value), ..self }
    }

    #[must_use]
    pub fn with_e(self, value: u8) -> (r: Self)
        ensures
            r == (Registers { e: Some(value), ..self }),
    {
        Registers { e: Some(value), ..self }
    }

    #[must_use]
    pub fn with_h(self, value: u8) -> (r: Self)
        ensures
            r == (Registers { h: Some(value), ..self }),
    {
        Registers { h: Some(value), ..self }
    }

    #[must_use]
    pub fn with_l(self, value: u8) -> (r: Self)
        ensures
            r == (Registers { l: Some(value), ..self }),
    {
        Registers { l: Some(value), ..self }
    }

    #[must_use]
    pub fn with_zf(self, value: bool) -> (r: Self)
        ensures
            r == (Registers { zf: Some(value), ..self }),
    {
        Registers { zf: Some(value), ..self }
    }

    #[must_use]
    pub fn with_nf(self, value: bool) -> (r: Self)
        ensures
            r == (Registers { nf: Some(value), ..self }),
    {
        Registers { nf: Some(value), ..self }
    }

    #[must_use]
    pub fn with_hf(self, value: bool) -> (r: Self)
        ensures
            r == (Registers { hf: Some(value), ..self }),
    {
        Registers { hf: Some(value), ..self }
    }

    #[must_use]
    pub fn with_cf(self, value: bool) -> (r: Self)
        ensures
            r == (Registers { cf: Some(value), ..self }),
    {
        Registers { cf: Some(value), ..self }
    }

    #[must_use]
    pub fn with_bc(self, value: u16) -> (r: Self)
        ensures
            r == (Registers { bc: Some(value), ..self }),
    {
        Registers { bc: Some(value), ..self }
    }

    #[must_use]
    pub fn with_de(self, value: u16) -> (r: Self)
        ensures
            r == (Registers { de: Some(value), ..self }),
    {
        Registers { de: Some(value), ..self }
    }

    #[must_use]
    pub fn with_hl(self, value: u16) -> (r: Self)
        ensures
            r == (Registers { hl: Some(value), ..self }),
    {
        Registers { hl: Some(value), ..self }
    }

    #[must_use]
    pub fn with_pc(self, value: u16) -> (r: Self)
        ensures
            r == (Registers { pc: Some(value), ..self }),
    {
        Registers { pc: Some(value), ..self }
    }

    #[must_use]
    pub fn with_sp(self, value: u16) -> (r: Self)
        ensures
            r == (Registers { sp: Some(value), ..self }),
    {
        Registers { sp: Some(value), ..self }
    }

    /// Writes every present field to the CPU, and every memory byte through its
    /// address space.
    pub fn configure<S: AddressSpace>(&self, cpu: &mut State<S>)
        ensures
            final(cpu)@ == self.configured(old(cpu)@),
            final(cpu).cycles_elapsed == old(cpu).cycles_elapsed,
    {
        self.configure_fields(cpu);
        let ghost start = cpu@;
        let mut i: usize = 0;
        while i < self.memory.len()
            invariant
                i <= self.memory.len(),
                cpu@ == store_all(start, self.memory@.subrange(0, i as int)),
                cpu.cycles_elapsed == old(cpu).cycles_elapsed,
            decreases self.memory.len() - i,
        {
            let (address, value) = self.memory[i];
            cpu.write(address, value);
            proof {
                assert(self.memory@.subrange(0, i + 1).drop_last() =~= self.memory@.subrange(
                    0,
                    i as int,
                ));
            }
            i += 1;
        }
        proof {
            assert(self.memory@.subrange(0, self.memory.len() as int) =~= self.memory@);
        }
    }

    /// Writes the present flags.
    fn configure_flags(&self, f: &mut crate::cpu::Flags)
        ensures
            final(f).value == self.configured_flags(old(f).value),
    {
        if let Some(value) = self.zf {
            f.set_z(value);
        }
        if let Some(value) = self.nf {
            f.set_n(value);
        }
        if let Some(value) = self.hf {
            f.set_h(value);
        }
        if let Some(value) = self.cf {
            f.set_c(value);
        }
    }

    /// Writes the present registers and flags.
    fn configure_fields<S: AddressSpace>(&self, cpu: &mut State<S>)
        ensures
            final(cpu)@ == self.configured_fields(old(cpu)@),
    {
        if let Some(value) = self.a {
            cpu.a = value;
        }
        if let Some(value) = self.b {
            cpu.b = value;
        }
        if let Some(value) = self.c {
            cpu.c = value;
        }
        if let Some(value) = self.d {
            cpu.d = value;
        }
        if let Some(value) = self.e {
            cpu.e = value;
        }
        if let Some(value) = self.h {
            cpu.h = value;
        }
        if let Some(value) = self.l {
            cpu.l = value;
        }
        self.configure_flags(&mut cpu.f);
        if let Some(value) = self.bc {
            cpu.set_bc(value);
        }
        if let Some(value) = self.de {
            cpu.set_de(value);
        }
        if let Some(value) = self.hl {
            cpu.set_hl(value);
        }
        if let Some(value) = self.pc {
            cpu.pc = value;
        }
        if let Some(value) = self.sp {
            cpu.sp = value;
        }
    }

    /// Checks the CPU against every present field and memory byte, and reports all
    /// mismatches at once.
    pub fn compare<S: AddressSpace>(&self, cpu: &State<S>) -> (r: Result<(), Error>)
        ensures
            self.mismatches(cpu@).len() == 0 ==> r is Ok,
            self.mismatches(cpu@).len() != 0 ==> (r matches Err(Error::CompareFailed(c))
                && c.contents@ == self.mismatches(cpu@)),
    {
        let mut out: Vec<Mismatch> = Vec::new();
        push_check(&mut out, CompareSource::Register(Field::A), widen_exec(self.a), cpu.a as u16);
        push_check(&mut out, CompareSource::Register(Field::B), widen_exec(self.b), cpu.b as u16);
        push_check(&mut out, CompareSource::Register(Field::C), widen_exec(self.c), cpu.c as u16);
        push_check(&mut out, CompareSource::Register(Field::D), widen_exec(self.d), cpu.d as u16);
        push_check(&mut out, CompareSource::Register(Field::E), widen_exec(self.e), cpu.e as u16);
        push_check(&mut out, CompareSource::Register(Field::H), widen_exec(self.h), cpu.h as u16);
        push_check(&mut out, CompareSource::Register(Field::L), widen_exec(self.l), cpu.l as u16);
        push_check(
            &mut out,
            CompareSource::Register(Field::Zf),
            flag_widen_exec(self.zf),
            flag_bit(cpu.f.get_z()),
        );
        push_check(
            &mut out,
            CompareSource::Register(Field::Nf),
            flag_widen_exec(self.nf),
            flag_bit(cpu.f.get_n()),
        );
        push_check(
            &mut out,
            CompareSource::Register(Field::Hf),
            flag_widen_exec(self.hf),
            flag_bit(cpu.f.get_h()),
        );
        push_check(
            &mut out,
            CompareSource::Register(Field::Cf),
            flag_widen_exec(self.cf),
            flag_bit(cpu.f.get_c()),
        );
        push_check(&mut out, CompareSource::Register(Field::Bc), self.bc, cpu.get_bc());
        push_check(&mut out, CompareSource::Register(Field::De), self.de, cpu.get_de());
        push_check(&mut out, CompareSource::Register(Field::Hl), self.hl, cpu.get_hl());
        push_check(&mut out, CompareSource::Register(Field::Sp), self.sp, cpu.sp);
        push_check(&mut out, CompareSource::Register(Field::Pc), self.pc, cpu.pc);
        let ghost registers_part = out@;
        let mut i: usize = 0;
        while i < self.memory.len()
            invariant
                i <= self.memory.len(),
                out@ == registers_part + memory_mismatches(
                    self.memory@.subrange(0, i as int),
                    cpu@.mem,
                ),
            decreases self.memory.len() - i,
        {
            let (address, value) = self.memory[i];
            let actual = cpu.read(address);
            push_check(
                &mut out,
                CompareSource::Address(address),
                Some(value as u16),
                actual as u16,
            );
            proof {
                assert(self.memory@.subrange(0, i + 1).drop_last() =~= self.memory@.subrange(
                    0,
                    i as int,
                ));
            }
            i += 1;
        }
        proof {
            assert(self.memory@.subrange(0, self.memory.len() as int) =~= self.memory@);
        }
        if out.len() == 0 {
            Ok(())
        } else {
            Err(Error::CompareFailed(CompareResult { contents: out }))
        }
    }
}

fn widen_exec(o: Option<u8>) -> (r: Option<u16>)
    ensures
        r == widen(o),
{
    match o {
        Some(x) => Some(x as u16),
        None => None,
    }
}

fn flag_widen_exec(o: Option<bool>) -> (r: Option<u16>)
    ensures
        r == flag_widen(o),
{
    match o {
        Some(x) => Some(if x { 1 } else { 0 }),
        None => None,
    }
}

fn flag_bit(b: bool) -> (r: u16)
    ensures
        r == flag_value(b),
{
    if b {
        1
    } else {
        0
    }
}

/// Appends the mismatch of one value, if any.
fn push_check(out: &mut Vec<Mismatch>, source: CompareSource, expected: Option<u16>, actual: u16)
    ensures
        final(out)@ == old(out)@ + check(source, expected, actual),
{
    if let Some(value) = expected {
        if value != actual {
            out.push(Mismatch { source, actual, expected: value });
        }
    }
    proof {
        assert(final(out)@ =~= old(out)@ + check(source, expected, actual));
    }
}

/// Comparing against a description that constrains nothing always succeeds,
/// whatever the state of the CPU.
pub proof fn lemma_unconstrained_compare(r: Registers, m: Machine)
    requires
        r.is_unconstrained(),
    ensures
        r.mismatches(m).len() == 0,
{
    assert(r.memory@ =~= Seq::<(u16, u8)>::empty());
}

/// Configuring from a description that constrains nothing changes nothing.
pub proof fn lemma_unconstrained_configure(r: Registers, m: Machine)
    requires
        r.is_unconstrained(),
    ensures
        r.configured(m) == m,
{
    assert(r.memory@ =~= Seq::<(u16, u8)>::empty());
}

} // verus!
