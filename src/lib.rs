//! A cycle-counting simulator of the Game Boy CPU (SM83) and an engine that runs
//! assembly routines on it and checks their outcome against expectations.

pub mod bus;
pub mod config;
pub mod cpu;
pub mod isa;
pub mod memory;
pub mod log;
pub mod reg;
pub mod registers;
pub mod sym;
pub mod test;

use vstd::prelude::*;

verus! {

/// The library's error type.
pub enum Error {
    /// Returned when some tests failed; holds how many.
    TestsFailed(u32),
    /// The CPU's state did not match what a test expected.
    CompareFailed(registers::CompareResult),
}

/// Prepares a ROM image for loading: pads it with 0xFF to a full
/// 16 KiB bank 0 when shorter.
pub fn pad_rom(rom: &mut Vec<u8>)
    ensures
        final(rom)@.len() == if old(rom)@.len() < ROM_BANK_SIZE {
            ROM_BANK_SIZE as int
        } else {
            old(rom)@.len() as int
        },
        forall|i: int| 0 <= i < old(rom)@.len() ==> final(rom)@[i] == old(rom)@[i],
        forall|i: int| old(rom)@.len() <= i < final(rom)@.len() ==> final(rom)@[i] == 0xFF,
{
    while rom.len() < ROM_BANK_SIZE
        invariant
            old(rom)@.len() <= rom@.len() <= if old(rom)@.len() < ROM_BANK_SIZE {
                ROM_BANK_SIZE as int
            } else {
                old(rom)@.len() as int
            },
            forall|i: int| 0 <= i < old(rom)@.len() ==> rom@[i] == old(rom)@[i],
            forall|i: int| old(rom)@.len() <= i < rom@.len() ==> rom@[i] == 0xFF,
        decreases ROM_BANK_SIZE - rom.len(),
    {
        rom.push(0xFF);
    }
}

/// The size of ROM bank 0.
pub const ROM_BANK_SIZE: usize = 0x4000;

/// The machine of a fresh CPU over a fresh address space for `rom`.
pub open spec fn fresh_machine(rom: Seq<u8>) -> isa::Machine {
    isa::Machine {
        a: 0,
        f: 0,
        b: 0,
        c: 0,
        d: 0,
        e: 0,
        h: 0,
        l: 0,
        pc: 0,
        sp: 0xE000,
        ime: true,
        cycles: 0,
        mem: memory::fresh_contents(rom),
        writable: memory::ram(),
    }
}

/// Whether a test passes when run on a fresh CPU over `rom`.
pub open spec fn test_passes(t: test::TestConfig, rom: Seq<u8>) -> bool {
    let (m, o) = t.outcome(t.prepared(fresh_machine(rom)));
    t.passes(o, m)
}

/// Runs each test on a fresh CPU over its own copy of `rom`, in order, records
/// each report in `logger`'s counts, and returns the reports. Fails when some test
/// has failed so far, with the number of failures.
pub fn run_tests(rom: &Vec<u8>, tests: &Vec<test::TestConfig>, logger: &mut log::Logger) -> (r: (
    Vec<log::TestLogger>,
    Result<(), Error>,
))
    requires
        forall|i: int| 0 <= i < tests@.len() ==> #[trigger] tests@[i].timeout <= usize::MAX
            - cpu::MAX_TICK_CYCLES,
    ensures
        r.0@.len() == tests@.len(),
        forall|i: int|
            0 <= i < tests@.len() ==> (#[trigger] r.0@[i]).name@ == tests@[i].name@ && (
            r.0@[i].entries@.last() is Pass) == test_passes(tests@[i], rom@),
        r.1 is Ok <==> final(logger).failure == 0,
        r.1 matches Err(Error::TestsFailed(n)) ==> n == final(logger).failure,
{
    let mut reports: Vec<log::TestLogger> = Vec::new();
    let mut i: usize = 0;
    while i < tests.len()
        invariant
            i <= tests.len(),
            reports@.len() == i,
            forall|j: int| 0 <= j < tests@.len() ==> #[trigger] tests@[j].timeout <= usize::MAX
                - cpu::MAX_TICK_CYCLES,
            forall|j: int|
                0 <= j < i ==> (#[trigger] reports@[j]).name@ == tests@[j].name@ && (
                reports@[j].entries@.last() is Pass) == test_passes(tests@[j], rom@),
        decreases tests.len() - i,
    {
        let test = &tests[i];
        let mut cpu = cpu::State::new(memory::AddressSpace::with(rom));
        proof {
            assert(cpu@ == fresh_machine(rom@));
        }
        let mut report = logger.make_test(test);
        let passed = test.run(&mut cpu, &mut report);
        logger.record(&report);
        reports.push(report);
        i += 1;
    }
    if logger.failure == 0 {
        (reports, Ok(()))
    } else {
        let n = logger.failure;
        (reports, Err(Error::TestsFailed(n)))
    }
}

/// The banked symbols that the lines of a sym file define, in line order, or the
/// first line (counted from 0) that cannot be parsed.
pub open spec fn banked_symbols(lines: Seq<Seq<char>>) -> Result<
    Seq<(Seq<char>, (u32, u16))>,
    (int, sym::ParseError),
>
    decreases lines.len(),
{
    if lines.len() == 0 {
        Ok(seq![])
    } else {
        match banked_symbols(lines.drop_last()) {
            Err(e) => Err(e),
            Ok(found) => match sym::line_meaning(lines.last()) {
                Err(e) => Err((lines.len() - 1, e)),
                Ok(Some((name, sym::Location::Banked(bank, address)))) => Ok(
                    found.push((name, (bank, address))),
                ),
                Ok(_) => Ok(found),
            },
        }
    }
}

/// Once a prefix of the lines fails, the whole file fails the same way.
proof fn lemma_prefix_error(lines: Seq<Seq<char>>, k: int)
    requires
        0 <= k <= lines.len(),
        banked_symbols(lines.subrange(0, k)) is Err,
    ensures
        banked_symbols(lines) == banked_symbols(lines.subrange(0, k)),
    decreases lines.len(),
{
    if k < lines.len() {
        assert(lines.drop_last().subrange(0, k) =~= lines.subrange(0, k));
        lemma_prefix_error(lines.drop_last(), k);
    } else {
        assert(lines.subrange(0, k) =~= lines);
    }
}

/// Reads the lines of a sym file and keeps the symbols of a specific bank, as
/// `(name, (bank, address))`, in line order; lines without a symbol are skipped.
/// Fails on the first line that cannot be parsed, with its index.
pub fn read_symfile(lines: &Vec<String>) -> (r: Result<Vec<(String, (u32, u16))>, (usize, sym::ParseError)>)
    ensures
        r matches Ok(v) ==> banked_symbols(lines@.map_values(|s: String| s@)) matches Ok(w) && v@.len()
            == w.len() && forall|i: int| 0 <= i < w.len() ==> (#[trigger] v@[i]).0@ == w[i].0 && v@[i].1
            == w[i].1,
        r matches Err((n, e)) ==> banked_symbols(lines@.map_values(|s: String| s@)) == Err::<
            Seq<(Seq<char>, (u32, u16))>,
            (int, sym::ParseError),
        >((n as int, e)),
{
    let ghost all = lines@.map_values(|s: String| s@);
    let mut out: Vec<(String, (u32, u16))> = Vec::new();
    let mut i: usize = 0;
    while i < lines.len()
        invariant
            i <= lines.len(),
            all == lines@.map_values(|s: String| s@),
            banked_symbols(all.subrange(0, i as int)) matches Ok(w) && out@.len() == w.len() && forall|
                k: int,
            |
                0 <= k < w.len() ==> (#[trigger] out@[k]).0@ == w[k].0 && out@[k].1 == w[k].1,
        decreases lines.len() - i,
    {
        proof {
            assert(all.subrange(0, i + 1).drop_last() =~= all.subrange(0, i as int));
            assert(all.subrange(0, i + 1).last() == lines@[i as int]@);
        }
        match sym::parse_line(lines[i].as_str()) {
            Err(e) => {
                proof {
                    lemma_prefix_error(all, i + 1);
                }
                return Err((i, e));
            },
            Ok(Some((name, sym::Location::Banked(bank, address)))) => {
                out.push((name, (bank, address)));
            },
            Ok(_) => {},
        }
        i += 1;
    }
    proof {
        assert(all.subrange(0, lines.len() as int) =~= all);
    }
    Ok(out)
}

} // verus!
