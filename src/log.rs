//! What the engine reports about each test. Printing is left to the caller: the
//! library records what happened, in order, and keeps the pass and failure counts.

use crate::bus::AddressSpace;
use crate::cpu::State;
use crate::registers::CompareResult;
use crate::test::{FailureReason, TestConfig};
use crate::Error;
use vstd::prelude::*;

verus! {

/// How much of the report to print.
#[derive(Clone, Copy, Debug, Default, Eq, PartialEq, Structural)]
pub enum SilenceLevel {
    /// Print everything.
    #[default]
    Off,
    /// Do not print tests that pass.
    Passing,
    /// Print nothing unless a test fails.
    All,
}

/// The CPU's registers at some point of a test, for a report.
#[derive(Clone, Copy, Debug)]
pub struct Snapshot {
    pub a: u8,
    pub f: u8,
    pub b: u8,
    pub c: u8,
    pub d: u8,
    pub e: u8,
    pub h: u8,
    pub l: u8,
    pub pc: u16,
    pub sp: u16,
    pub ime: bool,
    pub cycles_elapsed: usize,
}

impl Snapshot {
    pub open spec fn matches_state<A: AddressSpace>(self, cpu: &State<A>) -> bool {
        self.a == cpu.a && self.f == cpu.f.value && self.b == cpu.b && self.c == cpu.c && self.d
            == cpu.d && self.e == cpu.e && self.h == cpu.h && self.l == cpu.l && self.pc == cpu.pc
            && self.sp == cpu.sp && self.ime == cpu.ime && self.cycles_elapsed
            == cpu.cycles_elapsed
    }

    /// The registers of `cpu` now.
    pub fn of<A: AddressSpace>(cpu: &State<A>) -> (r: Snapshot)
        ensures
            r.matches_state(cpu),
    {
        Snapshot {
            a: cpu.a,
            f: cpu.f.value,
            b: cpu.b,
            c: cpu.c,
            d: cpu.d,
            e: cpu.e,
            h: cpu.h,
            l: cpu.l,
            pc: cpu.pc,
            sp: cpu.sp,
            ime: cpu.ime,
            cycles_elapsed: cpu.cycles_elapsed,
        }
    }
}

/// One event of a test's report.
#[derive(Clone, Debug)]
pub enum LogEntry {
    /// A `ld b, b` was executed.
    Breakpoint(Snapshot),
    /// A `ld d, d` was executed.
    Debug(Snapshot),
    /// The test passed.
    Pass,
    /// The test stopped on a failure; the registers at that point.
    Failure(FailureReason, Snapshot),
    /// The test ended, but not in the expected state.
    Incorrect(CompareResult),
}

/// Counts the results of a run of tests.
pub struct Logger {
    pub silence_all: bool,
    pub silence_passing: bool,
    pub rom_path: String,
    pub pass: u32,
    pub failure: u32,
}

/// Records the report of one test.
pub struct TestLogger {
    pub name: String,
    pub enable_breakpoints: bool,
    pub silence_passing: bool,
    pub entries: Vec<LogEntry>,
}

impl Logger {
    #[must_use]
    pub fn new(silence_level: SilenceLevel, rom_path: &str) -> (r: Logger)
        ensures
            r.silence_all == (silence_level == SilenceLevel::All),
            r.silence_passing == (silence_level != SilenceLevel::Off),
            r.rom_path@ == rom_path@,
            r.pass == 0,
            r.failure == 0,
    {
        let (silence_all, silence_passing) = match silence_level {
            SilenceLevel::Off => (false, false),
            SilenceLevel::Passing => (false, true),
            SilenceLevel::All => (true, true),
        };
        Logger {
            silence_all,
            silence_passing,
            rom_path: rom_path.to_string(),
            pass: 0,
            failure: 0,
        }
    }

    /// A recorder for one test, with nothing recorded yet.
    pub fn make_test(&self, config: &TestConfig) -> (r: TestLogger)
        ensures
            r.name@ == config.name@,
            r.enable_breakpoints == config.enable_breakpoints,
            r.silence_passing == self.silence_passing,
            r.entries@.len() == 0,
    {
        TestLogger {
            name: config.name.clone(),
            enable_breakpoints: config.enable_breakpoints,
            silence_passing: self.silence_passing,
            entries: Vec::new(),
        }
    }

    /// Counts the outcome of a finished test: each pass and each failure that it
    /// recorded (the counts stop at their largest value).
    pub fn record(&mut self, test: &TestLogger)
        ensures
            final(self).pass as int == min_u32(old(self).pass + passes(test.entries@)),
            final(self).failure as int == min_u32(old(self).failure + failures(test.entries@)),
            final(self).silence_all == old(self).silence_all,
            final(self).silence_passing == old(self).silence_passing,
            final(self).rom_path == old(self).rom_path,
    {
        let mut i: usize = 0;
        while i < test.entries.len()
            invariant
                i <= test.entries.len(),
                self.pass as int == min_u32(
                    old(self).pass + passes(test.entries@.subrange(0, i as int)),
                ),
                self.failure as int == min_u32(
                    old(self).failure + failures(test.entries@.subrange(0, i as int)),
                ),
                self.silence_all == old(self).silence_all,
                self.silence_passing == old(self).silence_passing,
                self.rom_path == old(self).rom_path,
            decreases test.entries.len() - i,
        {
            proof {
                assert(test.entries@.subrange(0, i + 1).drop_last() =~= test.entries@.subrange(
                    0,
                    i as int,
                ));
            }
            match &test.entries[i] {
                LogEntry::Pass => {
                    if self.pass < u32::MAX {
                        self.pass += 1;
                    }
                },
                LogEntry::Failure(..) | LogEntry::Incorrect(_) => {
                    if self.failure < u32::MAX {
                        self.failure += 1;
                    }
                },
                _ => {},
            }
            i += 1;
        }
        proof {
            assert(test.entries@.subrange(0, test.entries.len() as int) =~= test.entries@);
        }
    }

    /// Whether every test counted so far has passed.
    #[must_use]
    pub fn all_passed(&self) -> (r: bool)
        ensures
            r == (self.failure == 0),
    {
        self.failure == 0
    }
}

pub open spec fn min_u32(x: int) -> int {
    if x > u32::MAX {
        u32::MAX as int
    } else {
        x
    }
}

/// Whether every entry of `entries` from index `from` on is a breakpoint or a
/// debug marker.
pub open spec fn markers_from(entries: Seq<LogEntry>, from: int) -> bool {
    forall|k: int| from <= k < entries.len() ==> (#[trigger] entries[k] is Breakpoint || entries[k] is Debug)
}

/// How many passes a report holds.
pub open spec fn passes(entries: Seq<LogEntry>) -> int
    decreases entries.len(),
{
    if entries.len() == 0 {
        0
    } else {
        passes(entries.drop_last()) + if entries.last() is Pass {
            1int
        } else {
            0
        }
    }
}

/// How many failures (stops on a failure, and wrong results) a report holds.
pub open spec fn failures(entries: Seq<LogEntry>) -> int
    decreases entries.len(),
{
    if entries.len() == 0 {
        0
    } else {
        failures(entries.drop_last()) + if entries.last() is Failure || entries.last() is Incorrect {
            1int
        } else {
            0
        }
    }
}

impl TestLogger {
    /// Records a breakpoint, if breakpoints are enabled for this test.
    pub fn log_breakpoint<A: AddressSpace>(&mut self, cpu_state: &State<A>)
        ensures
            final(self).entries@.len() >= old(self).entries@.len(),
            final(self).name == old(self).name,
            final(self).enable_breakpoints == old(self).enable_breakpoints,
            final(self).silence_passing == old(self).silence_passing,
            old(self).enable_breakpoints ==> final(self).entries@.len() == old(self).entries@.len()
                + 1 && final(self).entries@.drop_last() == old(self).entries@ && (
            final(self).entries@.last() matches LogEntry::Breakpoint(s) && s.matches_state(
                cpu_state,
            )),
            !old(self).enable_breakpoints ==> final(self).entries@ == old(self).entries@,
    {
        if self.enable_breakpoints {
            self.entries.push(LogEntry::Breakpoint(Snapshot::of(cpu_state)));
            proof {
                assert(final(self).entries@.drop_last() =~= old(self).entries@);
            }
        }
    }

    /// Records a debug marker, if breakpoints are enabled for this test.
    pub fn log_debug<A: AddressSpace>(&mut self, cpu_state: &State<A>)
        ensures
            final(self).entries@.len() >= old(self).entries@.len(),
            final(self).name == old(self).name,
            final(self).enable_breakpoints == old(self).enable_breakpoints,
            final(self).silence_passing == old(self).silence_passing,
            old(self).enable_breakpoints ==> final(self).entries@.len() == old(self).entries@.len()
                + 1 && final(self).entries@.drop_last() == old(self).entries@ && (
            final(self).entries@.last() matches LogEntry::Debug(s) && s.matches_state(cpu_state)),
            !old(self).enable_breakpoints ==> final(self).entries@ == old(self).entries@,
    {
        if self.enable_breakpoints {
            self.entries.push(LogEntry::Debug(Snapshot::of(cpu_state)));
            proof {
                assert(final(self).entries@.drop_last() =~= old(self).entries@);
            }
        }
    }

    /// Records that the test passed.
    pub fn pass(&mut self)
        ensures
            final(self).entries@ == old(self).entries@.push(LogEntry::Pass),
            final(self).name == old(self).name,
    {
        self.entries.push(LogEntry::Pass);
    }

    /// Records that the test stopped on a failure.
    pub fn failure<A: AddressSpace>(&mut self, failure_reason: &FailureReason, cpu_state: &State<A>)
        ensures
            final(self).entries@.drop_last() == old(self).entries@,
            final(self).entries@.len() == old(self).entries@.len() + 1,
            final(self).entries@.last() matches LogEntry::Failure(r, s) && r == *failure_reason
                && s.matches_state(cpu_state),
            final(self).name == old(self).name,
    {
        self.entries.push(LogEntry::Failure(*failure_reason, Snapshot::of(cpu_state)));
        proof {
            assert(final(self).entries@.drop_last() =~= old(self).entries@);
        }
    }

    /// Records that the test ended in the wrong state; anything but a comparison
    /// failure is recorded as an empty list of mismatches.
    pub fn incorrect(&mut self, msg: Error)
        ensures
            final(self).entries@.drop_last() == old(self).entries@,
            final(self).entries@.len() == old(self).entries@.len() + 1,
            msg matches Error::CompareFailed(c) ==> (final(self).entries@.last() matches LogEntry::Incorrect(
                d,
            ) && d.contents@ == c.contents@),
            final(self).name == old(self).name,
    {
        let result = match msg {
            Error::CompareFailed(c) => c,
            Error::TestsFailed(_) => CompareResult { contents: Vec::new() },
        };
        self.entries.push(LogEntry::Incorrect(result));
        proof {
            assert(final(self).entries@.drop_last() =~= old(self).entries@);
        }
    }
}

} // verus!
