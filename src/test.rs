//! One test case and the engine that runs it.

use crate::bus::AddressSpace;
use crate::cpu::{State, TickResult, MAX_TICK_CYCLES};
use crate::isa;
use crate::isa::Machine;
use crate::log::{LogEntry, TestLogger};
use crate::registers::Registers;
use vstd::prelude::*;

verus! {

/// One named test case.
#[derive(Debug, Clone)]
pub struct TestConfig {
    /// Test name. Important for diagnosing which test has failed.
    pub name: String,
    /// The address from which the test function is "called": reaching it ends the
    /// test.
    pub caller_address: u16,
    /// Addresses that mean a crash; for example, 0x0038 is a common crash handler.
    pub crash_addresses: Vec<u16>,
    /// Addresses that mean a successful exit, for routines that do not `ret`.
    pub exit_addresses: Vec<u16>,
    /// Whether `ld b, b` and `ld d, d` are reported.
    pub enable_breakpoints: bool,
    /// The test fails once this many M-cycles have elapsed.
    pub timeout: usize,
    /// The initial state of the CPU.
    pub initial: Registers,
    /// The expected final state of the CPU, if any.
    pub result: Option<Registers>,
}

/// Why a test stopped short of its end.
#[derive(Clone, Copy, Debug, PartialEq, Eq, Structural)]
pub enum FailureReason {
    /// The program counter reached a crash address.
    Crash,
    /// The CPU met an opcode that no instruction has.
    InvalidOpcode,
    /// The cycle budget ran out.
    Timeout,
}

impl TestConfig {
    /// A test with the given name and defaults: caller address 0xFFFF, no exit or
    /// crash addresses, breakpoints enabled, a timeout of 65536 cycles, no initial
    /// state and no expected result.
    pub fn new(name: String) -> (r: TestConfig)
        ensures
            r.name == name,
            r.caller_address == 0xFFFF,
            r.exit_addresses@.len() == 0,
            r.crash_addresses@.len() == 0,
            r.enable_breakpoints,
            r.timeout == 65536,
            r.initial.is_unconstrained(),
            r.result is None,
    {
        TestConfig {
            name,
            caller_address: 0xFFFF,
            exit_addresses: Vec::new(),
            crash_addresses: Vec::new(),
            enable_breakpoints: true,
            timeout: 65536,
            initial: Registers::new(),
            result: None,
        }
    }

    /// The machine once the test is set up: the initial state applied, then the
    /// caller address pushed (high byte at the lower address) as a return address.
    pub open spec fn prepared(&self, m: Machine) -> Machine {
        let m1 = self.initial.configured(m);
        let sp1 = isa::w16(m1.sp - 1);
        let sp2 = isa::w16(m1.sp - 2);
        m1.store(sp1, isa::low(self.caller_address)).store(sp2, isa::high(self.caller_address)).with_sp(
            sp2,
        )
    }

    /// Whether the program counter alone ends the test: the caller or an exit
    /// address ends it normally, a crash address fails it.
    pub open spec fn stop_at(&self, m: Machine) -> Option<Result<(), FailureReason>> {
        if m.pc == self.caller_address || self.exit_addresses@.contains(m.pc) {
            Some(Ok(()))
        } else if self.crash_addresses@.contains(m.pc) {
            Some(Err(FailureReason::Crash))
        } else {
            None
        }
    }

    /// Whether the test stops after a step that gave `r` and left the machine in
    /// `m`, and how: a halt or stop ends it, an invalid opcode fails it; then the
    /// program counter is checked ([`TestConfig::stop_at`]); then running out of
    /// cycles fails it.
    pub open spec fn stop_after(&self, r: TickResult, m: Machine) -> Option<
        Result<(), FailureReason>,
    > {
        if r == TickResult::Halt || r == TickResult::Stop {
            Some(Ok(()))
        } else if r == TickResult::InvalidOpcode {
            Some(Err(FailureReason::InvalidOpcode))
        } else if self.stop_at(m) is Some {
            self.stop_at(m)
        } else if m.cycles >= self.timeout {
            Some(Err(FailureReason::Timeout))
        } else {
            None
        }
    }

    /// The machine and the way the test ends, from the prepared machine `m`: the
    /// program counter is checked before the first step too, so a routine that
    /// starts at the caller address ends at once.
    pub open spec fn outcome(&self, m: Machine) -> (Machine, Result<(), FailureReason>) {
        match self.stop_at(m) {
            Some(o) => (m, o),
            None => self.run_from(m),
        }
    }

    /// The machine and the way the test ends, stepping from `m`.
    pub open spec fn run_from(&self, m: Machine) -> (Machine, Result<(), FailureReason>)
        decreases self.timeout - m.cycles,
        via Self::run_from_decreases
    {
        let (m1, r) = m.step();
        match self.stop_after(r, m1) {
            Some(o) => (m1, o),
            None => self.run_from(m1),
        }
    }

    #[via_fn]
    proof fn run_from_decreases(&self, m: Machine) {
        isa::lemma_step_advances(m);
    }

    /// Whether a test that ended as `o` in state `m` passes: it ended normally, and
    /// the state matches the expected result, if there is one.
    pub open spec fn passes(&self, o: Result<(), FailureReason>, m: Machine) -> bool {
        o is Ok && match self.result {
            Some(r) => r.mismatches(m).len() == 0,
            None => true,
        }
    }

    /// Applies the initial state and pushes the caller address as a return address.
    fn set_up<A: AddressSpace>(&self, cpu_state: &mut State<A>)
        ensures
            final(cpu_state)@ == self.prepared(old(cpu_state)@),
            final(cpu_state).cycles_elapsed == old(cpu_state).cycles_elapsed,
    {
        self.initial.configure(cpu_state);
        let sp = cpu_state.sp;
        let sp1 = if sp == 0 { 0xFFFF } else { sp - 1 };
        let sp2 = if sp1 == 0 { 0xFFFF } else { sp1 - 1 };
        cpu_state.write(sp1, (self.caller_address % 256) as u8);
        cpu_state.write(sp2, (self.caller_address / 256) as u8);
        cpu_state.sp = sp2;
    }

    /// Whether the program counter alone ends the test.
    fn check_position<A: AddressSpace>(&self, cpu_state: &State<A>) -> (o: Option<
        Result<(), FailureReason>,
    >)
        ensures
            o == self.stop_at(cpu_state@),
    {
        if cpu_state.pc == self.caller_address || contains(&self.exit_addresses, cpu_state.pc) {
            Some(Ok(()))
        } else if contains(&self.crash_addresses, cpu_state.pc) {
            Some(Err(FailureReason::Crash))
        } else {
            None
        }
    }

    /// Whether the test stops after a step that gave `r`.
    fn check_stop<A: AddressSpace>(&self, r: &TickResult, cpu_state: &State<A>) -> (o: Option<
        Result<(), FailureReason>,
    >)
        ensures
            o == self.stop_after(*r, cpu_state@),
    {
        if *r == TickResult::Halt || *r == TickResult::Stop {
            Some(Ok(()))
        } else if *r == TickResult::InvalidOpcode {
            Some(Err(FailureReason::InvalidOpcode))
        } else {
            let position = self.check_position(cpu_state);
            if position.is_some() {
                position
            } else if cpu_state.cycles_elapsed >= self.timeout {
                Some(Err(FailureReason::Timeout))
            } else {
                None
            }
        }
    }

    /// Steps the CPU until the test stops, reporting breakpoints on the way.
    fn run_loop<A: AddressSpace>(&self, cpu_state: &mut State<A>, logger: &mut TestLogger) -> (o:
        Result<(), FailureReason>)
        requires
            self.timeout <= usize::MAX - MAX_TICK_CYCLES,
            old(cpu_state).cycles_elapsed <= usize::MAX - MAX_TICK_CYCLES,
        ensures
            (final(cpu_state)@, o) == self.run_from(old(cpu_state)@),
            final(logger).entries@.len() >= old(logger).entries@.len(),
            final(logger).entries@.subrange(0, old(logger).entries@.len() as int)
                == old(logger).entries@,
            crate::log::markers_from(final(logger).entries@, old(logger).entries@.len() as int),
            final(logger).name == old(logger).name,
    {
        let ghost start = cpu_state@;
        let mut done = false;
        let mut condition: Result<(), FailureReason> = Ok(());
        while !done
            invariant
                !done ==> self.run_from(cpu_state@) == self.run_from(start),
                !done ==> cpu_state.cycles_elapsed <= usize::MAX - MAX_TICK_CYCLES,
                done ==> (cpu_state@, condition) == self.run_from(start),
                self.timeout <= usize::MAX - MAX_TICK_CYCLES,
                logger.entries@.len() >= old(logger).entries@.len(),
                logger.entries@.subrange(0, old(logger).entries@.len() as int)
                    == old(logger).entries@,
                crate::log::markers_from(logger.entries@, old(logger).entries@.len() as int),
                logger.name == old(logger).name,
            decreases (if done {
                0
            } else {
                usize::MAX - cpu_state.cycles_elapsed + 1
            }),
        {
            let ghost before = cpu_state@;
            let ghost log_before = logger.entries@;
            let r = cpu_state.tick();
            proof {
                isa::lemma_step_advances(before);
            }
            match r {
                TickResult::Break => logger.log_breakpoint(cpu_state),
                TickResult::Debug => logger.log_debug(cpu_state),
                _ => {},
            }
            proof {
                let n = old(logger).entries@.len() as int;
                let now = logger.entries@;
                if now.len() > log_before.len() {
                    assert(now.drop_last() == log_before);
                    assert forall|k: int| 0 <= k < n implies now[k] == old(logger).entries@[k] by {
                        assert(now.drop_last()[k] == now[k]);
                        assert(log_before.subrange(0, n)[k] == log_before[k]);
                    }
                    assert(now.subrange(0, n) =~= old(logger).entries@);
                    assert forall|k: int| n <= k < now.len() implies (#[trigger] now[k] is Breakpoint
                        || now[k] is Debug) by {
                        if k < now.len() - 1 {
                            assert(now.drop_last()[k] == now[k]);
                        }
                    }
                }
            }
            let stop = self.check_stop(&r, cpu_state);
            proof {
                assert(self.run_from(before) == match self.stop_after(r, cpu_state@) {
                    Some(o) => (cpu_state@, o),
                    None => self.run_from(cpu_state@),
                });
            }
            if let Some(o) = stop {
                done = true;
                condition = o;
            }
        }
        condition
    }

    /// Runs the test on `cpu_state` and records its outcome in `logger`: set up,
    /// step until it stops, then compare with the expected result. Returns whether
    /// the test passed.
    pub fn run<A: AddressSpace>(&self, cpu_state: &mut State<A>, logger: &mut TestLogger) -> (passed:
        bool)
        requires
            self.timeout <= usize::MAX - MAX_TICK_CYCLES,
            old(cpu_state).cycles_elapsed <= usize::MAX - MAX_TICK_CYCLES,
        ensures
            final(cpu_state)@ == self.outcome(self.prepared(old(cpu_state)@)).0,
            passed == self.passes(
                self.outcome(self.prepared(old(cpu_state)@)).1,
                final(cpu_state)@,
            ),
            final(logger).entries@.len() > old(logger).entries@.len(),
            final(logger).entries@.subrange(0, old(logger).entries@.len() as int)
                == old(logger).entries@,
            crate::log::markers_from(
                final(logger).entries@.drop_last(),
                old(logger).entries@.len() as int,
            ),
            final(logger).name == old(logger).name,
            ({
                let (m, o) = self.outcome(self.prepared(old(cpu_state)@));
                let last = final(logger).entries@.last();
                match o {
                    Err(f) => last matches LogEntry::Failure(g, s) && g == f && s.matches_state(
                        &*final(cpu_state),
                    ),
                    Ok(()) => if passed {
                        last is Pass
                    } else {
                        last matches LogEntry::Incorrect(c) && self.result matches Some(r)
                            && c.contents@ == r.mismatches(m)
                    },
                }
            }),
    {
        self.set_up(cpu_state);
        let condition = match self.check_position(cpu_state) {
            Some(o) => o,
            None => self.run_loop(cpu_state, logger),
        };
        match condition {
            Err(failure_reason) => {
                logger.failure(&failure_reason, cpu_state);
                false
            },
            Ok(()) => {
                match &self.result {
                    Some(result) => match result.compare(cpu_state) {
                        Ok(()) => {
                            logger.pass();
                            true
                        },
                        Err(msg) => {
                            logger.incorrect(msg);
                            false
                        },
                    },
                    None => {
                        logger.pass();
                        true
                    },
                }
            },
        }
    }
}

/// A test whose routine starts at its caller address ends before any step, in
/// the state it was set up in, and passes when no result is expected.
pub proof fn lemma_start_at_caller(t: TestConfig, m: Machine)
    requires
        t.prepared(m).pc == t.caller_address,
        t.result is None,
    ensures
        t.outcome(t.prepared(m)) == (t.prepared(m), Ok::<(), FailureReason>(())),
        t.passes(t.outcome(t.prepared(m)).1, t.outcome(t.prepared(m)).0),
{
}

/// A routine whose entry point is a crash address fails with a crash before any
/// step, whatever it would do (unless that address also ends the test normally).
pub proof fn lemma_crash_at_entry(t: TestConfig, m: Machine)
    requires
        t.crash_addresses@.contains(t.prepared(m).pc),
        t.prepared(m).pc != t.caller_address,
        !t.exit_addresses@.contains(t.prepared(m).pc),
    ensures
        t.outcome(t.prepared(m)) == (t.prepared(m), Err::<(), FailureReason>(FailureReason::Crash)),
{
}

/// With a timeout of zero cycles, a routine fails with a timeout on its first
/// step, unless that step itself ends the test (a halt, a stop, an invalid opcode,
/// or a jump to the caller, an exit or a crash address).
pub proof fn lemma_zero_timeout(t: TestConfig, m: Machine)
    requires
        t.timeout == 0,
        m.cycles >= 0,
        t.stop_at(m) is None,
        t.stop_after(m.step().1, m.step().0) == t.stop_after(TickResult::Continue, m.step().0),
        t.stop_at(m.step().0) is None,
    ensures
        t.outcome(m) == (m.step().0, Err::<(), FailureReason>(FailureReason::Timeout)),
{
    isa::lemma_step_advances(m);
}

/// Meeting the undefined opcode 0xD3 fails the test with an invalid opcode, at
/// whatever point of the run the program counter reaches it.
pub proof fn lemma_invalid_opcode_fails(t: TestConfig, m: Machine)
    requires
        m.mem[m.pc] == 0xD3,
    ensures
        t.run_from(m) == (m.step().0, Err::<(), FailureReason>(FailureReason::InvalidOpcode)),
{
    isa::lemma_invalid_opcode(m);
}

/// Whether `x` is in `v`.
fn contains(v: &Vec<u16>, x: u16) -> (r: bool)
    ensures
        r == v@.contains(x),
{
    let mut i: usize = 0;
    while i < v.len()
        invariant
            i <= v.len(),
            forall|j: int| 0 <= j < i ==> v@[j] != x,
        decreases v.len() - i,
    {
        if v[i] == x {
            return true;
        }
        i += 1;
    }
    false
}

} // verus!
