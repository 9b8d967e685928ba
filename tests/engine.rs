use evunit::bus::AddressSpace as _;
use evunit::cpu::{State, TickResult};
use evunit::log::{LogEntry, Logger, SilenceLevel, TestLogger};
use evunit::memory::AddressSpace;
use evunit::registers::{CompareSource, Field, Mismatch, Registers};
use evunit::test::{FailureReason, TestConfig};
use evunit::Error;

fn rom_with(code: &[u8]) -> Vec<u8> {
    let mut rom = vec![0u8; 0x4000];
    rom[..code.len()].copy_from_slice(code);
    rom
}

fn run_test(config: &TestConfig, rom: &Vec<u8>) -> (bool, State<AddressSpace>, TestLogger) {
    let logger = Logger::new(SilenceLevel::Off, "test.gb");
    let mut test_logger = logger.make_test(config);
    let mut cpu = State::new(AddressSpace::with(rom));
    let passed = config.run(&mut cpu, &mut test_logger);
    (passed, cpu, test_logger)
}

#[test]
fn add_routine_passes() {
    // ld a, 1 / ld b, 2 / add a, b / ret
    let rom = rom_with(&[0x3E, 0x01, 0x06, 0x02, 0x80, 0xC9]);
    let mut config = TestConfig::new(String::from("add"));
    config.initial = Registers::new().with_a(1).with_b(2);
    config.result = Some(Registers::new().with_a(3));
    let (passed, cpu, log) = run_test(&config, &rom);
    assert!(passed);
    assert_eq!(cpu.a, 3);
    assert_eq!(cpu.pc, 0xFFFF);
    assert!(matches!(log.entries.last(), Some(LogEntry::Pass)));
}

#[test]
fn wrong_result_is_incorrect_with_every_mismatch() {
    let rom = rom_with(&[0x3E, 0x01, 0x06, 0x02, 0x80, 0xC9]);
    let mut config = TestConfig::new(String::from("add"));
    config.result = Some(Registers::new().with_a(4).with_b(2).with_zf(true));
    let (passed, _cpu, log) = run_test(&config, &rom);
    assert!(!passed);
    match log.entries.last() {
        Some(LogEntry::Incorrect(c)) => {
            assert_eq!(
                c.contents,
                vec![
                    Mismatch { source: CompareSource::Register(Field::A), actual: 3, expected: 4 },
                    Mismatch { source: CompareSource::Register(Field::Zf), actual: 0, expected: 1 },
                ]
            );
        }
        _ => panic!("expected an incorrect result"),
    }
}

#[test]
fn start_at_caller_passes_without_a_step() {
    let rom = rom_with(&[0xD3]);
    let mut config = TestConfig::new(String::from("empty"));
    config.caller_address = 0x0000;
    let (passed, cpu, log) = run_test(&config, &rom);
    assert!(passed);
    assert_eq!(cpu.cycles_elapsed, 0);
    assert_eq!(log.entries.len(), 1);
}

#[test]
fn crash_at_entry_fails_at_once() {
    let rom = rom_with(&[0x3E, 0x01, 0x06, 0x02, 0x80, 0xC9]);
    let mut config = TestConfig::new(String::from("crash"));
    config.crash_addresses = vec![0x0000];
    let (passed, cpu, log) = run_test(&config, &rom);
    assert!(!passed);
    assert_eq!(cpu.cycles_elapsed, 0);
    assert!(matches!(log.entries.last(), Some(LogEntry::Failure(FailureReason::Crash, _))));
}

#[test]
fn crash_address_reached_later() {
    // nop / nop / jp 0x0038
    let rom = rom_with(&[0x00, 0x00, 0xC3, 0x38, 0x00]);
    let mut config = TestConfig::new(String::from("crash later"));
    config.crash_addresses = vec![0x0038];
    let (passed, cpu, log) = run_test(&config, &rom);
    assert!(!passed);
    assert_eq!(cpu.pc, 0x0038);
    assert!(matches!(log.entries.last(), Some(LogEntry::Failure(FailureReason::Crash, _))));
}

#[test]
fn zero_timeout_fails_on_first_step() {
    let rom = rom_with(&[0x00, 0x00, 0xC9]);
    let mut config = TestConfig::new(String::from("timeout"));
    config.timeout = 0;
    let (passed, cpu, log) = run_test(&config, &rom);
    assert!(!passed);
    assert_eq!(cpu.pc, 1);
    assert_eq!(cpu.cycles_elapsed, 1);
    assert!(matches!(log.entries.last(), Some(LogEntry::Failure(FailureReason::Timeout, _))));
}

#[test]
fn endless_loop_times_out() {
    // jr -2
    let rom = rom_with(&[0x18, 0xFE]);
    let mut config = TestConfig::new(String::from("loop"));
    config.timeout = 30;
    let (passed, cpu, _log) = run_test(&config, &rom);
    assert!(!passed);
    assert_eq!(cpu.pc, 0);
    assert_eq!(cpu.cycles_elapsed, 30);
}

#[test]
fn invalid_opcode_fails() {
    let rom = rom_with(&[0x00, 0x00, 0xD3, 0xC9]);
    let config = TestConfig::new(String::from("invalid"));
    let (passed, cpu, log) = run_test(&config, &rom);
    assert!(!passed);
    assert_eq!(cpu.pc, 3);
    assert!(matches!(
        log.entries.last(),
        Some(LogEntry::Failure(FailureReason::InvalidOpcode, _))
    ));
}

#[test]
fn every_undefined_opcode_is_invalid() {
    for op in [0xD3u8, 0xDB, 0xDD, 0xE3, 0xE4, 0xEB, 0xEC, 0xED, 0xF4, 0xFC, 0xFD] {
        let rom = rom_with(&[op]);
        let mut cpu = State::new(AddressSpace::with(&rom));
        assert_eq!(cpu.tick(), TickResult::InvalidOpcode, "{op:02x}");
        assert_eq!(cpu.pc, 1);
    }
}

#[test]
fn halt_ends_the_test() {
    let rom = rom_with(&[0x3E, 0x07, 0x76, 0xD3]);
    let mut config = TestConfig::new(String::from("halt"));
    config.result = Some(Registers::new().with_a(7));
    let (passed, cpu, _log) = run_test(&config, &rom);
    assert!(passed);
    assert_eq!(cpu.pc, 3);
}

#[test]
fn exit_address_ends_the_test() {
    let rom = rom_with(&[0x00, 0x00, 0x00, 0xD3]);
    let mut config = TestConfig::new(String::from("exit"));
    config.exit_addresses = vec![0x0003];
    let (passed, cpu, _log) = run_test(&config, &rom);
    assert!(passed);
    assert_eq!(cpu.pc, 3);
}

#[test]
fn breakpoints_are_recorded_when_enabled() {
    // ld b, b / ld d, d / ret
    let rom = rom_with(&[0x40, 0x52, 0xC9]);
    let config = TestConfig::new(String::from("break"));
    let (passed, _cpu, log) = run_test(&config, &rom);
    assert!(passed);
    assert_eq!(log.entries.len(), 3);
    assert!(matches!(log.entries[0], LogEntry::Breakpoint(s) if s.pc == 1));
    assert!(matches!(log.entries[1], LogEntry::Debug(s) if s.pc == 2));

    let mut quiet = TestConfig::new(String::from("quiet"));
    quiet.enable_breakpoints = false;
    let (passed, _cpu, log) = run_test(&quiet, &rom);
    assert!(passed);
    assert_eq!(log.entries.len(), 1);
}

#[test]
fn configure_writes_memory_and_pushes_caller() {
    // ld a, [0xC010] / ret
    let rom = rom_with(&[0xFA, 0x10, 0xC0, 0xC9]);
    let mut config = TestConfig::new(String::from("memory"));
    config.caller_address = 0x1234;
    config.initial = Registers::new().with_sp(0xD000);
    config.initial.memory.push((0xC010, 0x5A));
    let mut result = Registers::new().with_a(0x5A).with_sp(0xD000).with_pc(0x1234);
    result.memory.push((0xCFFF, 0x34));
    result.memory.push((0xCFFE, 0x12));
    config.result = Some(result);
    let (passed, _cpu, log) = run_test(&config, &rom);
    assert!(passed, "{:?}", log.entries);
}

#[test]
fn logger_counts_passes_and_failures() {
    let rom = rom_with(&[0xC9]);
    let mut logger = Logger::new(SilenceLevel::Passing, "test.gb");
    assert!(logger.silence_passing);
    assert!(!logger.silence_all);
    let good = TestConfig::new(String::from("good"));
    let mut bad = TestConfig::new(String::from("bad"));
    bad.result = Some(Registers::new().with_a(1));
    for config in [&good, &bad, &good] {
        let mut t = logger.make_test(config);
        let mut cpu = State::new(AddressSpace::with(&rom));
        config.run(&mut cpu, &mut t);
        logger.record(&t);
    }
    assert_eq!(logger.pass, 2);
    assert_eq!(logger.failure, 1);
    assert!(!logger.all_passed());
}

#[test]
fn silence_levels() {
    let l = Logger::new(SilenceLevel::All, "x");
    assert!(l.silence_all && l.silence_passing);
    let l = Logger::new(SilenceLevel::Off, "x");
    assert!(!l.silence_all && !l.silence_passing);
    assert_eq!(SilenceLevel::default(), SilenceLevel::Off);
}

#[test]
fn compare_with_nothing_expected_succeeds() {
    let rom = rom_with(&[]);
    let mut cpu = State::new(AddressSpace::with(&rom));
    cpu.a = 0x42;
    cpu.pc = 0x1234;
    assert!(Registers::new().compare(&cpu).is_ok());
}

#[test]
fn compare_reports_memory_and_pairs() {
    let rom = rom_with(&[]);
    let mut cpu = State::new(AddressSpace::with(&rom));
    cpu.set_hl(0xC123);
    cpu.write(0xC000, 9);
    let mut expected = Registers::new().with_hl(0xC124).with_sp(0xE000);
    expected.memory.push((0xC000, 8));
    match expected.compare(&cpu) {
        Err(Error::CompareFailed(c)) => assert_eq!(
            c.contents,
            vec![
                Mismatch { source: CompareSource::Register(Field::Hl), actual: 0xC123, expected: 0xC124 },
                Mismatch { source: CompareSource::Address(0xC000), actual: 9, expected: 8 },
            ]
        ),
        _ => panic!("expected mismatches"),
    }
}

#[test]
fn configure_sets_only_present_fields() {
    let rom = rom_with(&[]);
    let mut cpu = State::new(AddressSpace::with(&rom));
    cpu.f.value = 0x0F;
    cpu.b = 5;
    Registers::new().configure(&mut cpu);
    assert_eq!(cpu.f.value, 0x0F);
    assert_eq!(cpu.b, 5);
    Registers::new().with_a(1).with_cf(true).with_de(0xBEEF).configure(&mut cpu);
    assert_eq!((cpu.a, cpu.b, cpu.d, cpu.e), (1, 5, 0xBE, 0xEF));
    assert_eq!(cpu.f.value, 0x10);
}

#[test]
fn address_space_maps_rom_and_ram() {
    let rom = vec![1u8, 2, 3];
    let mut mem = AddressSpace::with(&rom);
    assert_eq!(mem.read(0x0001), 2);
    assert_eq!(mem.read(0x0003), 0xFF);
    assert_eq!(mem.read(0x8000), 0xFF);
    mem.write(0x0001, 9);
    assert_eq!(mem.read(0x0001), 2);
    mem.write(0xC000, 7);
    mem.write(0xFF80, 8);
    mem.write(0xFFFF, 6);
    assert_eq!(mem.read(0xC000), 7);
    assert_eq!(mem.read(0xFF80), 8);
    assert_eq!(mem.read(0xFFFF), 0xFF);
    assert_eq!(mem.read(0xDFFF), 0);
}

#[test]
fn short_rom_is_padded() {
    let mut rom = vec![1u8, 2, 3];
    evunit::pad_rom(&mut rom);
    assert_eq!(rom.len(), 0x4000);
    assert_eq!(&rom[..3], &[1, 2, 3]);
    assert!(rom[3..].iter().all(|&b| b == 0xFF));
    let mut long = vec![7u8; 0x5000];
    evunit::pad_rom(&mut long);
    assert_eq!(long.len(), 0x5000);
}

#[test]
fn run_tests_reports_each_test() {
    // ld a, 1 / ld b, 2 / add a, b / ret
    let rom = rom_with(&[0x3E, 0x01, 0x06, 0x02, 0x80, 0xC9]);
    let mut good = TestConfig::new(String::from("good"));
    good.result = Some(Registers::new().with_a(3));
    let mut bad = TestConfig::new(String::from("bad"));
    bad.result = Some(Registers::new().with_a(4));
    let tests = vec![good.clone(), bad, good];
    let mut logger = Logger::new(SilenceLevel::Off, "test.gb");
    let (reports, result) = evunit::run_tests(&rom, &tests, &mut logger);
    assert_eq!(reports.len(), 3);
    assert_eq!(reports[1].name, "bad");
    assert!(matches!(reports[0].entries.last(), Some(LogEntry::Pass)));
    assert!(matches!(reports[1].entries.last(), Some(LogEntry::Incorrect(_))));
    assert!(matches!(result, Err(Error::TestsFailed(1))));
    assert_eq!((logger.pass, logger.failure), (2, 1));
}
