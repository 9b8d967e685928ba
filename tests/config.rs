use evunit::config::{
    apply_setting, byte_value, memory_bytes, read_config, word_value, ConfigError, ConfigValue,
    Diagnostic, MemoryError,
};
use evunit::test::TestConfig;

fn text(s: &str) -> ConfigValue {
    ConfigValue::Text(String::from(s))
}

fn symbols() -> Vec<(String, (u32, u16))> {
    vec![
        (String::from("Main"), (0, 0x0150)),
        (String::from("wVar"), (0, 0xC000)),
        (String::from("Main"), (1, 0x4000)),
    ]
}

#[test]
fn bytes_and_words() {
    assert_eq!(byte_value(&ConfigValue::Integer(-1)), Some(0xFF));
    assert_eq!(byte_value(&ConfigValue::Integer(255)), Some(0xFF));
    assert_eq!(byte_value(&ConfigValue::Integer(256)), None);
    assert_eq!(byte_value(&ConfigValue::Boolean(true)), None);
    let syms = symbols();
    assert_eq!(word_value(&ConfigValue::Integer(-2), &syms), Ok(Some(0xFFFE)));
    assert_eq!(word_value(&ConfigValue::Integer(65536), &syms), Ok(None));
    assert_eq!(word_value(&text("Main"), &syms), Ok(Some(0x4000)));
    assert_eq!(
        word_value(&text("Nowhere"), &syms),
        Err(ConfigError::SymbolNotFound(String::from("Nowhere")))
    );
}

#[test]
fn memory_values() {
    let nested = ConfigValue::Array(vec![
        ConfigValue::Integer(1),
        text("AB"),
        ConfigValue::Array(vec![ConfigValue::Boolean(true), ConfigValue::Integer(-1)]),
    ]);
    assert_eq!(memory_bytes(nested), Ok(vec![1, 0x41, 0x42, 1, 0xFF]));
    assert_eq!(memory_bytes(ConfigValue::Integer(300)), Err(MemoryError::NotAByte(300)));
    assert_eq!(memory_bytes(text("caf\u{e9}")), Err(MemoryError::NotAscii));
    assert_eq!(memory_bytes(ConfigValue::Other), Err(MemoryError::Unsupported));
}

#[test]
fn settings_apply_to_a_test() {
    let syms = symbols();
    let mut test = TestConfig::new(String::from("t"));
    let mut diags = Vec::new();
    apply_setting(&mut test, String::from("a"), ConfigValue::Integer(3), &syms, &mut diags).unwrap();
    apply_setting(&mut test, String::from("f.z"), ConfigValue::Boolean(true), &syms, &mut diags)
        .unwrap();
    apply_setting(&mut test, String::from("hl"), text("wVar"), &syms, &mut diags).unwrap();
    apply_setting(&mut test, String::from("caller"), ConfigValue::Integer(0x100), &syms, &mut diags)
        .unwrap();
    apply_setting(
        &mut test,
        String::from("crash"),
        ConfigValue::Array(vec![ConfigValue::Integer(0x38), text("Main")]),
        &syms,
        &mut diags,
    )
    .unwrap();
    apply_setting(&mut test, String::from("exit"), ConfigValue::Integer(0x200), &syms, &mut diags)
        .unwrap();
    apply_setting(&mut test, String::from("timeout"), ConfigValue::Integer(100), &syms, &mut diags)
        .unwrap();
    apply_setting(
        &mut test,
        String::from("enable-breakpoints"),
        ConfigValue::Boolean(false),
        &syms,
        &mut diags,
    )
    .unwrap();
    apply_setting(
        &mut test,
        String::from("[0xC010]"),
        ConfigValue::Array(vec![ConfigValue::Integer(1), ConfigValue::Integer(2)]),
        &syms,
        &mut diags,
    )
    .unwrap();
    apply_setting(&mut test, String::from("[wVar]"), text("Z"), &syms, &mut diags).unwrap();
    assert!(diags.is_empty(), "{diags:?}");
    assert_eq!(test.initial.a, Some(3));
    assert_eq!(test.initial.zf, Some(true));
    assert_eq!(test.initial.hl, Some(0xC000));
    assert_eq!(test.caller_address, 0x100);
    assert_eq!(test.crash_addresses, vec![0x38, 0x4000]);
    assert_eq!(test.exit_addresses, vec![0x200]);
    assert_eq!(test.timeout, 100);
    assert!(!test.enable_breakpoints);
    assert_eq!(test.initial.memory, vec![(0xC000, b'Z')]);
}

#[test]
fn wrong_values_are_reported() {
    let syms = symbols();
    let mut test = TestConfig::new(String::from("t"));
    test.initial.b = Some(1);
    let mut diags = Vec::new();
    apply_setting(&mut test, String::from("b"), text("x"), &syms, &mut diags).unwrap();
    apply_setting(&mut test, String::from("bogus"), ConfigValue::Integer(1), &syms, &mut diags)
        .unwrap();
    apply_setting(&mut test, String::from("[nowhere]"), ConfigValue::Integer(1), &syms, &mut diags)
        .unwrap();
    apply_setting(&mut test, String::from("[0xFFFF]"), ConfigValue::Integer(999), &syms, &mut diags)
        .unwrap();
    apply_setting(&mut test, String::from("result"), ConfigValue::Integer(1), &syms, &mut diags)
        .unwrap();
    assert_eq!(test.initial.b, None);
    assert_eq!(
        diags,
        vec![
            Diagnostic::NotByte(String::from("b")),
            Diagnostic::UnknownKey(String::from("bogus")),
            Diagnostic::BadAddress(String::from("nowhere")),
            Diagnostic::BadMemory(String::from("0xFFFF"), MemoryError::NotAByte(999)),
            Diagnostic::NotTable(String::from("result")),
        ]
    );
    let missing = apply_setting(&mut test, String::from("pc"), text("Gone"), &syms, &mut diags);
    assert_eq!(missing, Err(ConfigError::SymbolNotFound(String::from("Gone"))));
}

#[test]
fn memory_wraps_past_the_top() {
    let mut test = TestConfig::new(String::from("t"));
    let mut diags = Vec::new();
    apply_setting(&mut test, String::from("[0xFFFF]"), text("AB"), &Vec::new(), &mut diags)
        .unwrap();
    assert_eq!(test.initial.memory, vec![(0xFFFF, b'A'), (0x0000, b'B')]);
}

#[test]
fn tables_define_tests_from_the_defaults_so_far() {
    let root = vec![
        (String::from("timeout"), ConfigValue::Integer(500)),
        (
            String::from("first"),
            ConfigValue::Table(vec![
                (String::from("a"), ConfigValue::Integer(1)),
                (
                    String::from("result"),
                    ConfigValue::Table(vec![(String::from("a"), ConfigValue::Integer(2))]),
                ),
            ]),
        ),
        (String::from("caller"), ConfigValue::Integer(0x1234)),
        (String::from("second"), ConfigValue::Table(vec![])),
    ];
    let (tests, diags) = read_config(root, &Vec::new()).unwrap();
    assert!(diags.is_empty());
    assert_eq!(tests.len(), 2);
    assert_eq!(tests[0].name, "first");
    assert_eq!(tests[0].timeout, 500);
    assert_eq!(tests[0].caller_address, 0xFFFF);
    assert_eq!(tests[0].initial.a, Some(1));
    assert_eq!(tests[0].result.as_ref().unwrap().a, Some(2));
    assert_eq!(tests[1].name, "second");
    assert_eq!(tests[1].caller_address, 0x1234);
    assert!(tests[1].result.is_none());
}
