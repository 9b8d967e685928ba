//! Test definitions from a configuration file.
//!
//! A configuration is a table. Keys at its top level set defaults; each value that
//! is itself a table defines one test, named by its key, starting from the defaults
//! set so far. Register keys (`a`, `f.z`, `bc`, ...) and memory keys (`[address]`)
//! set the initial state; `result` is a table of the same keys for the expected
//! state; `caller`, `crash`, `exit`, `timeout` and `enable-breakpoints` set the rest.
//! A value of the wrong kind is reported and, for a register, leaves it unset.

use crate::registers::Registers;
use crate::sym;
use crate::test::TestConfig;
use vstd::prelude::*;
use vstd::string::*;

verus! {

/// A value of a configuration file, as a TOML reader hands it over.
pub enum ConfigValue {
    Integer(i64),
    Text(String),
    Boolean(bool),
    Array(Vec<ConfigValue>),
    /// Keys and values, in the order in which they are to be applied.
    Table(Vec<(String, ConfigValue)>),
    /// A float or a date: no setting takes one.
    Other,
}

/// Why a memory value could not be turned into bytes.
#[derive(Clone, Debug, PartialEq, Eq)]
pub enum MemoryError {
    /// An integer outside -128..=255.
    NotAByte(i64),
    /// A string with a character outside ASCII.
    NotAscii,
    /// A value of a kind that memory cannot hold.
    Unsupported,
}

/// A problem in a configuration that does not stop the reading.
#[derive(Clone, Debug, PartialEq, Eq)]
pub enum Diagnostic {
    /// The value of this key must be an 8-bit integer.
    NotByte(String),
    /// The value of this key must be a 16-bit integer or a symbol.
    NotWord(String),
    /// The value of this key must be a boolean.
    NotBool(String),
    /// The value of this key must be an integer.
    NotInteger(String),
    /// The value of this key must be a table.
    NotTable(String),
    /// The value of this key must be an address or a list of addresses.
    NotAddressList(String),
    /// No setting has this key.
    UnknownKey(String),
    /// The address between the brackets of a memory key is neither a symbol nor a
    /// 16-bit integer.
    BadAddress(String),
    /// The value of a memory key cannot be turned into bytes.
    BadMemory(String, MemoryError),
}

/// A problem that stops the reading.
#[derive(Clone, Debug, PartialEq, Eq)]
pub enum ConfigError {
    /// A symbol that the sym file does not define.
    SymbolNotFound(String),
}

/// What a TOML reader makes of `s` as an integer literal, if anything.
pub uninterp spec fn toml_integer_of(s: Seq<char>) -> Option<int>;

/// Relies on the toml crate: `s` is read as the value of `v` in the one-line
/// document `v = s`, and its integer value is returned when it is an integer
/// (decimal, or hexadecimal, octal or binary with a prefix).
#[verifier::external_body]
fn toml_integer(s: &str) -> (r: Option<i64>)
    ensures
        r matches Some(v) ==> toml_integer_of(s@) == Some(v as int),
        r is None ==> toml_integer_of(s@) is None,
{
    let document = format!("v = {s}").parse::<toml::Value>().ok()?;
    document.get("v")?.as_integer()
}

/// The address of the last symbol named `name`, as in a map filled in order.
pub open spec fn symbol_address(symbols: Seq<(Seq<char>, u16)>, name: Seq<char>) -> Option<u16>
    decreases symbols.len(),
{
    if symbols.len() == 0 {
        None
    } else if symbols.last().0 == name {
        Some(symbols.last().1)
    } else {
        symbol_address(symbols.drop_last(), name)
    }
}

/// The names and addresses of a symbol list.
pub open spec fn symbol_view(symbols: Seq<(String, (u32, u16))>) -> Seq<(Seq<char>, u16)> {
    symbols.map_values(|e: (String, (u32, u16))| (e.0@, e.1.1))
}

/// An 8-bit value: an integer in -128..=255, negative ones as two's complement.
pub open spec fn byte_of(value: ConfigValue) -> Option<u8> {
    match value {
        ConfigValue::Integer(v) => if -128 <= v < 256 {
            Some((v % 256) as u8)
        } else {
            None
        },
        _ => None,
    }
}

/// A 16-bit value: an integer in -32768..=65535, negative ones as two's
/// complement, or the name of a symbol. Fails on a name that no symbol has.
pub open spec fn word_of(value: ConfigValue, symbols: Seq<(Seq<char>, u16)>) -> Result<
    Option<u16>,
    Seq<char>,
> {
    match value {
        ConfigValue::Integer(v) => Ok(
            if -32768 <= v < 65536 {
                Some((v % 65536) as u16)
            } else {
                None
            },
        ),
        ConfigValue::Text(name) => match symbol_address(symbols, name@) {
            Some(a) => Ok(Some(a)),
            None => Err(name@),
        },
        _ => Ok(None),
    }
}

pub open spec fn bool_of(value: ConfigValue) -> Option<bool> {
    match value {
        ConfigValue::Boolean(b) => Some(b),
        _ => None,
    }
}

/// The bytes of a memory value: an integer in -128..=255 is one byte, an ASCII
/// string its characters, a boolean 1 or 0, and an array the bytes of its
/// elements in order.
pub open spec fn memory_of(value: ConfigValue) -> Result<Seq<u8>, MemoryError>
    decreases value,
{
    match value {
        ConfigValue::Integer(v) => if -128 <= v <= 255 {
            Ok(seq![(v % 256) as u8])
        } else {
            Err(MemoryError::NotAByte(v))
        },
        ConfigValue::Text(s) => if forall|i: int| 0 <= i < s@.len() ==> (#[trigger] s@[i] as u32)
            < 128 {
            Ok(s@.map_values(|c: char| (c as u32) as u8))
        } else {
            Err(MemoryError::NotAscii)
        },
        ConfigValue::Boolean(b) => Ok(seq![if b { 1u8 } else { 0u8 }]),
        ConfigValue::Array(items) => memory_of_items(items@),
        _ => Err(MemoryError::Unsupported),
    }
}

/// The bytes of the elements of an array, in order, or the first failure.
pub open spec fn memory_of_items(items: Seq<ConfigValue>) -> Result<Seq<u8>, MemoryError>
    decreases items,
{
    if items.len() == 0 {
        Ok(seq![])
    } else {
        match memory_of_items(items.drop_last()) {
            Err(e) => Err(e),
            Ok(front) => match memory_of(items.last()) {
                Err(e) => Err(e),
                Ok(back) => Ok(front + back),
            },
        }
    }
}

/// A key of a configuration, by what it sets.
#[derive(Clone, Copy, Debug, PartialEq, Eq, Structural)]
pub enum Setting {
    A,
    B,
    C,
    D,
    E,
    H,
    L,
    Zf,
    Nf,
    Hf,
    Cf,
    Bc,
    De,
    Hl,
    Pc,
    Sp,
    Caller,
    Crash,
    Exit,
    EnableBreakpoints,
    Timeout,
    /// `result`: the expected state.
    Expected,
    /// `[address]`: bytes of memory from that address on.
    Memory,
    Unknown,
}

/// Whether `k` is a memory key: an address between brackets.
pub open spec fn is_memory_key(k: Seq<char>) -> bool {
    k.len() >= 3 && k[0] == '[' && k.last() == ']'
}

/// What a key sets.
pub open spec fn setting_of(k: Seq<char>) -> Setting {
    if k == "a"@ {
        Setting::A
    } else if k == "b"@ {
        Setting::B
    } else if k == "c"@ {
        Setting::C
    } else if k == "d"@ {
        Setting::D
    } else if k == "e"@ {
        Setting::E
    } else if k == "h"@ {
        Setting::H
    } else if k == "l"@ {
        Setting::L
    } else if k == "f.z"@ {
        Setting::Zf
    } else if k == "f.n"@ {
        Setting::Nf
    } else if k == "f.h"@ {
        Setting::Hf
    } else if k == "f.c"@ {
        Setting::Cf
    } else if k == "bc"@ {
        Setting::Bc
    } else if k == "de"@ {
        Setting::De
    } else if k == "hl"@ {
        Setting::Hl
    } else if k == "pc"@ {
        Setting::Pc
    } else if k == "sp"@ {
        Setting::Sp
    } else if k == "caller"@ {
        Setting::Caller
    } else if k == "crash"@ {
        Setting::Crash
    } else if k == "exit"@ {
        Setting::Exit
    } else if k == "enable-breakpoints"@ {
        Setting::EnableBreakpoints
    } else if k == "timeout"@ {
        Setting::Timeout
    } else if k == "result"@ {
        Setting::Expected
    } else if is_memory_key(k) {
        Setting::Memory
    } else {
        Setting::Unknown
    }
}

/// The address between the brackets of a memory key: a symbol, or an integer
/// that fits in 16 bits.
pub open spec fn key_address_of(inner: Seq<char>, symbols: Seq<(Seq<char>, u16)>) -> Option<u16> {
    match symbol_address(symbols, inner) {
        Some(a) => Some(a),
        None => match toml_integer_of(inner) {
            Some(v) => if 0 <= v < 65536 {
                Some(v as u16)
            } else {
                None
            },
            None => None,
        },
    }
}

/// Bytes placed from `address` on, wrapping past 0xFFFF.
pub open spec fn placed(address: u16, bytes: Seq<u8>) -> Seq<(u16, u8)> {
    Seq::new(bytes.len(), |i: int| (((address + i) % 65536) as u16, bytes[i]))
}

/// Whether `k` holds the characters of `w`.
fn is_key(k: &Vec<char>, w: &str) -> (r: bool)
    ensures
        r == (k@ == w@),
{
    let n = w.unicode_len();
    if k.len() != n {
        return false;
    }
    let mut i: usize = 0;
    while i < n
        invariant
            i <= n == k@.len() == w@.len(),
            forall|j: int| 0 <= j < i ==> k@[j] == w@[j],
        decreases n - i,
    {
        if k[i] != w.get_char(i) {
            return false;
        }
        i += 1;
    }
    proof {
        assert(k@ =~= w@);
    }
    true
}

/// What a key sets.
pub fn setting(k: &Vec<char>) -> (r: Setting)
    ensures
        r == setting_of(k@),
{
    if is_key(k, "a") {
        Setting::A
    } else if is_key(k, "b") {
        Setting::B
    } else if is_key(k, "c") {
        Setting::C
    } else if is_key(k, "d") {
        Setting::D
    } else if is_key(k, "e") {
        Setting::E
    } else if is_key(k, "h") {
        Setting::H
    } else if is_key(k, "l") {
        Setting::L
    } else if is_key(k, "f.z") {
        Setting::Zf
    } else if is_key(k, "f.n") {
        Setting::Nf
    } else if is_key(k, "f.h") {
        Setting::Hf
    } else if is_key(k, "f.c") {
        Setting::Cf
    } else if is_key(k, "bc") {
        Setting::Bc
    } else if is_key(k, "de") {
        Setting::De
    } else if is_key(k, "hl") {
        Setting::Hl
    } else if is_key(k, "pc") {
        Setting::Pc
    } else if is_key(k, "sp") {
        Setting::Sp
    } else if is_key(k, "caller") {
        Setting::Caller
    } else if is_key(k, "crash") {
        Setting::Crash
    } else if is_key(k, "exit") {
        Setting::Exit
    } else if is_key(k, "enable-breakpoints") {
        Setting::EnableBreakpoints
    } else if is_key(k, "timeout") {
        Setting::Timeout
    } else if is_key(k, "result") {
        Setting::Expected
    } else if k.len() >= 3 && k[0] == '[' && k[k.len() - 1] == ']' {
        Setting::Memory
    } else {
        Setting::Unknown
    }
}

/// The address of the last symbol named `name`.
fn find_symbol(symbols: &Vec<(String, (u32, u16))>, name: &String) -> (r: Option<u16>)
    ensures
        r == symbol_address(symbol_view(symbols@), name@),
{
    let ghost all = symbol_view(symbols@);
    proof {
        assert(all.subrange(0, symbols.len() as int) =~= all);
    }
    let mut i = symbols.len();
    while i > 0
        invariant
            i <= symbols.len(),
            all == symbol_view(symbols@),
            symbol_address(all, name@) == symbol_address(all.subrange(0, i as int), name@),
        decreases i,
    {
        proof {
            assert(all.subrange(0, i as int).drop_last() =~= all.subrange(0, i - 1));
        }
        if symbols[i - 1].0 == *name {
            return Some(symbols[i - 1].1.1);
        }
        i -= 1;
    }
    None
}

/// An 8-bit value.
pub fn byte_value(value: &ConfigValue) -> (r: Option<u8>)
    ensures
        r == byte_of(*value),
{
    match value {
        ConfigValue::Integer(v) => if -128 <= *v && *v < 256 {
            Some(if *v < 0 {
                (*v + 256) as u8
            } else {
                *v as u8
            })
        } else {
            None
        },
        _ => None,
    }
}

/// A 16-bit value, or a symbol's address.
pub fn word_value(value: &ConfigValue, symbols: &Vec<(String, (u32, u16))>) -> (r: Result<
    Option<u16>,
    ConfigError,
>)
    ensures
        r matches Ok(w) ==> word_of(*value, symbol_view(symbols@)) == Ok::<Option<u16>, Seq<char>>(
            w,
        ),
        r matches Err(ConfigError::SymbolNotFound(n)) ==> word_of(*value, symbol_view(symbols@))
            == Err::<Option<u16>, Seq<char>>(n@),
{
    match value {
        ConfigValue::Integer(v) => Ok(
            if -32768 <= *v && *v < 65536 {
                Some(if *v < 0 {
                    (*v + 65536) as u16
                } else {
                    *v as u16
                })
            } else {
                None
            },
        ),
        ConfigValue::Text(name) => match find_symbol(symbols, name) {
            Some(a) => Ok(Some(a)),
            None => Err(ConfigError::SymbolNotFound(name.clone())),
        },
        _ => Ok(None),
    }
}

pub fn bool_value(value: &ConfigValue) -> (r: Option<bool>)
    ensures
        r == bool_of(*value),
{
    match value {
        ConfigValue::Boolean(b) => Some(*b),
        _ => None,
    }
}

/// The bytes of a memory value.
pub fn memory_bytes(value: ConfigValue) -> (r: Result<Vec<u8>, MemoryError>)
    ensures
        r matches Ok(b) ==> memory_of(value) == Ok::<Seq<u8>, MemoryError>(b@),
        r matches Err(e) ==> memory_of(value) == Err::<Seq<u8>, MemoryError>(e),
    decreases value,
{
    let ghost whole = value;
    match value {
        ConfigValue::Integer(v) => if -128 <= v && v <= 255 {
            let byte: u8 = if v < 0 { (v + 256) as u8 } else { v as u8 };
            let out = vec![byte];
            proof {
                assert(byte == (v % 256) as u8);
                assert(out@ =~= seq![(v % 256) as u8]);
            }
            Ok(out)
        } else {
            Err(MemoryError::NotAByte(v))
        },
        ConfigValue::Text(s) => text_bytes(&s),
        ConfigValue::Boolean(b) => {
            let out = vec![if b { 1u8 } else { 0u8 }];
            proof {
                assert(out@ =~= seq![if b { 1u8 } else { 0u8 }]);
            }
            Ok(out)
        },
        ConfigValue::Array(items) => {
            let ghost all = items@;
            proof {
                assert(decreases_to!(whole => items));
                assert(decreases_to!(items => items@));
            }
            let mut rest = items;
            let mut out: Vec<u8> = Vec::new();
            let mut k: usize = 0;
            while rest.len() > 0
                invariant
                    whole == value,
                    whole == ConfigValue::Array(items),
                    all == items@,
                    k <= all.len(),
                    rest@ == all.subrange(k as int, all.len() as int),
                    memory_of_items(all.subrange(0, k as int)) == Ok::<Seq<u8>, MemoryError>(out@),
                    forall|j: int| 0 <= j < all.len() ==> decreases_to!(whole => #[trigger] all[j]),
                decreases rest.len(),
            {
                let item = rest.remove(0);
                proof {
                    assert(item == all[k as int]);
                    assert(all.subrange(0, k + 1).drop_last() =~= all.subrange(0, k as int));
                    assert(all.subrange(0, k + 1).last() == all[k as int]);
                    assert(decreases_to!(whole => item));
                }
                match memory_bytes(item) {
                    Ok(bytes) => {
                        let mut bytes = bytes;
                        out.append(&mut bytes);
                    },
                    Err(e) => {
                        proof {
                            lemma_items_error(all, k as int + 1);
                        }
                        return Err(e);
                    },
                }
                k += 1;
                proof {
                    assert(rest@ =~= all.subrange(k as int, all.len() as int));
                }
            }
            proof {
                assert(all.subrange(0, all.len() as int) =~= all);
            }
            Ok(out)
        },
        _ => Err(MemoryError::Unsupported),
    }
}

/// The bytes of an ASCII string.
fn text_bytes(s: &String) -> (r: Result<Vec<u8>, MemoryError>)
    ensures
        r matches Ok(b) ==> memory_of(ConfigValue::Text(*s)) == Ok::<Seq<u8>, MemoryError>(b@),
        r matches Err(e) ==> memory_of(ConfigValue::Text(*s)) == Err::<Seq<u8>, MemoryError>(e),
{
    let chars = sym::chars_of(s.as_str());
    let mut out: Vec<u8> = Vec::new();
    let mut i: usize = 0;
    while i < chars.len()
        invariant
            i <= chars.len(),
            chars@ == s@,
            out@ == s@.subrange(0, i as int).map_values(|c: char| (c as u32) as u8),
            forall|j: int| 0 <= j < i ==> (#[trigger] s@[j] as u32) < 128,
        decreases chars.len() - i,
    {
        let c = chars[i];
        if (c as u32) >= 128 {
            proof {
                assert(s@[i as int] == c);
            }
            return Err(MemoryError::NotAscii);
        }
        out.push((c as u32) as u8);
        proof {
            assert(s@.subrange(0, i + 1).map_values(|c: char| (c as u32) as u8) =~= s@.subrange(
                0,
                i as int,
            ).map_values(|c: char| (c as u32) as u8).push((c as u32) as u8));
        }
        i += 1;
    }
    proof {
        assert(s@.subrange(0, chars.len() as int) =~= s@);
    }
    Ok(out)
}

/// Once the elements up to `k` fail, the whole array fails the same way.
proof fn lemma_items_error(items: Seq<ConfigValue>, k: int)
    requires
        0 <= k <= items.len(),
        memory_of_items(items.subrange(0, k)) is Err,
    ensures
        memory_of_items(items) == memory_of_items(items.subrange(0, k)),
    decreases items.len(),
{
    if k < items.len() {
        assert(items.drop_last().subrange(0, k) =~= items.subrange(0, k));
        lemma_items_error(items.drop_last(), k);
    } else {
        assert(items.subrange(0, k) =~= items);
    }
}

/// Whether a setting is one of a register, a flag, or memory.
pub open spec fn is_register_setting(setting: Setting) -> bool {
    !(setting == Setting::Caller || setting == Setting::Crash || setting == Setting::Exit || setting
        == Setting::EnableBreakpoints || setting == Setting::Timeout || setting == Setting::Expected
        || setting == Setting::Unknown)
}

/// How a register, flag or memory setting changes a description: the register or
/// flag takes the value read (unset when it is of the wrong kind); a memory key
/// replaces the memory bytes by the value's bytes from its address on, and leaves
/// the description unchanged when the address or the value cannot be read.
pub open spec fn registers_set(
    old: Registers,
    new: Registers,
    setting: Setting,
    key: Seq<char>,
    value: ConfigValue,
    symbols: Seq<(Seq<char>, u16)>,
) -> bool {
    match setting {
        Setting::A => new == (Registers { a: byte_of(value), ..old }),
        Setting::B => new == (Registers { b: byte_of(value), ..old }),
        Setting::C => new == (Registers { c: byte_of(value), ..old }),
        Setting::D => new == (Registers { d: byte_of(value), ..old }),
        Setting::E => new == (Registers { e: byte_of(value), ..old }),
        Setting::H => new == (Registers { h: byte_of(value), ..old }),
        Setting::L => new == (Registers { l: byte_of(value), ..old }),
        Setting::Zf => new == (Registers { zf: bool_of(value), ..old }),
        Setting::Nf => new == (Registers { nf: bool_of(value), ..old }),
        Setting::Hf => new == (Registers { hf: bool_of(value), ..old }),
        Setting::Cf => new == (Registers { cf: bool_of(value), ..old }),
        Setting::Bc => word_of(value, symbols) matches Ok(x) ==> new == (Registers { bc: x, ..old }),
        Setting::De => word_of(value, symbols) matches Ok(x) ==> new == (Registers { de: x, ..old }),
        Setting::Hl => word_of(value, symbols) matches Ok(x) ==> new == (Registers { hl: x, ..old }),
        Setting::Pc => word_of(value, symbols) matches Ok(x) ==> new == (Registers { pc: x, ..old }),
        Setting::Sp => word_of(value, symbols) matches Ok(x) ==> new == (Registers { sp: x, ..old }),
        _ => match key_address_of(key.subrange(1, key.len() - 1), symbols) {
            None => new == old,
            Some(address) => match memory_of(value) {
                Err(_) => new == old,
                Ok(bytes) => new.memory@ == placed(address, bytes) && new == (Registers {
                    memory: new.memory,
                    ..old
                }),
            },
        },
    }
}

/// The address between the brackets of a memory key.
fn key_address(inner: &String, symbols: &Vec<(String, (u32, u16))>) -> (r: Option<u16>)
    ensures
        r == key_address_of(inner@, symbol_view(symbols@)),
{
    match find_symbol(symbols, inner) {
        Some(a) => Some(a),
        None => match toml_integer(inner.as_str()) {
            Some(v) => if 0 <= v && v < 65536 {
                Some(v as u16)
            } else {
                None
            },
            None => None,
        },
    }
}

/// The memory bytes that a value places from `address` on.
fn place(address: u16, bytes: &Vec<u8>) -> (r: Vec<(u16, u8)>)
    ensures
        r@ == placed(address, bytes@),
{
    let mut out: Vec<(u16, u8)> = Vec::new();
    let mut i: usize = 0;
    while i < bytes.len()
        invariant
            i <= bytes.len(),
            out@ == placed(address, bytes@).subrange(0, i as int),
        decreases bytes.len() - i,
    {
        let at = ((address as usize + i % 65536) % 65536) as u16;
        proof {
            assert((address + i % 65536) % 65536 == (address + i) % 65536) by {
                vstd::arithmetic::div_mod::lemma_add_mod_noop(address as int, i as int, 65536);
                vstd::arithmetic::div_mod::lemma_mod_twice(i as int, 65536);
                vstd::arithmetic::div_mod::lemma_add_mod_noop(address as int, (i % 65536) as int, 65536);
            }
        }
        out.push((at, bytes[i]));
        proof {
            assert(out@ =~= placed(address, bytes@).subrange(0, i + 1));
        }
        i += 1;
    }
    proof {
        assert(out@ =~= placed(address, bytes@));
    }
    out
}

/// Applies a register, flag or memory setting to a description, and reports a
/// value of the wrong kind. Fails on a symbol that the sym file does not define.
fn apply_register(
    regs: &mut Registers,
    setting: Setting,
    k: &Vec<char>,
    key: &String,
    value: ConfigValue,
    symbols: &Vec<(String, (u32, u16))>,
    diags: &mut Vec<Diagnostic>,
) -> (r: Result<(), ConfigError>)
    requires
        is_register_setting(setting),
        setting == setting_of(k@),
        k@ == key@,
    ensures
        r is Ok ==> registers_set(*old(regs), *final(regs), setting, k@, value, symbol_view(symbols@)),
        final(diags)@.len() >= old(diags)@.len(),
{
    match setting {
            Setting::A => {
                regs.a = byte_value(&value);
                if regs.a.is_none() {
                    diags.push(Diagnostic::NotByte(key.clone()));
                }
            },
            Setting::B => {
                regs.b = byte_value(&value);
                if regs.b.is_none() {
                    diags.push(Diagnostic::NotByte(key.clone()));
                }
            },
            Setting::C => {
                regs.c = byte_value(&value);
                if regs.c.is_none() {
                    diags.push(Diagnostic::NotByte(key.clone()));
                }
            },
            Setting::D => {
                regs.d = byte_value(&value);
                if regs.d.is_none() {
                    diags.push(Diagnostic::NotByte(key.clone()));
                }
            },
            Setting::E => {
                regs.e = byte_value(&value);
                if regs.e.is_none() {
                    diags.push(Diagnostic::NotByte(key.clone()));
                }
            },
            Setting::H => {
                regs.h = byte_value(&value);
                if regs.h.is_none() {
                    diags.push(Diagnostic::NotByte(key.clone()));
                }
            },
            Setting::L => {
                regs.l = byte_value(&value);
                if regs.l.is_none() {
                    diags.push(Diagnostic::NotByte(key.clone()));
                }
            },
            Setting::Zf => {
                regs.zf = bool_value(&value);
                if regs.zf.is_none() {
                    diags.push(Diagnostic::NotBool(key.clone()));
                }
            },
            Setting::Nf => {
                regs.nf = bool_value(&value);
                if regs.nf.is_none() {
                    diags.push(Diagnostic::NotBool(key.clone()));
                }
            },
            Setting::Hf => {
                regs.hf = bool_value(&value);
                if regs.hf.is_none() {
                    diags.push(Diagnostic::NotBool(key.clone()));
                }
            },
            Setting::Cf => {
                regs.cf = bool_value(&value);
                if regs.cf.is_none() {
                    diags.push(Diagnostic::NotBool(key.clone()));
                }
            },
            Setting::Bc => {
                regs.bc = word_value(&value, symbols)?;
                if regs.bc.is_none() {
                    diags.push(Diagnostic::NotWord(key.clone()));
                }
            },
            Setting::De => {
                regs.de = word_value(&value, symbols)?;
                if regs.de.is_none() {
                    diags.push(Diagnostic::NotWord(key.clone()));
                }
            },
            Setting::Hl => {
                regs.hl = word_value(&value, symbols)?;
                if regs.hl.is_none() {
                    diags.push(Diagnostic::NotWord(key.clone()));
                }
            },
            Setting::Pc => {
                regs.pc = word_value(&value, symbols)?;
                if regs.pc.is_none() {
                    diags.push(Diagnostic::NotWord(key.clone()));
                }
            },
            Setting::Sp => {
                regs.sp = word_value(&value, symbols)?;
                if regs.sp.is_none() {
                    diags.push(Diagnostic::NotWord(key.clone()));
                }
            },
            _ => {
                let inner = sym::string_of(k, 1, k.len() - 1);
                match key_address(&inner, symbols) {
                    None => diags.push(Diagnostic::BadAddress(inner)),
                    Some(address) => match memory_bytes(value) {
                        Err(e) => diags.push(Diagnostic::BadMemory(inner, e)),
                        Ok(bytes) => {
                            regs.memory = place(address, &bytes);
                        },
                    },
                }
            },
        }
    Ok(())
}

/// The addresses of an address-list value: one address or symbol, or an array of
/// them; values of the wrong kind are left out (and reported).
pub open spec fn addresses_of(value: ConfigValue, symbols: Seq<(Seq<char>, u16)>) -> Seq<u16> {
    match value {
        ConfigValue::Array(items) => addresses_of_items(items@, symbols),
        _ => match word_of(value, symbols) {
            Ok(Some(a)) => seq![a],
            _ => seq![],
        },
    }
}

pub open spec fn addresses_of_items(items: Seq<ConfigValue>, symbols: Seq<(Seq<char>, u16)>) -> Seq<
    u16,
>
    decreases items.len(),
{
    if items.len() == 0 {
        seq![]
    } else {
        addresses_of_items(items.drop_last(), symbols) + match word_of(items.last(), symbols) {
            Ok(Some(a)) => seq![a],
            _ => seq![],
        }
    }
}

/// Appends the addresses of an address-list value to `list`.
fn push_addresses(
    list: &mut Vec<u16>,
    key: &String,
    value: ConfigValue,
    symbols: &Vec<(String, (u32, u16))>,
    diags: &mut Vec<Diagnostic>,
) -> (r: Result<(), ConfigError>)
    ensures
        r is Ok ==> final(list)@ == old(list)@ + addresses_of(value, symbol_view(symbols@)),
        final(diags)@.len() >= old(diags)@.len(),
{
    match value {
        ConfigValue::Array(items) => {
            let ghost all = items@;
            let mut k: usize = 0;
            while k < items.len()
                invariant
                    k <= items.len(),
                    all == items@,
                    list@ == old(list)@ + addresses_of_items(all.subrange(0, k as int), symbol_view(symbols@)),
                    diags@.len() >= old(diags)@.len(),
                decreases items.len() - k,
            {
                proof {
                    assert(all.subrange(0, k + 1).drop_last() =~= all.subrange(0, k as int));
                }
                let ghost before = list@;
                match word_value(&items[k], symbols)? {
                    Some(a) => list.push(a),
                    None => diags.push(Diagnostic::NotWord(key.clone())),
                }
                proof {
                    assert(list@ =~= old(list)@ + addresses_of_items(all.subrange(0, k + 1), symbol_view(symbols@)));
                }
                k += 1;
            }
            proof {
                assert(all.subrange(0, items.len() as int) =~= all);
            }
        },
        ConfigValue::Integer(_) | ConfigValue::Text(_) => {
            match word_value(&value, symbols)? {
                Some(a) => list.push(a),
                None => diags.push(Diagnostic::NotWord(key.clone())),
            }
            proof {
                assert(final(list)@ =~= old(list)@ + addresses_of(value, symbol_view(symbols@)));
            }
        },
        _ => {
            diags.push(Diagnostic::NotAddressList(key.clone()));
            proof {
                assert(final(list)@ =~= old(list)@ + addresses_of(value, symbol_view(symbols@)));
            }
        },
    }
    Ok(())
}

/// Applies one setting to a test, and reports a value of the wrong kind or an
/// unknown key. Fails on a symbol that the sym file does not define.
pub fn apply_setting(
    test: &mut TestConfig,
    key: String,
    value: ConfigValue,
    symbols: &Vec<(String, (u32, u16))>,
    diags: &mut Vec<Diagnostic>,
) -> (r: Result<(), ConfigError>)
    ensures
        final(test).name == old(test).name,
        r is Ok ==> ({
            let setting = setting_of(key@);
            let syms = symbol_view(symbols@);
            &&& is_register_setting(setting) ==> registers_set(
                old(test).initial,
                final(test).initial,
                setting,
                key@,
                value,
                syms,
            )
            &&& setting == Setting::Caller ==> final(test).caller_address == match word_of(
                value,
                syms,
            ) {
                Ok(Some(a)) => a,
                _ => 0xFFFF,
            }
            &&& setting == Setting::Crash ==> final(test).crash_addresses@ == old(
                test,
            ).crash_addresses@ + addresses_of(value, syms)
            &&& setting == Setting::Exit ==> final(test).exit_addresses@ == old(
                test,
            ).exit_addresses@ + addresses_of(value, syms)
            &&& setting == Setting::EnableBreakpoints ==> final(test).enable_breakpoints
                == match bool_of(value) {
                Some(b) => b,
                None => old(test).enable_breakpoints,
            }
            &&& setting == Setting::Timeout ==> final(test).timeout == match value {
                ConfigValue::Integer(v) => if v >= 0 {
                    v as usize
                } else {
                    old(test).timeout
                },
                _ => old(test).timeout,
            }
            &&& setting == Setting::Expected ==> (value is Table ==> final(test).result is Some)
        }),
        final(diags)@.len() >= old(diags)@.len(),
{
    let k = sym::chars_of(key.as_str());
    let which = setting(&k);
    match which {
        Setting::Caller => {
            let caller = word_value(&value, symbols)?;
            test.caller_address = match caller {
                Some(a) => a,
                None => {
                    diags.push(Diagnostic::NotWord(key));
                    0xFFFF
                },
            };
        },
        Setting::Crash => {
            push_addresses(&mut test.crash_addresses, &key, value, symbols, diags)?;
        },
        Setting::Exit => {
            push_addresses(&mut test.exit_addresses, &key, value, symbols, diags)?;
        },
        Setting::EnableBreakpoints => match bool_value(&value) {
            Some(b) => test.enable_breakpoints = b,
            None => diags.push(Diagnostic::NotBool(key)),
        },
        Setting::Timeout => match value {
            ConfigValue::Integer(v) => if v >= 0 {
                test.timeout = v as usize;
            } else {
                diags.push(Diagnostic::NotInteger(key));
            },
            _ => diags.push(Diagnostic::NotInteger(key)),
        },
        Setting::Expected => match value {
            ConfigValue::Table(entries) => {
                let mut result = Registers::new();
                let mut entries = entries;
                while entries.len() > 0
                    invariant
                        diags@.len() >= old(diags)@.len(),
                        test.name == old(test).name,
                    decreases entries.len(),
                {
                    let (key2, value2) = entries.remove(0);
                    let k2 = sym::chars_of(key2.as_str());
                    let setting2 = setting(&k2);
                    if is_register(setting2) {
                        apply_register(&mut result, setting2, &k2, &key2, value2, symbols, diags)?;
                    } else {
                        diags.push(Diagnostic::UnknownKey(key2));
                    }
                }
                test.result = Some(result);
            },
            _ => diags.push(Diagnostic::NotTable(key)),
        },
        Setting::Unknown => diags.push(Diagnostic::UnknownKey(key)),
        _ => {
            apply_register(&mut test.initial, which, &k, &key, value, symbols, diags)?;
        },
    }
    Ok(())
}

fn is_register(setting: Setting) -> (r: bool)
    ensures
        r == is_register_setting(setting),
{
    !(setting == Setting::Caller || setting == Setting::Crash || setting == Setting::Exit || setting
        == Setting::EnableBreakpoints || setting == Setting::Timeout || setting == Setting::Expected
        || setting == Setting::Unknown)
}

/// The names of the tests of a configuration: the keys whose values are tables,
/// in order.
pub open spec fn test_names(root: Seq<(String, ConfigValue)>) -> Seq<Seq<char>>
    decreases root.len(),
{
    if root.len() == 0 {
        seq![]
    } else {
        test_names(root.drop_last()) + if root.last().1 is Table {
            seq![root.last().0@]
        } else {
            seq![]
        }
    }
}

/// Reads the tests of a configuration: its top-level keys, in order. A key whose
/// value is a table defines a test of that name, which starts from the settings
/// of the top-level keys before it and then applies the table's own; any other
/// key is such a setting. Returns the tests and what was reported on the way, or
/// the first symbol that the sym file does not define.
pub fn read_config(root: Vec<(String, ConfigValue)>, symbols: &Vec<(String, (u32, u16))>) -> (r:
    Result<(Vec<TestConfig>, Vec<Diagnostic>), ConfigError>)
    ensures
        r matches Ok((tests, _)) ==> tests@.len() == test_names(root@).len() && forall|j: int|
            0 <= j < tests@.len() ==> (#[trigger] tests@[j]).name@ == test_names(root@)[j],
{
    let mut global = TestConfig::new(String::from_str("Global"));
    let mut tests: Vec<TestConfig> = Vec::new();
    let mut diags: Vec<Diagnostic> = Vec::new();
    let ghost all = root@;
    let n = root.len();
    let mut rest = root;
    let mut k: usize = 0;
    while rest.len() > 0
        invariant
            all.len() == n,
            k <= all.len(),
            rest@ == all.subrange(k as int, all.len() as int),
            tests@.len() == test_names(all.subrange(0, k as int)).len(),
            forall|j: int|
                0 <= j < tests@.len() ==> (#[trigger] tests@[j]).name@ == test_names(
                    all.subrange(0, k as int),
                )[j],
        decreases rest.len(),
    {
        let ghost before = tests@;
        let (key, value) = rest.remove(0);
        proof {
            assert(all.subrange(0, k + 1).drop_last() =~= all.subrange(0, k as int));
            assert(all.subrange(0, k + 1).last() == all[k as int]);
            assert((key, value) == all[k as int]);
        }
        match value {
            ConfigValue::Table(entries) => {
                let ghost name = key@;
                let mut test = global.clone();
                test.name = key;
                let mut entries = entries;
                while entries.len() > 0
                    invariant
                        test.name@ == name,
                    decreases entries.len(),
                {
                    let (key2, value2) = entries.remove(0);
                    apply_setting(&mut test, key2, value2, symbols, &mut diags)?;
                }
                tests.push(test);
            },
            value => {
                apply_setting(&mut global, key, value, symbols, &mut diags)?;
            },
        }
        proof {
            assert(forall|j: int| 0 <= j < before.len() ==> tests@[j] == before[j]);
            assert(tests@.len() == test_names(all.subrange(0, k + 1)).len());
            assert forall|j: int| 0 <= j < tests@.len() implies (#[trigger] tests@[j]).name@
                == test_names(all.subrange(0, k + 1))[j] by {
                if j < before.len() {
                    assert(tests@[j] == before[j]);
                }
            }
        }
        k += 1;
        proof {
            assert(rest@ =~= all.subrange(k as int, all.len() as int));
        }
    }
    proof {
        assert(all.subrange(0, all.len() as int) =~= all);
    }
    Ok((tests, diags))
}

} // verus!
